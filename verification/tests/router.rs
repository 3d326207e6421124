use laraxum::router::stage1::{MethodRoute, MethodRouter, Route, Router};
use laraxum::router::stage2;

fn methods(f: &str) -> Option<MethodRouter> {
    Some(MethodRouter::MethodRoutes(vec![MethodRoute {
        method: "get".to_string(),
        f: f.to_string(),
    }]))
}

fn leaf(path: &str, f: &str) -> Route {
    Route { path: path.to_string(), router: Router { method_router: methods(f), routes: vec![] } }
}

fn handler(r: &stage2::Route) -> String {
    match r.method_router {
        MethodRouter::MethodRoutes(routes) => routes[0].f.clone(),
        MethodRouter::Controller(_) => String::new(),
    }
}

#[test]
fn nested_paths_are_joined() {
    let router = Router {
        method_router: methods("db::api_docs"),
        routes: vec![Route {
            path: "/api/v3".to_string(),
            router: Router {
                method_router: methods("db::home"),
                routes: vec![
                    leaf("/login", "db::login"),
                    Route {
                        path: "/settings".to_string(),
                        router: Router {
                            method_router: methods("db::settings_home"),
                            routes: vec![leaf("/contacts", "db::contacts")],
                        },
                    },
                ],
            },
        }],
    };
    let flat = stage2::Router::from(&router);
    let in_order: Vec<(String, String)> =
        flat.routes.iter().rev().map(|r| (r.path.clone(), handler(r))).collect();
    assert_eq!(
        in_order,
        vec![
            ("".to_string(), "db::api_docs".to_string()),
            ("/api/v3".to_string(), "db::home".to_string()),
            ("/api/v3/login".to_string(), "db::login".to_string()),
            ("/api/v3/settings".to_string(), "db::settings_home".to_string()),
            ("/api/v3/settings/contacts".to_string(), "db::contacts".to_string()),
        ]
    );
}

#[test]
fn router_without_methods_adds_no_route() {
    let router = Router { method_router: None, routes: vec![leaf("/a", "a"), leaf("/b", "b")] };
    let flat = stage2::Router::from(&router);
    let paths: Vec<String> = flat.routes.iter().map(|r| r.path.clone()).collect();
    assert_eq!(paths, vec!["/b".to_string(), "/a".to_string()]);
}

#[test]
fn controller_paths() {
    let (all, one) = stage2::controller_paths("/users");
    assert_eq!(all, "/users");
    assert_eq!(one, "/users/{id}");
}

#[test]
fn controller_method_table() {
    let routes = laraxum::router::stage2::controller_routes("/users");
    assert_eq!(routes.len(), 2);
    assert_eq!(routes[0].0, "/users");
    assert_eq!(routes[0].1, vec![("get", "get_many"), ("post", "create")]);
    assert_eq!(routes[1].0, "/users/{id}");
    assert_eq!(
        routes[1].1,
        vec![("get", "get"), ("put", "update"), ("patch", "patch"), ("delete", "delete")]
    );
}
