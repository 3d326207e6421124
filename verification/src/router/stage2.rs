//! Stage 2 of the `router` macro: the routes flattened, each with its full path.

use vstd::prelude::*;

use super::stage1;
pub use super::stage1::MethodRouter;

verus! {

/// A full path and what it serves.
pub struct Route<'a> {
    pub path: String,
    pub method_router: &'a MethodRouter,
}

/// The flattened routes, last route first.
pub struct Router<'a> {
    pub routes: Vec<Route<'a>>,
}

/// The routes of a router under a parent path, in the order they are flattened:
/// the routes nested in it from the last to the first, each flattened in turn,
/// then what the router serves itself at the parent path.
pub open spec fn spec_flat_routes(router: stage1::Router, parent: Seq<char>) -> Seq<
    (Seq<char>, stage1::MethodRouter),
>
    decreases router,
{
    spec_flat_children(router.routes@, parent) + match router.method_router {
        Some(m) => seq![(parent, m)],
        None => seq![],
    }
}

/// The routes nested under a parent path, flattened from the last to the first.
pub open spec fn spec_flat_children(routes: Seq<stage1::Route>, parent: Seq<char>) -> Seq<
    (Seq<char>, stage1::MethodRouter),
>
    decreases routes,
{
    if routes.len() == 0 {
        seq![]
    } else {
        spec_flat_routes(routes.last().router, parent + routes.last().path@) + spec_flat_children(
            routes.drop_last(),
            parent,
        )
    }
}

/// The routes in the order they are written: what a router serves itself at its path first,
/// then the routes nested in it, each with the paths of its parents before its own.
pub open spec fn spec_routes_in_order(router: stage1::Router, parent: Seq<char>) -> Seq<
    (Seq<char>, stage1::MethodRouter),
>
    decreases router,
{
    let own = match router.method_router {
        Some(m) => seq![(parent, m)],
        None => seq![],
    };
    own + spec_children_in_order(router.routes@, parent)
}

/// The routes nested under a parent path, in the order they are written.
pub open spec fn spec_children_in_order(routes: Seq<stage1::Route>, parent: Seq<char>) -> Seq<
    (Seq<char>, stage1::MethodRouter),
>
    decreases routes,
{
    if routes.len() == 0 {
        seq![]
    } else {
        spec_children_in_order(routes.drop_last(), parent) + spec_routes_in_order(
            routes.last().router,
            parent + routes.last().path@,
        )
    }
}

/// The flattened routes as full paths and what each serves.
pub open spec fn spec_routes_view<'a>(routes: Seq<Route<'a>>) -> Seq<(Seq<char>, stage1::MethodRouter)> {
    routes.map_values(|r: Route<'a>| (r.path@, *r.method_router))
}

/// A parent path, `""` for the root.
pub open spec fn spec_parent_path(parent_path: Option<String>) -> Seq<char> {
    match parent_path {
        Some(p) => p@,
        None => Seq::empty(),
    }
}

/// Add the routes of a router under a parent path (none for the root, which serves at `""`),
/// in the order of [`spec_flat_routes`].
pub fn flatten_routes<'a>(
    router: &'a stage1::Router,
    parent_path: Option<String>,
    flat_routes: &mut Vec<Route<'a>>,
)
    ensures
        spec_routes_view(final(flat_routes)@) == spec_routes_view(old(flat_routes)@)
            + spec_flat_routes(*router, spec_parent_path(parent_path)),
    decreases *router,
{
    let ghost parent = spec_parent_path(parent_path);
    let ghost start = spec_routes_view(flat_routes@);
    let routes = &router.routes;
    let n = routes.len();
    let mut k: usize = 0;
    let ghost mut done: Seq<(Seq<char>, stage1::MethodRouter)> = Seq::empty();
    assert(routes@.take(n as int) =~= routes@);
    assert(spec_routes_view(flat_routes@) =~= start + done);
    assert(done + spec_flat_children(routes@.take(n as int), parent) =~= spec_flat_children(
        routes@,
        parent,
    ));
    while k < n
        invariant
            k <= n,
            n == routes@.len(),
            routes == &router.routes,
            parent == spec_parent_path(parent_path),
            spec_routes_view(flat_routes@) == start + done,
            done + spec_flat_children(routes@.take(n - k), parent) == spec_flat_children(
                routes@,
                parent,
            ),
        decreases n - k,
    {
        let i = n - 1 - k;
        let route = &routes[i];
        proof {
            assert(decreases_to!(*router => router.routes));
            assert(decreases_to!(router.routes => routes@[i as int]));
        }
        let path = match &parent_path {
            Some(parent_path) => {
                let mut path = parent_path.clone();
                path.append(route.path.as_str());
                path
            },
            None => route.path.clone(),
        };
        assert(path@ == parent + route.path@);
        flatten_routes(&route.router, Some(path), flat_routes);
        proof {
            let rest = routes@.take(n - k);
            assert(rest.drop_last() =~= routes@.take(n - k - 1));
            assert(rest.last() == routes@[i as int]);
            let added = spec_flat_routes(route.router, parent + route.path@);
            let done2 = done + added;
            assert(spec_routes_view(flat_routes@) =~= start + done2);
            assert(done2 + spec_flat_children(routes@.take(n - k - 1), parent) =~= done
                + spec_flat_children(rest, parent));
            done = done2;
        }
        k = k + 1;
    }
    proof {
        assert(routes@.take(0) =~= Seq::<stage1::Route>::empty());
    }
    match &router.method_router {
        Some(method_router) => {
            let path = match parent_path {
                Some(p) => p,
                None => String::new(),
            };
            let ghost before = flat_routes@;
            flat_routes.push(Route { path, method_router });
            assert(spec_routes_view(flat_routes@) =~= spec_routes_view(before).push(
                (parent, *method_router),
            ));
        },
        None => {},
    }
    assert(spec_routes_view(flat_routes@) =~= start + spec_flat_routes(*router, parent));
}

impl<'a> Router<'a> {
    /// The flattened routes of a router: [`spec_flat_routes`] from the root path `""`.
    pub fn from(router: &'a stage1::Router) -> (r: Router<'a>)
        ensures
            spec_routes_view(r.routes@) == spec_flat_routes(*router, Seq::empty()),
    {
        let mut flat_routes: Vec<Route<'a>> = Vec::new();
        assert(spec_routes_view(flat_routes@) =~= Seq::empty());
        flatten_routes(router, None, &mut flat_routes);
        assert(spec_routes_view(flat_routes@) =~= spec_flat_routes(*router, Seq::empty()));
        Router { routes: flat_routes }
    }
}

/// The paths of a controller: its own path, for all its records, and the path of one record.
pub fn controller_paths(path: &str) -> (r: (String, String))
    ensures
        r.0@ == path@,
        r.1@ == path@ + "/{id}"@,
{
    let mut path_id = String::from_str(path);
    path_id.append("/{id}");
    (String::from_str(path), path_id)
}

/// The routes of a controller at `path`: for all its records, `GET` lists them and `POST`
/// creates one; for one record at `path/{id}`, `GET` reads it, `PUT` updates it, `PATCH`
/// patches it and `DELETE` deletes it. Each method is given with the controller's handler.
pub open spec fn spec_controller_routes(path: Seq<char>) -> Seq<
    (Seq<char>, Seq<(Seq<char>, Seq<char>)>),
> {
    seq![
        (path, seq![("get"@, "get_many"@), ("post"@, "create"@)]),
        (
            path + "/{id}"@,
            seq![
                ("get"@, "get"@),
                ("put"@, "update"@),
                ("patch"@, "patch"@),
                ("delete"@, "delete"@),
            ],
        ),
    ]
}

/// The routes of a controller at `path`, each path with its methods and their handlers.
pub fn controller_routes(path: &str) -> (r: Vec<(String, Vec<(&'static str, &'static str)>)>)
    ensures
        r@.len() == spec_controller_routes(path@).len(),
        forall|i: int|
            0 <= i < r@.len() ==> (#[trigger] r@[i]).0@ == spec_controller_routes(path@)[i].0
                && r@[i].1@.len() == spec_controller_routes(path@)[i].1.len() && forall|j: int|
                0 <= j < r@[i].1@.len() ==> ((#[trigger] r@[i].1@[j]).0@, r@[i].1@[j].1@)
                    == spec_controller_routes(path@)[i].1[j],
{
    let (all, one) = controller_paths(path);
    let mut all_methods: Vec<(&'static str, &'static str)> = Vec::new();
    all_methods.push(("get", "get_many"));
    all_methods.push(("post", "create"));
    let mut one_methods: Vec<(&'static str, &'static str)> = Vec::new();
    one_methods.push(("get", "get"));
    one_methods.push(("put", "update"));
    one_methods.push(("patch", "patch"));
    one_methods.push(("delete", "delete"));
    let mut r: Vec<(String, Vec<(&'static str, &'static str)>)> = Vec::new();
    r.push((all, all_methods));
    r.push((one, one_methods));
    r
}

proof fn lemma_reverse_add<A>(a: Seq<A>, b: Seq<A>)
    ensures
        (a + b).reverse() == b.reverse() + a.reverse(),
{
    assert((a + b).reverse() =~= b.reverse() + a.reverse());
}

/// The flattened routes of a router, read from the last to the first, are its routes in the
/// order they are written: what each router serves itself, then its nested routes in order,
/// each under the paths of its parents.
pub proof fn law_flat_routes_reversed_are_in_order(router: stage1::Router, parent: Seq<char>)
    ensures
        spec_flat_routes(router, parent).reverse() == spec_routes_in_order(router, parent),
    decreases router,
{
    let own = match router.method_router {
        Some(m) => seq![(parent, m)],
        None => Seq::<(Seq<char>, stage1::MethodRouter)>::empty(),
    };
    assert(own.reverse() =~= own);
    law_flat_children_reversed_are_in_order(router.routes@, parent);
    lemma_reverse_add(spec_flat_children(router.routes@, parent), own);
}

/// The flattened routes nested under a path, read from the last to the first, are in the
/// order they are written.
pub proof fn law_flat_children_reversed_are_in_order(routes: Seq<stage1::Route>, parent: Seq<char>)
    ensures
        spec_flat_children(routes, parent).reverse() == spec_children_in_order(routes, parent),
    decreases routes,
{
    if routes.len() == 0 {
        assert(Seq::<(Seq<char>, stage1::MethodRouter)>::empty().reverse() =~= Seq::empty());
    } else {
        let last = routes.last();
        law_flat_routes_reversed_are_in_order(last.router, parent + last.path@);
        law_flat_children_reversed_are_in_order(routes.drop_last(), parent);
        lemma_reverse_add(
            spec_flat_routes(last.router, parent + last.path@),
            spec_flat_children(routes.drop_last(), parent),
        );
    }
}

} // verus!
