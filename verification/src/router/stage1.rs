//! Stage 1 of the `router` macro: the routes as written, a tree of nested paths.

use vstd::prelude::*;

use crate::utils::syn::TypePath;

verus! {

/// `method: handler`: the handler of one HTTP method, as Rust source.
pub struct MethodRoute {
    pub method: String,
    pub f: String,
}

/// What a path serves: handlers of methods, or all the routes of a controller.
pub enum MethodRouter {
    MethodRoutes(Vec<MethodRoute>),
    Controller(TypePath),
}

/// `"path" { router }`: a nested router under a path.
pub struct Route {
    pub path: String,
    pub router: Router,
}

/// What a path serves itself, and the routes nested under it.
pub struct Router {
    pub method_router: Option<MethodRouter>,
    pub routes: Vec<Route>,
}

} // verus!
