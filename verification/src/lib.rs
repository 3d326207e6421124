//! Verified core of the `laraxum` web framework: the database schema analysis and
//! SQL generation of its `db` macro, the route flattening of its `router` macro,
//! and the decisions of its runtime (errors, authentication, request validation).

pub mod controller;
pub mod db;
pub mod env;
pub mod error;
pub mod model;
pub mod request;
pub mod router;
pub mod text;
pub mod utils;
