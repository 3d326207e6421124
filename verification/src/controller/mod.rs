//! A controller manages the connection between model and view: the address it serves at,
//! authentication, and the JSON bodies it reads.

use vstd::prelude::*;

use crate::env::{env_var_default, EnvVar};

pub mod auth;
pub mod extract;

verus! {

/// The address to serve at, from the `URL` environment variable; `"localhost:80"` when it is
/// not set.
pub fn url(var: EnvVar) -> (r: String)
    requires
        !(var is NotUnicode),
    ensures
        match var {
            EnvVar::Present(s) => r == s,
            _ => r@ == "localhost:80"@,
        },
{
    env_var_default(var, "localhost:80")
}

} // verus!
