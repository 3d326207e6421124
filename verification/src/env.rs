//! Reading the environment variables of the app.

use vstd::prelude::*;

verus! {

/// What reading an environment variable gave.
pub enum EnvVar {
    /// the variable is set, to valid unicode
    Present(String),
    /// the variable is not set
    NotPresent,
    /// the variable is set, but not to valid unicode
    NotUnicode,
}

/// An optional environment variable: its value when it is set; invalid unicode is a fault
/// of the environment that the caller must rule out.
pub fn env_var_opt(var: EnvVar) -> (r: Option<String>)
    requires
        !(var is NotUnicode),
    ensures
        match var {
            EnvVar::Present(s) => r == Some(s),
            _ => r is None,
        },
{
    match var {
        EnvVar::Present(s) => Some(s),
        _ => None,
    }
}

/// An environment variable with a default: its value when it is set, else the default.
pub fn env_var_default(var: EnvVar, default: &str) -> (r: String)
    requires
        !(var is NotUnicode),
    ensures
        match var {
            EnvVar::Present(s) => r == s,
            _ => r@ == default@,
        },
{
    match env_var_opt(var) {
        Some(s) => s,
        None => String::from_str(default),
    }
}

} // verus!
