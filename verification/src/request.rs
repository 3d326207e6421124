//! Validating requests, for each request method.

use vstd::prelude::*;

use crate::db::stage4::{decimal, spec_decimal};

pub mod method;

verus! {

/// Validate a request for a given request method.
pub trait Request<RequestType> {
    /// Request validation error.
    type Error;

    /// Validate a request.
    fn validate(&self) -> Result<(), Self::Error>;
}

/// Build an error: on success, start a default error and let `f` fill it in;
/// on an error, let `f` add to it.
pub fn error_builder<T, E: Default, F: FnOnce(E) -> E>(result: Result<T, E>, f: F) -> (r: Result<
    T,
    E,
>)
    requires
        forall|e: E| call_requires(f, (e,)),
    ensures
        r is Err,
        match result {
            Ok(_) => exists|e: E| call_ensures(E::default, (), e) && call_ensures(f, (e,), r->Err_0),
            Err(e) => call_ensures(f, (e,), r->Err_0),
        },
{
    match result {
        Ok(_) => {
            let e = E::default();
            let ghost e0 = e;
            let out = f(e);
            assert(call_ensures(f, (e0,), out));
            let r = Err(out);
            assert(r->Err_0 == out);
            assert(exists|e: E| call_ensures(E::default, (), e) && call_ensures(f, (e,), r->Err_0));
            r
        },
        Err(e) => Err(f(e)),
    }
}

/// A string field is at most `max_len` bytes long; otherwise the message
/// `max length is <max_len>`.
pub fn validate_max_len(len: usize, max_len: usize) -> (r: Result<(), String>)
    ensures
        len <= max_len ==> r is Ok,
        len > max_len ==> (r matches Err(m) && m@ == "max length is "@ + spec_decimal(
            max_len as nat,
        )),
{
    if len <= max_len {
        Ok(())
    } else {
        let mut m = String::from_str("max length is ");
        m.append(decimal(max_len as u64).as_str());
        Err(m)
    }
}

/// A string field is at least `min_len` bytes long; otherwise the message
/// `min length is <min_len>`.
pub fn validate_min_len(len: usize, min_len: usize) -> (r: Result<(), String>)
    ensures
        len >= min_len ==> r is Ok,
        len < min_len ==> (r matches Err(m) && m@ == "min length is "@ + spec_decimal(
            min_len as nat,
        )),
{
    if len >= min_len {
        Ok(())
    } else {
        let mut m = String::from_str("min length is ");
        m.append(decimal(min_len as u64).as_str());
        Err(m)
    }
}

} // verus!
