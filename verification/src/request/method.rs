//! The request methods.

use vstd::prelude::*;

verus! {

/// GET
pub struct Get;

/// POST
pub struct Create;

/// PUT
pub struct Update;

/// PATCH
pub struct Patch;

/// DELETE
pub struct Delete;

} // verus!
