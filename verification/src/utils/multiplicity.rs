//! How many values a field type holds: exactly one, one or zero (`Option`), or many (`Vec`).

use vstd::prelude::*;

use super::syn::{
    parse_path_segments_from_type, parse_type_single_arg_from_path_segments,
    spec_path_segments_from_type, spec_type_single_arg_from_path_segments, Type,
};

verus! {

/// How many values a field type holds.
#[derive(PartialEq, Eq, Structural)]
pub enum Multiplicity {
    One,
    OneOrZero,
    Many,
}

impl Multiplicity {
    /// Whether the value may be absent.
    pub fn optional(&self) -> (r: bool)
        ensures
            r == (*self is OneOrZero),
    {
        match self {
            Self::OneOrZero => true,
            Self::One | Self::Many => false,
        }
    }
}

/// The inner type and multiplicity of a type: `Vec<T>` is many `T`,
/// `Option<T>` is one or zero `T`, any other type is one of itself.
pub open spec fn spec_multiplicity(ty: Type) -> (Type, Multiplicity) {
    match spec_path_segments_from_type(ty) {
        Some(segments) => match spec_type_single_arg_from_path_segments(segments@) {
            Some((ident, inner)) => if ident@ == "Vec"@ {
                (inner, Multiplicity::Many)
            } else if ident@ == "Option"@ {
                (inner, Multiplicity::OneOrZero)
            } else {
                (ty, Multiplicity::One)
            },
            None => (ty, Multiplicity::One),
        },
        None => (ty, Multiplicity::One),
    }
}

/// The inner type and multiplicity of a type: `Vec<T>` is many `T`,
/// `Option<T>` is one or zero `T`, any other type is one of itself.
pub fn multiplicity(ty: &Type) -> (r: (&Type, Multiplicity))
    ensures
        (*r.0, r.1) == spec_multiplicity(*ty),
{
    proof {
        reveal_strlit("Vec");
        reveal_strlit("Option");
    }
    match parse_path_segments_from_type(ty) {
        Some(segments) => match parse_type_single_arg_from_path_segments(segments) {
            Some((ident, inner)) => {
                if crate::text::str_eq(ident.as_str(), "Vec") {
                    (inner, Multiplicity::Many)
                } else if crate::text::str_eq(ident.as_str(), "Option") {
                    (inner, Multiplicity::OneOrZero)
                } else {
                    (ty, Multiplicity::One)
                }
            },
            None => (ty, Multiplicity::One),
        },
        None => (ty, Multiplicity::One),
    }
}

/// The type inside `Option<..>` and `true`, or the type itself and `false`.
pub open spec fn spec_optional(ty: Type) -> (Type, bool) {
    let (inner, m) = spec_multiplicity(ty);
    if m is OneOrZero {
        (inner, true)
    } else {
        (ty, false)
    }
}

/// The type inside `Option<..>` and `true`, or the type itself and `false`.
pub fn optional(ty: &Type) -> (r: (&Type, bool))
    ensures
        (*r.0, r.1) == spec_optional(*ty),
{
    let (ty_inner, multiplicity) = multiplicity(ty);
    let optional = multiplicity.optional();
    (if optional { ty_inner } else { ty }, optional)
}

} // verus!
