//! Helpers shared by the macros.

pub mod borrow;
pub mod collections;
pub mod multiplicity;
pub mod syn;
pub mod untagged;

use vstd::prelude::*;

verus! {

/// Apply `f` to `value`: its result and `true` when it gives one,
/// otherwise `value` itself and `false`.
pub fn map_is_some<T, F>(value: &T, f: F) -> (r: (&T, bool)) where F: FnOnce(&T) -> Option<&T>
    requires
        call_requires(f, (value,)),
    ensures
        exists|o: Option<&T>|
            call_ensures(f, (value,), o) && r == (match o {
                Some(t) => (t, true),
                None => (value, false),
            }),
{
    let option = f(value);
    match option {
        Some(t) => (t, true),
        None => (value, false),
    }
}

} // verus!

verus! {

/// The type argument of `Option<T>` when the segments are exactly that.
pub open spec fn spec_option_from_path_segments(segments: Seq<syn::PathSegment>) -> Option<
    syn::Type,
> {
    match syn::spec_type_single_arg_from_path_segments(segments) {
        Some((ident, ty)) => if ident@ == "Option"@ {
            Some(ty)
        } else {
            None
        },
        None => None,
    }
}

/// The type argument of `Option<T>` when the segments are exactly that.
pub fn parse_option_from_path_segments(path_segments: &Vec<syn::PathSegment>) -> (r: Option<
    &syn::Type,
>)
    ensures
        match r {
            Some(ty) => spec_option_from_path_segments(path_segments@) == Some(*ty),
            None => spec_option_from_path_segments(path_segments@) is None,
        },
{
    proof {
        reveal_strlit("Option");
    }
    match syn::parse_type_single_arg_from_path_segments(path_segments) {
        Some((ident, ty)) => {
            if crate::text::str_eq(ident.as_str(), "Option") {
                Some(ty)
            } else {
                None
            }
        },
        None => None,
    }
}

/// The type argument of `Option<T>` when the type is exactly that.
pub open spec fn spec_option_from_ty(ty: syn::Type) -> Option<syn::Type> {
    match syn::spec_path_segments_from_type(ty) {
        Some(segments) => spec_option_from_path_segments(segments@),
        None => None,
    }
}

/// The type argument of `Option<T>` when the type is exactly that.
pub fn parse_option_from_ty(ty: &syn::Type) -> (r: Option<&syn::Type>)
    ensures
        match r {
            Some(inner) => spec_option_from_ty(*ty) == Some(*inner),
            None => spec_option_from_ty(*ty) is None,
        },
{
    match syn::parse_path_segments_from_type(ty) {
        Some(segments) => parse_option_from_path_segments(segments),
        None => None,
    }
}

/// The identifier that a type is made of; otherwise the error "expected identifier".
pub fn parse_ident_from_ty(ty: &syn::Type) -> (r: Result<&String, syn::SynError>)
    ensures
        match r {
            Ok(ident) => syn::spec_ident_from_type(*ty) == Some(*ident),
            Err(e) => syn::spec_ident_from_type(*ty) is None && e.message_views() == seq![
                syn::EXPECTED_IDENT@,
            ],
        },
{
    syn::parse_ident_from_type(ty)
}

/// The type inside `Option<..>` and `true`, or the type itself and `false`.
pub fn is_type_optional(ty: syn::Type) -> (r: (syn::Type, bool))
    ensures
        r == (match spec_option_from_ty(ty) {
            Some(inner) => (inner, true),
            None => (ty, false),
        }),
{
    let is_optional = parse_option_from_ty(&ty).is_some();
    if !is_optional {
        return (ty, false);
    }
    match ty {
        syn::Type::Path(path) => {
            let mut segments = path.segments;
            let segment = segments.remove(0);
            match segment.arguments {
                syn::PathArguments::AngleBracketed(args) => {
                    let mut args = args;
                    let arg = args.remove(0);
                    match arg {
                        syn::GenericArgument::Type(inner) => (inner, true),
                        syn::GenericArgument::Other(_) => (syn::Type::Other(String::new()), true),
                    }
                },
                _ => (syn::Type::Other(String::new()), true),
            }
        },
        syn::Type::Other(_) => (syn::Type::Other(String::new()), true),
    }
}

} // verus!
