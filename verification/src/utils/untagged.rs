//! An enum read from whichever of its variants' fields are present: the fields of all the
//! variants gathered into one set of optional fields, and the variant chosen by which of them
//! are present.

use vstd::prelude::*;

use super::syn::{clone_type, same_type, type_eq, SynError, Type};

verus! {

pub const FIELD_TYPES_DIFFER: &'static str = "a field has different types in different variants";

/// The fields of the variants, variant after variant.
pub open spec fn spec_variant_fields(variants: Seq<(String, Vec<(String, Type)>)>) -> Seq<
    (String, Type),
>
    decreases variants.len(),
{
    if variants.len() == 0 {
        Seq::empty()
    } else {
        spec_variant_fields(variants.drop_last()) + variants.last().1@
    }
}

/// The position of the first field named `name`, if any.
pub open spec fn spec_find_field(fields: Seq<(String, Type)>, name: Seq<char>) -> Option<int>
    decreases fields.len(),
{
    if fields.len() == 0 {
        None
    } else {
        match spec_find_field(fields.drop_last(), name) {
            Some(k) => Some(k),
            None => if fields.last().0@ == name {
                Some(fields.len() - 1)
            } else {
                None
            },
        }
    }
}

/// Each field name once, with its type, in the order the names first occur; `None` when a
/// name occurs with two types.
pub open spec fn spec_field_union(fields: Seq<(String, Type)>) -> Option<Seq<(String, Type)>>
    decreases fields.len(),
{
    if fields.len() == 0 {
        Some(Seq::empty())
    } else {
        match spec_field_union(fields.drop_last()) {
            None => None,
            Some(u) => match spec_find_field(u, fields.last().0@) {
                Some(k) => if same_type(u[k].1, fields.last().1) {
                    Some(u)
                } else {
                    None
                },
                None => Some(u.push(fields.last())),
            },
        }
    }
}

proof fn lemma_find_field(fields: Seq<(String, Type)>, name: Seq<char>)
    ensures
        match spec_find_field(fields, name) {
            Some(k) => 0 <= k < fields.len() && fields[k].0@ == name && forall|j: int|
                0 <= j < k ==> (#[trigger] fields[j]).0@ != name,
            None => forall|j: int| 0 <= j < fields.len() ==> (#[trigger] fields[j]).0@ != name,
        },
    decreases fields.len(),
{
    if fields.len() > 0 {
        lemma_find_field(fields.drop_last(), name);
        assert forall|j: int| 0 <= j < fields.len() - 1 implies fields.drop_last()[j]
            == fields[j] by {}
    }
}

proof fn lemma_union_prefix(full: Seq<(String, Type)>, n: int)
    requires
        0 <= n <= full.len(),
        spec_field_union(full.take(n)) is None,
    ensures
        spec_field_union(full) is None,
    decreases full.len(),
{
    if n < full.len() {
        assert(full.drop_last().take(n) =~= full.take(n));
        lemma_union_prefix(full.drop_last(), n);
    } else {
        assert(full.take(n) =~= full);
    }
}

proof fn lemma_variant_fields_prefix(variants: Seq<(String, Vec<(String, Type)>)>, i: int)
    requires
        0 <= i <= variants.len(),
    ensures
        spec_variant_fields(variants.take(i)).len() <= spec_variant_fields(variants).len(),
        spec_variant_fields(variants).take(spec_variant_fields(variants.take(i)).len() as int)
            == spec_variant_fields(variants.take(i)),
    decreases variants.len(),
{
    if i == variants.len() {
        assert(variants.take(i) =~= variants);
        assert(spec_variant_fields(variants).take(spec_variant_fields(variants).len() as int)
            =~= spec_variant_fields(variants));
    } else {
        assert(variants.drop_last().take(i) =~= variants.take(i));
        lemma_variant_fields_prefix(variants.drop_last(), i);
        let p = spec_variant_fields(variants.take(i));
        let d = spec_variant_fields(variants.drop_last());
        assert(spec_variant_fields(variants) == d + variants.last().1@);
        assert((d + variants.last().1@).take(p.len() as int) =~= d.take(p.len() as int));
    }
}

/// The fields of an enum read from whichever of its variants' fields are present: each field
/// name of the variants once, with its type, in the order the names first occur; an error when
/// a name occurs with two different types.
pub fn untagged_enum_fields(variants: &Vec<(String, Vec<(String, Type)>)>) -> (r: Result<
    Vec<(String, Type)>,
    SynError,
>)
    ensures
        match spec_field_union(spec_variant_fields(variants@)) {
            Some(u) => r matches Ok(v) && v@.len() == u.len() && forall|k: int|
                0 <= k < u.len() ==> (#[trigger] v@[k]).0 == u[k].0 && same_type(u[k].1, v@[k].1),
            None => r matches Err(e) && e.message_views() == seq![FIELD_TYPES_DIFFER@],
        },
{
    let mut union: Vec<(&String, &Type)> = Vec::new();
    let ghost mut u: Seq<(String, Type)> = Seq::empty();
    let n = variants.len();
    for i in 0..n
        invariant
            n == variants@.len(),
            spec_field_union(spec_variant_fields(variants@.take(i as int))) == Some(u),
            union@.len() == u.len(),
            forall|k: int|
                0 <= k < u.len() ==> *(#[trigger] union@[k]).0 == u[k].0 && *union@[k].1 == u[k].1,
    {
        let fields = &variants[i].1;
        let ghost before = spec_variant_fields(variants@.take(i as int));
        proof {
            assert(variants@.take(i + 1).drop_last() =~= variants@.take(i as int));
            assert(spec_variant_fields(variants@.take(i + 1)) == before + fields@);
            assert(before + fields@.take(0) =~= before);
        }
        let m = fields.len();
        for j in 0..m
            invariant
                n == variants@.len(),
                0 <= i < n,
                m == fields@.len(),
                *fields == variants@[i as int].1,
                before == spec_variant_fields(variants@.take(i as int)),
                spec_variant_fields(variants@.take(i + 1)) == before + fields@,
                spec_field_union(before + fields@.take(j as int)) == Some(u),
                union@.len() == u.len(),
                forall|k: int|
                    0 <= k < u.len() ==> *(#[trigger] union@[k]).0 == u[k].0 && *union@[k].1
                        == u[k].1,
        {
            let name = &fields[j].0;
            let ty = &fields[j].1;
            let ghost prefix = before + fields@.take(j + 1);
            proof {
                assert(prefix.drop_last() =~= before + fields@.take(j as int));
                assert(prefix.last() == fields@[j as int]);
                lemma_find_field(u, name@);
            }
            let mut found: Option<usize> = None;
            let mut k: usize = 0;
            let len = union.len();
            while k < len
                invariant
                    len == union@.len(),
                    len == u.len(),
                    k <= len,
                    forall|q: int|
                        0 <= q < u.len() ==> *(#[trigger] union@[q]).0 == u[q].0 && *union@[q].1
                            == u[q].1,
                    found is None ==> forall|q: int| 0 <= q < k ==> (#[trigger] u[q]).0@ != name@,
                    found matches Some(f) ==> f < len && u[f as int].0@ == name@ && forall|q: int|
                        0 <= q < f ==> (#[trigger] u[q]).0@ != name@,
                decreases len - k,
            {
                if found.is_none() && *union[k].0 == *name {
                    found = Some(k);
                }
                k = k + 1;
            }
            if let Some(k) = found {
                assert(spec_find_field(u, name@) == Some(k as int));
                if !type_eq(union[k].1, ty) {
                    proof {
                        assert(spec_field_union(prefix) is None);
                        assert(fields@.take(j + 1) =~= fields@.take(m as int).take(j + 1));
                        assert((before + fields@).take(prefix.len() as int) =~= prefix);
                        lemma_variant_fields_prefix(variants@, i + 1);
                        let full = spec_variant_fields(variants@);
                        assert(full.take(prefix.len() as int) =~= prefix);
                        lemma_union_prefix(full, prefix.len() as int);
                    }
                    return Err(SynError::new(FIELD_TYPES_DIFFER));
                }
            } else {
                assert(spec_find_field(u, name@) is None);
                union.push((name, ty));
                proof {
                    u = u.push(fields@[j as int]);
                }
            }
        }
        proof {
            assert(fields@.take(m as int) =~= fields@);
        }
    }
    proof {
        assert(variants@.take(n as int) =~= variants@);
    }
    let mut r: Vec<(String, Type)> = Vec::new();
    let len = union.len();
    for k in 0..len
        invariant
            len == union@.len(),
            len == u.len(),
            forall|q: int|
                0 <= q < u.len() ==> *(#[trigger] union@[q]).0 == u[q].0 && *union@[q].1 == u[q].1,
            r@.len() == k,
            forall|q: int|
                0 <= q < k ==> (#[trigger] r@[q]).0 == u[q].0 && same_type(u[q].1, r@[q].1),
    {
        let name = union[k].0.clone();
        let ty = clone_type(union[k].1);
        r.push((name, ty));
    }
    Ok(r)
}

/// The names, as a set.
pub open spec fn spec_name_set(names: Seq<String>) -> Set<Seq<char>> {
    Set::new(|n: Seq<char>| exists|i: int| 0 <= i < names.len() && names[i]@ == n)
}

/// The first variant whose fields are exactly the present fields, if any.
pub open spec fn spec_first_match(variants: Seq<Vec<String>>, present: Seq<String>) -> Option<int>
    decreases variants.len(),
{
    if variants.len() == 0 {
        None
    } else {
        match spec_first_match(variants.drop_last(), present) {
            Some(i) => Some(i),
            None => if spec_name_set(variants.last()@) == spec_name_set(present) {
                Some(variants.len() - 1)
            } else {
                None
            },
        }
    }
}

/// Whether `name` is one of the names.
fn contains_name(names: &Vec<String>, name: &String) -> (r: bool)
    ensures
        r == spec_name_set(names@).contains(name@),
{
    let n = names.len();
    for i in 0..n
        invariant
            n == names@.len(),
            forall|k: int| 0 <= k < i ==> (#[trigger] names@[k])@ != name@,
    {
        if names[i] == *name {
            return true;
        }
    }
    false
}

/// Whether every name of `a` is a name of `b`.
fn all_names_in(a: &Vec<String>, b: &Vec<String>) -> (r: bool)
    ensures
        r == spec_name_set(a@).subset_of(spec_name_set(b@)),
{
    let n = a.len();
    for i in 0..n
        invariant
            n == a@.len(),
            forall|k: int| 0 <= k < i ==> spec_name_set(b@).contains((#[trigger] a@[k])@),
    {
        if !contains_name(b, &a[i]) {
            assert(spec_name_set(a@).contains(a@[i as int]@));
            return false;
        }
    }
    true
}

/// Whether two lists hold the same names.
fn same_names(a: &Vec<String>, b: &Vec<String>) -> (r: bool)
    ensures
        r == (spec_name_set(a@) == spec_name_set(b@)),
{
    let ab = all_names_in(a, b);
    let ba = all_names_in(b, a);
    if ab && ba {
        assert(spec_name_set(a@) =~= spec_name_set(b@));
    }
    ab && ba
}

/// The variant read from the present fields: the first variant whose fields are exactly the
/// present ones; otherwise the default variant when no field is present; otherwise none, an
/// unknown combination of fields.
pub fn select_variant(
    variants: &Vec<Vec<String>>,
    present: &Vec<String>,
    default_variant: Option<usize>,
) -> (r: Option<usize>)
    ensures
        match spec_first_match(variants@, present@) {
            Some(i) => r == Some(i as usize),
            None => r == (if present@.len() == 0 {
                default_variant
            } else {
                None
            }),
        },
{
    let n = variants.len();
    for i in 0..n
        invariant
            n == variants@.len(),
            spec_first_match(variants@.take(i as int), present@) is None,
    {
        proof {
            assert(variants@.take(i + 1).drop_last() =~= variants@.take(i as int));
        }
        if same_names(&variants[i], present) {
            assert(spec_first_match(variants@.take(i + 1), present@) == Some(i as int));
            proof {
                lemma_first_match_prefix(variants@, present@, i + 1);
            }
            return Some(i);
        }
    }
    assert(variants@.take(n as int) =~= variants@);
    if present.len() == 0 {
        default_variant
    } else {
        None
    }
}

proof fn lemma_first_match_prefix(variants: Seq<Vec<String>>, present: Seq<String>, n: int)
    requires
        0 <= n <= variants.len(),
        spec_first_match(variants.take(n), present) is Some,
    ensures
        spec_first_match(variants, present) == spec_first_match(variants.take(n), present),
    decreases variants.len(),
{
    if n < variants.len() {
        assert(variants.drop_last().take(n) =~= variants.take(n));
        lemma_first_match_prefix(variants.drop_last(), present, n);
    } else {
        assert(variants.take(n) =~= variants);
    }
}

} // verus!
