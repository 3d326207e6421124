use laraxum::utils::syn::{PathArguments, PathSegment, Type, TypePath};
use laraxum::utils::untagged::{select_variant, untagged_enum_fields, FIELD_TYPES_DIFFER};

fn ty(name: &str) -> Type {
    Type::Path(TypePath {
        qself: None,
        leading_colon: false,
        segments: vec![PathSegment { ident: name.to_string(), arguments: PathArguments::Bare }],
    })
}

fn field(name: &str, t: &str) -> (String, Type) {
    (name.to_string(), ty(t))
}

fn names(v: &[&str]) -> Vec<String> {
    v.iter().map(|s| s.to_string()).collect()
}

#[test]
fn fields_union_in_first_order() {
    let variants = vec![
        ("ByName".to_string(), vec![field("filter_name_eq", "String"), field("limit", "u64")]),
        ("ByAge".to_string(), vec![field("filter_age_gt", "u8"), field("limit", "u64")]),
    ];
    let fields = untagged_enum_fields(&variants).ok().unwrap();
    let got: Vec<String> = fields.iter().map(|(n, _)| n.clone()).collect();
    assert_eq!(got, names(&["filter_name_eq", "limit", "filter_age_gt"]));
}

#[test]
fn field_with_two_types_is_an_error() {
    let variants = vec![
        ("A".to_string(), vec![field("limit", "u64")]),
        ("B".to_string(), vec![field("limit", "u32")]),
    ];
    let e = untagged_enum_fields(&variants).err().unwrap();
    assert_eq!(e.messages, vec![FIELD_TYPES_DIFFER.to_string()]);
}

#[test]
fn variant_by_present_fields() {
    let variants = vec![names(&["filter", "limit"]), names(&["sort"]), names(&["limit", "filter"])];
    assert_eq!(select_variant(&variants, &names(&["limit", "filter"]), Some(9)), Some(0));
    assert_eq!(select_variant(&variants, &names(&["sort"]), Some(9)), Some(1));
    assert_eq!(select_variant(&variants, &names(&[]), Some(9)), Some(9));
    assert_eq!(select_variant(&variants, &names(&[]), None), None);
    assert_eq!(select_variant(&variants, &names(&["sort", "limit"]), Some(9)), None);
    assert_eq!(select_variant(&variants, &names(&["filter"]), Some(9)), None);
}

#[test]
fn other_types_compare_by_source() {
    let variants = vec![
        ("A".to_string(), vec![("f".to_string(), Type::Other("[u8; 4]".to_string()))]),
        ("B".to_string(), vec![("f".to_string(), Type::Other("(u8, u8)".to_string()))]),
    ];
    assert!(untagged_enum_fields(&variants).is_err());
    let same = vec![
        ("A".to_string(), vec![("f".to_string(), Type::Other("[u8; 4]".to_string()))]),
        ("B".to_string(), vec![("f".to_string(), Type::Other("[u8; 4]".to_string()))]),
    ];
    assert_eq!(untagged_enum_fields(&same).ok().unwrap().len(), 1);
}
