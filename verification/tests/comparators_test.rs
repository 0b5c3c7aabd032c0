use struct_extractors::comparators::{check_comparators, ComparatorError};
use struct_extractors::expand::{expand_comparators, ExpandError};
use struct_extractors::{extract_compare, extract_comparators};
use struct_extractors::syntax::{Attribute, Data, DeriveItem, Field, Fields, Generics, PathArg};

fn marker(name: Option<&str>) -> Attribute {
    Attribute {
        text: "#[extract_compare(..)]".to_string(),
        path_ident: Some("extract_compare".to_string()),
        meta: None,
        path_arg: Some(PathArg { ident: name.map(|n| n.to_string()) }),
    }
}

fn field(attrs: Vec<Attribute>, ident: &str) -> Field {
    Field { attrs, vis: "pub".to_string(), ident: Some(ident.to_string()), ty: "usize".to_string() }
}

fn item(fields: Vec<Field>) -> DeriveItem {
    DeriveItem {
        attrs: vec![],
        vis: "pub".to_string(),
        ident: "MyStruct".to_string(),
        generics: Generics {
            params: vec![],
            impl_generics: String::new(),
            ty_generics: String::new(),
            where_predicates: vec![],
        },
        data: Data::Struct(Fields::Named(fields)),
    }
}

// The struct of the test below as the expansion re-emits it, and the
// comparator that it generates for it (its inline attribute aside).
pub struct MyStruct {
    pub val: usize,
    pub other: usize,
}

impl MyStruct {
    pub fn mycmp(a: &Self, b: &Self) -> core::cmp::Ordering {
        a.val.cmp(&b.val)
    }
}

const MY_STRUCT_COMPARATOR: &str = "\nimpl MyStruct {\n    #[inline(always)]\n    pub fn mycmp(a: &Self, b: &Self) -> core::cmp::Ordering {\n        a.val.cmp(&b.val)\n    }\n}";

#[test]
fn test_sort_by_val() {
    let expansion = extract_comparators(
        "",
        item(vec![field(vec![marker(Some("mycmp"))], "val"), field(vec![], "other")]),
    );
    assert_eq!(expansion.generated, MY_STRUCT_COMPARATOR);
    assert_eq!(
        expansion.source(),
        format!("pub struct MyStruct {{ pub val: usize, pub other: usize, }}{}", MY_STRUCT_COMPARATOR)
    );

    let mut v = [
        MyStruct { val: 5, other: 100 },
        MyStruct { val: 1, other: 200 },
        MyStruct { val: 3, other: 300 },
    ];

    v.sort_by(MyStruct::mycmp);

    let result: Vec<usize> = v.iter().map(|x| x.val).collect();
    assert_eq!(result, vec![1, 3, 5]);
}

#[test]
fn one_comparator_per_marked_field() {
    let expansion = extract_comparators(
        "",
        item(vec![field(vec![marker(Some("by_a"))], "a"), field(vec![marker(Some("by_b"))], "b")]),
    );
    assert_eq!(
        expansion.generated,
        "\nimpl MyStruct {\n    #[inline(always)]\n    pub fn by_a(a: &Self, b: &Self) -> core::cmp::Ordering {\n        a.a.cmp(&b.a)\n    }\n}\nimpl MyStruct {\n    #[inline(always)]\n    pub fn by_b(a: &Self, b: &Self) -> core::cmp::Ordering {\n        a.b.cmp(&b.b)\n    }\n}"
    );
    match &expansion.item.data {
        Data::Struct(Fields::Named(fs)) => assert!(fs.iter().all(|f| f.attrs.is_empty())),
        _ => panic!("the item stays a struct"),
    }
}

#[test]
fn a_path_marker_names_no_comparator() {
    let expansion = extract_comparators("", item(vec![field(vec![marker(None)], "a")]));
    assert_eq!(expansion.generated, "");
}

#[test]
fn refused_comparator_markers() {
    let bad = Attribute { path_arg: None, ..marker(None) };
    let e = check_comparators(&item(vec![field(vec![bad], "a")])).unwrap_err();
    assert_eq!(e, ComparatorError::InvalidArgument);
    assert_eq!(e.message(), "invalid #[extract_compare(...)] argument");

    let tuple = DeriveItem {
        data: Data::Struct(Fields::Unnamed(vec![Field {
            attrs: vec![marker(Some("c"))],
            vis: String::new(),
            ident: None,
            ty: "u8".to_string(),
        }])),
        ..item(vec![])
    };
    assert_eq!(check_comparators(&tuple).unwrap_err(), ComparatorError::NamedFieldsOnly);
}

#[test]
fn extract_compare_alone_keeps_its_item() {
    assert_eq!(extract_compare("mycmp", "pub val: usize"), "pub val: usize");
}

#[test]
fn comparators_from_the_item_text() {
    let input = "pub struct MyStruct { #[extract_compare(mycmp)] pub val: usize, pub other: usize }";
    let out = expand_comparators("", input).unwrap();
    assert!(out.ends_with(MY_STRUCT_COMPARATOR), "{}", out);
    assert!(!out.contains("extract_compare"), "{}", out);
    assert_eq!(
        expand_comparators("", "struct S { #[extract_compare(1)] a: u8 }"),
        Err(ExpandError::Refused(ComparatorError::InvalidArgument))
    );
    assert_eq!(
        expand_comparators("", "struct S(#[extract_compare(c)] u8);"),
        Err(ExpandError::Refused(ComparatorError::NamedFieldsOnly))
    );
    assert_eq!(expand_comparators("", "fn f() {}"), Err(ExpandError::Parse));
}
