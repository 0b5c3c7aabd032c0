use std::collections::HashMap;
use std::hash::{DefaultHasher, Hash, Hasher};
use struct_extractors::extract_hashers;
use struct_extractors::hashers::{check_hashers, HasherError};
use struct_extractors::expand::{expand_hashers, ExpandError};
use struct_extractors::extract_hash;
use struct_extractors::syntax::{Attribute, Data, DeriveItem, Field, Fields, GenericParam, Generics};

fn marker() -> Attribute {
    Attribute {
        text: "#[extract_hash]".to_string(),
        path_ident: Some("extract_hash".to_string()),
        meta: None,
        path_arg: None,
    }
}

fn field(attrs: Vec<Attribute>, ident: &str) -> Field {
    Field { attrs, vis: "pub".to_string(), ident: Some(ident.to_string()), ty: "usize".to_string() }
}

fn no_generics() -> Generics {
    Generics { params: vec![], impl_generics: String::new(), ty_generics: String::new(), where_predicates: vec![] }
}

fn item(fields: Vec<Field>) -> DeriveItem {
    DeriveItem {
        attrs: vec!["#[derive(Debug)]".to_string()],
        vis: "pub".to_string(),
        ident: "MyStruct".to_string(),
        generics: no_generics(),
        data: Data::Struct(Fields::Named(fields)),
    }
}

// The struct of the tests below as the expansion re-emits it, and the wrapper
// and method that it generates for it (their inline attributes aside).
#[derive(Debug)]
pub struct MyStruct {
    pub val: usize,
    pub other: usize,
}

#[derive(Clone, Copy, Debug)]
pub struct MyStructHashByval<'__hash, >(pub &'__hash MyStruct);
impl<'__hash, > core::cmp::PartialEq for MyStructHashByval<'__hash, > {
    fn eq(&self, other: &Self) -> bool {
        self.0.val == other.0.val
    }
}
impl<'__hash, > core::cmp::Eq for MyStructHashByval<'__hash, > {}
impl<'__hash, > core::hash::Hash for MyStructHashByval<'__hash, > {
    fn hash<H: core::hash::Hasher>(&self, state: &mut H) {
        core::hash::Hash::hash(&self.0.val, state);
    }
}
impl MyStruct {
    pub fn hash_by_val(&self) -> MyStructHashByval<'_, > {
        MyStructHashByval(self)
    }
}

const MY_STRUCT_HASHERS: &str = "\n#[derive(Clone, Copy, Debug)]\npub struct MyStructHashByval<'__hash, >(pub &'__hash MyStruct);\nimpl<'__hash, > core::cmp::PartialEq for MyStructHashByval<'__hash, > {\n    #[inline]\n    fn eq(&self, other: &Self) -> bool {\n        self.0.val == other.0.val\n    }\n}\nimpl<'__hash, > core::cmp::Eq for MyStructHashByval<'__hash, > {}\nimpl<'__hash, > core::hash::Hash for MyStructHashByval<'__hash, > {\n    #[inline]\n    fn hash<H: core::hash::Hasher>(&self, state: &mut H) {\n        core::hash::Hash::hash(&self.0.val, state);\n    }\n}\nimpl MyStruct {\n    #[inline]\n    pub fn hash_by_val(&self) -> MyStructHashByval<'_, > {\n        MyStructHashByval(self)\n    }\n}";

fn check_expansion() {
    let expansion = extract_hashers("", item(vec![field(vec![marker()], "val"), field(vec![], "other")]));
    assert_eq!(expansion.generated, MY_STRUCT_HASHERS);
    assert_eq!(
        expansion.source(),
        format!("#[derive(Debug)] pub struct MyStruct {{ pub val: usize, pub other: usize, }}{}", MY_STRUCT_HASHERS)
    );
}

#[test]
fn test_hash_val() {
    check_expansion();
    let a = MyStruct { val: 10, other: 1 };
    let b = MyStruct { val: 10, other: 999 };

    let mut h_a = DefaultHasher::new();
    let hv_a = MyStructHashByval(&a);

    let mut h_b = DefaultHasher::new();
    let hv_b = MyStructHashByval(&b);

    hv_a.hash(&mut h_a);
    hv_b.hash(&mut h_b);

    let hv_a = h_a.finish();
    let hv_b = h_b.finish();
    assert_eq!(hv_a, hv_b);

    let mut h_c = DefaultHasher::new();
    let c = MyStruct { val: 20, other: 1 };
    let hv_c = MyStructHashByval(&c);
    hv_c.hash(&mut h_c);
    let hv_c = h_c.finish();

    assert_ne!(hv_a, hv_c);
}

#[test]
fn test_hash_map() {
    check_expansion();
    let a = MyStruct { val: 10, other: 1 };
    let b = MyStruct { val: 10, other: 999 };
    let c = MyStruct { val: 20, other: 1 };

    let mut map: HashMap<MyStructHashByval<'_>, &str> = HashMap::new();

    map.insert(MyStructHashByval(&a), "A");
    map.insert(MyStructHashByval(&b), "B");
    map.insert(MyStructHashByval(&c), "C");

    assert_eq!(map.get(&MyStructHashByval(&a)), Some(&"B"));
    assert_eq!(map.get(&MyStructHashByval(&b)), Some(&"B"));

    assert_eq!(map.get(&MyStructHashByval(&c)), Some(&"C"));
    assert_eq!(a.hash_by_val(), b.hash_by_val());
}

#[test]
fn wrappers_of_a_generic_struct() {
    let g = Generics {
        params: vec![
            GenericParam { name: "'a".to_string(), text: "'a".to_string() },
            GenericParam { name: "T".to_string(), text: "T: Eq".to_string() },
        ],
        impl_generics: "<'a, T: Eq>".to_string(),
        ty_generics: "<'a, T>".to_string(),
        where_predicates: vec![],
    };
    let input = DeriveItem { generics: g, ..item(vec![field(vec![marker()], "k")]) };
    let expansion = extract_hashers("", input);
    assert!(expansion.generated.starts_with(
        "\n#[derive(Clone, Copy, Debug)]\npub struct MyStructHashByk<'__hash, 'a, T: Eq, >(pub &'__hash MyStruct<'a, T>);"
    ));
    assert!(expansion.generated.ends_with(
        "\nimpl<'a, T: Eq> MyStruct<'a, T> {\n    #[inline]\n    pub fn hash_by_k(&self) -> MyStructHashByk<'_, 'a, T, > {\n        MyStructHashByk(self)\n    }\n}"
    ));
}

#[test]
fn unnamed_marked_field_is_refused() {
    let tuple = DeriveItem {
        data: Data::Struct(Fields::Unnamed(vec![Field {
            attrs: vec![marker()],
            vis: String::new(),
            ident: None,
            ty: "u8".to_string(),
        }])),
        ..item(vec![])
    };
    let e = check_hashers(&tuple).unwrap_err();
    assert_eq!(e, HasherError::NamedFieldsOnly);
    assert_eq!(e.message(), "named fields only");
}

#[test]
fn a_union_is_re_emitted_without_wrappers() {
    let u = DeriveItem {
        attrs: vec![],
        data: Data::Union(vec![field(vec![marker()], "a")]),
        ..item(vec![])
    };
    let expansion = extract_hashers("", u);
    assert_eq!(expansion.generated, "\nimpl MyStruct {\n}");
    assert_eq!(
        expansion.source(),
        "pub union MyStruct { #[extract_hash] pub a: usize, }\nimpl MyStruct {\n}"
    );
}

#[test]
fn hashers_from_the_item_text() {
    let input = "#[derive(Debug)] pub struct MyStruct { #[extract_hash] pub val: usize, pub other: usize }";
    let out = expand_hashers("", input).unwrap();
    assert!(out.ends_with(MY_STRUCT_HASHERS), "{}", out);
    assert!(!out.contains("extract_hash]"), "{}", out);
    assert_eq!(
        expand_hashers("", "struct S(#[extract_hash] u8);"),
        Err(ExpandError::Refused(HasherError::NamedFieldsOnly))
    );
    assert_eq!(extract_hash("", "pub val: usize"), "pub val: usize");
}

#[test]
fn raw_field_names_make_plain_wrapper_names() {
    let input = "pub struct r#Item { #[extract_hash] pub r#type: u8 }";
    let out = expand_hashers("", input).unwrap();
    assert!(out.contains("pub struct ItemHashBytype<'__hash, >(pub &'__hash r#Item);"), "{}", out);
    assert!(out.contains("self.0.r#type == other.0.r#type"), "{}", out);
    assert!(out.contains("pub fn hash_by_type(&self) -> ItemHashBytype<'_, > {"), "{}", out);
    assert!(!out.contains("hash_by_r#"), "{}", out);
}

#[test]
fn hasher_arguments_change_nothing() {
    let make = || item(vec![field(vec![marker()], "val")]);
    assert_eq!(extract_hashers("some(args)", make()), extract_hashers("", make()));
}
