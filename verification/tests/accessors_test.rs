use struct_extractors::accessors::{check_accessors, AccessorError, AccessorKind};
use struct_extractors::expand::{expand_accessors, ExpandError};
use struct_extractors::extract_accessors;
use struct_extractors::syntax::{Attribute, Data, DeriveItem, Field, Fields, Generics, Meta, MetaValue, PathArg};

fn path(ident: &str) -> PathArg {
    PathArg { ident: Some(ident.to_string()) }
}

fn access(text: &str, meta: Option<Meta>) -> Attribute {
    Attribute {
        text: text.to_string(),
        path_ident: Some("access".to_string()),
        meta,
        path_arg: None,
    }
}

fn field(attrs: Vec<Attribute>, ident: &str, ty: &str) -> Field {
    Field { attrs, vis: String::new(), ident: Some(ident.to_string()), ty: ty.to_string() }
}

fn no_generics() -> Generics {
    Generics {
        params: vec![],
        impl_generics: String::new(),
        ty_generics: String::new(),
        where_predicates: vec![],
    }
}

fn item(fields: Vec<Field>) -> DeriveItem {
    DeriveItem {
        attrs: vec!["#[derive(Clone, Copy, Default)]".to_string()],
        vis: "pub".to_string(),
        ident: "MyStruct".to_string(),
        generics: no_generics(),
        data: Data::Struct(Fields::Named(fields)),
    }
}

// The struct of the test below as the expansion re-emits it, and the accessors
// that it generates for it.
#[derive(Clone, Copy, Default)]
pub struct MyStruct {
    field1: usize,
    field2: usize,
}

impl MyStruct {
    pub fn get_field1(&self) -> usize where usize: Copy, { self.field1 }
    pub fn get_ref_field2(&self) -> &usize { &self.field2 }
}

const MY_STRUCT_ACCESSORS: &str = "\nimpl MyStruct {\n    pub fn get_field1(&self) -> usize where usize: Copy, { self.field1 }\n    pub fn get_ref_field2(&self) -> &usize { &self.field2 }\n}";

impl MyStruct {
    fn new() -> Self {
        Self { field1: 1, field2: 2 }
    }
}

fn my_struct_input() -> DeriveItem {
    item(vec![
        field(vec![access("#[access(get)]", Some(Meta::Path(path("get"))))], "field1", "usize"),
        field(vec![access("#[access(get_ref)]", Some(Meta::Path(path("get_ref"))))], "field2", "usize"),
    ])
}

#[test]
fn test_basic_arithmetic() {
    let expansion = extract_accessors("", my_struct_input());
    assert_eq!(expansion.generated, MY_STRUCT_ACCESSORS);
    assert_eq!(
        expansion.source(),
        format!(
            "#[derive(Clone, Copy, Default)] pub struct MyStruct {{  field1: usize,  field2: usize, }}{}",
            MY_STRUCT_ACCESSORS
        )
    );

    let a = MyStruct::new();
    assert!(a.get_field1() == 1);
    let a = MyStruct::new();
    assert!(*a.get_ref_field2() == 2);
}

#[test]
fn markers_are_removed_and_other_attributes_kept() {
    let doc = Attribute {
        text: "#[doc = \"x\"]".to_string(),
        path_ident: Some("doc".to_string()),
        meta: Some(Meta::NameValue(path("doc"), MetaValue::Str { value: "x".to_string(), ident: true })),
        path_arg: None,
    };
    let input = item(vec![field(
        vec![
            access("#[access(get_mut)]", Some(Meta::Path(path("get_mut")))),
            doc,
        ],
        "count",
        "u32",
    )]);
    let expansion = extract_accessors("", input);
    match &expansion.item.data {
        Data::Struct(Fields::Named(fs)) => {
            assert_eq!(fs.len(), 1);
            assert_eq!(fs[0].attrs.len(), 1);
            assert_eq!(fs[0].attrs[0].text, "#[doc = \"x\"]");
        }
        _ => panic!("the item stays a struct"),
    }
    assert_eq!(
        expansion.generated,
        "\nimpl MyStruct {\n    pub fn get_mut_count(&mut self) -> &mut u32 { &mut self.count }\n}"
    );
}

#[test]
fn custom_getter_name() {
    let input = item(vec![field(
        vec![access(
            "#[access(get = \"retries\")]",
            Some(Meta::NameValue(path("get"), MetaValue::Str { value: "retries".to_string(), ident: true })),
        )],
        "n",
        "usize",
    )]);
    let expansion = extract_accessors("", input);
    assert_eq!(
        expansion.generated,
        "\nimpl MyStruct {\n    pub fn retries(&self) -> usize where usize: Copy, { self.n }\n}"
    );
}

#[test]
fn the_last_marker_of_a_field_wins() {
    let input = item(vec![field(
        vec![
            access("#[access(get)]", Some(Meta::Path(path("get")))),
            access("#[access(get_ref)]", Some(Meta::Path(path("get_ref")))),
        ],
        "x",
        "u8",
    )]);
    let expansion = extract_accessors("", input);
    assert_eq!(expansion.generated, "\nimpl MyStruct {\n    pub fn get_ref_x(&self) -> &u8 { &self.x }\n}");
}

#[test]
fn refused_markers() {
    let unknown = item(vec![field(vec![access("#[access(set)]", Some(Meta::Path(path("set"))))], "x", "u8")]);
    let e = check_accessors(&unknown).unwrap_err();
    assert_eq!(e, AccessorError::UnknownAccessor("set".to_string()));
    assert_eq!(e.message(), "unknown accessor: set");

    let bad = item(vec![field(vec![access("#[access(1 +)]", None)], "x", "u8")]);
    assert_eq!(check_accessors(&bad).unwrap_err(), AccessorError::InvalidSyntax);

    let list = item(vec![field(vec![access("#[access(get(x))]", Some(Meta::List(path("get"))))], "x", "u8")]);
    assert_eq!(check_accessors(&list).unwrap_err().message(), "invalid #[access(...)] syntax");

    let multi = item(vec![field(
        vec![access("#[access(a::get)]", Some(Meta::Path(PathArg { ident: None })))],
        "x",
        "u8",
    )]);
    assert_eq!(check_accessors(&multi).unwrap_err(), AccessorError::ExpectedIdentifier);

    let form = item(vec![field(
        vec![access("#[access(set = \"y\")]", Some(Meta::NameValue(path("set"), MetaValue::Str { value: "y".to_string(), ident: true })))],
        "x",
        "u8",
    )]);
    assert_eq!(check_accessors(&form).unwrap_err(), AccessorError::UnknownForm);

    let not_str = item(vec![field(
        vec![access("#[access(get = 3)]", Some(Meta::NameValue(path("get"), MetaValue::Other)))],
        "x",
        "u8",
    )]);
    let e = check_accessors(&not_str).unwrap_err();
    assert_eq!(e, AccessorError::ExpectedStringLiteral);
    assert_eq!(e.message(), "expected string literal in #[access(get = \"...\")]");

    let tuple = DeriveItem {
        data: Data::Struct(Fields::Unnamed(vec![Field {
            attrs: vec![access("#[access(get)]", Some(Meta::Path(path("get"))))],
            vis: String::new(),
            ident: None,
            ty: "u8".to_string(),
        }])),
        ..item(vec![])
    };
    assert_eq!(check_accessors(&tuple).unwrap_err(), AccessorError::NamedFieldsOnly);
}

#[test]
fn the_first_refused_field_decides_the_error() {
    let input = item(vec![
        field(vec![access("#[access(bad)]", Some(Meta::Path(path("bad"))))], "a", "u8"),
        field(vec![access("#[access(1 +)]", None)], "b", "u8"),
    ]);
    assert_eq!(
        check_accessors(&input).unwrap_err(),
        AccessorError::UnknownAccessor("bad".to_string())
    );
}

#[test]
fn generic_struct_and_enum_inputs() {
    let g = Generics {
        params: vec![struct_extractors::syntax::GenericParam { name: "T".to_string(), text: "T: Copy".to_string() }],
        impl_generics: "<T: Copy>".to_string(),
        ty_generics: "<T>".to_string(),
        where_predicates: vec!["T: Default".to_string()],
    };
    let input = DeriveItem {
        generics: g,
        ..item(vec![field(vec![access("#[access(get)]", Some(Meta::Path(path("get"))))], "v", "T")])
    };
    let expansion = extract_accessors("", input);
    assert_eq!(
        expansion.generated,
        "\nimpl<T: Copy> MyStruct<T> where T: Default,  {\n    pub fn get_v(&self) -> T where T: Copy, { self.v }\n}"
    );
    assert_eq!(
        expansion.source(),
        format!(
            "#[derive(Clone, Copy, Default)] pub struct MyStruct<T: Copy, > where T: Default,  {{  v: T, }}{}",
            expansion.generated
        )
    );

    let e = DeriveItem { data: Data::Enum(vec!["A".to_string(), "B".to_string()]), ..item(vec![]) };
    let expansion = extract_accessors("", e);
    assert_eq!(expansion.generated, "\nimpl MyStruct {\n}");
    assert_eq!(expansion.source(), "#[derive(Clone, Copy, Default)] pub enum MyStruct { A, B, }\nimpl MyStruct {\n}");
}

#[test]
fn accessors_from_the_item_text() {
    let input = "#[derive(Clone, Copy, Default)] pub struct MyStruct { #[access(get)] field1: usize, #[access(get_ref)] field2: usize }";
    let out = expand_accessors("", input).unwrap();
    assert!(out.ends_with(MY_STRUCT_ACCESSORS), "{}", out);
    assert!(!out.contains("access"), "{}", out);

    let unknown = "struct S { #[access(set)] x: u8 }";
    assert_eq!(
        expand_accessors("", unknown),
        Err(ExpandError::Refused(AccessorError::UnknownAccessor("set".to_string())))
    );
    assert_eq!(expand_accessors("", "struct S { x: }"), Err(ExpandError::Parse));
    assert_eq!(struct_extractors::access("get", "struct S;"), "struct S;");
}

#[test]
fn custom_getter_names_must_be_identifiers() {
    let getter = |n: &str| format!("struct MyStruct {{ #[access(get = \"{}\")] x: u8 }}", n);
    let refused = |n: &str| Err(ExpandError::Refused(AccessorError::InvalidName(n.to_string())));
    assert_eq!(expand_accessors("", &getter(" foo")), refused(" foo"));
    assert_eq!(expand_accessors("", &getter("r#type")), refused("r#type"));
    assert_eq!(expand_accessors("", &getter("1x")), refused("1x"));
    assert_eq!(expand_accessors("", &getter("")), refused(""));
    assert!(expand_accessors("", &getter("type")).is_ok());
    assert!(expand_accessors("", &getter("_")).is_ok());
    let out = expand_accessors("", &getter("value_of_x")).unwrap();
    assert!(
        out.ends_with("\nimpl MyStruct {\n    pub fn value_of_x(&self) -> u8 where u8: Copy, { self.x }\n}"),
        "{}",
        out
    );
    assert_eq!(
        AccessorError::InvalidName(" foo".to_string()).message(),
        "` foo` is not a valid identifier"
    );

    let marked = |ident: bool| {
        item(vec![field(
            vec![access(
                "#[access(get = ..)]",
                Some(Meta::NameValue(path("get"), MetaValue::Str { value: "n".to_string(), ident })),
            )],
            "x",
            "u8",
        )])
    };
    assert_eq!(check_accessors(&marked(false)), Err(AccessorError::InvalidName("n".to_string())));
    assert_eq!(check_accessors(&marked(true)), Ok(()));
}

#[test]
fn raw_field_names_take_only_custom_getters() {
    let e = || AccessorError::RawFieldName(AccessorKind::GetRef, "r#type".to_string());
    assert_eq!(
        expand_accessors("", "struct S { #[access(get_ref)] r#type: u8 }"),
        Err(ExpandError::Refused(e()))
    );
    assert_eq!(e().message(), "`get_ref_r#type` is not a valid identifier");
    let out = expand_accessors("", "struct S { #[access(get = \"kind\")] r#type: u8 }").unwrap();
    assert!(out.ends_with("\nimpl S {\n    pub fn kind(&self) -> u8 where u8: Copy, { self.r#type }\n}"), "{}", out);
}

#[test]
fn accessor_arguments_change_nothing() {
    let make = || {
        item(vec![field(vec![access("#[access(get)]", Some(Meta::Path(path("get"))))], "x", "u8")])
    };
    assert_eq!(extract_accessors("anything, at all", make()), extract_accessors("", make()));
    let input = "struct S { #[access(get)] x: u8 }";
    assert_eq!(expand_accessors("whatever", input), expand_accessors("", input));
}
