use struct_extractors::parse::{
    assemble, meta_of, parse_item, parse_number_args, AttrParts, ItemHead, ItemParts, MemberHead, MemberParts,
    ReadMeta, Shape,
};
use struct_extractors::number::NumberArg;
use struct_extractors::syntax::{Data, Fields, Meta, MetaValue, PathArg};

fn path(s: &str) -> PathArg {
    PathArg { ident: Some(s.to_string()) }
}

#[test]
fn meta_of_marks_string_values() {
    assert_eq!(meta_of(ReadMeta::Path(path("get")), false), Meta::Path(path("get")));
    assert_eq!(meta_of(ReadMeta::List(path("x")), true), Meta::List(path("x")));
    assert_eq!(
        meta_of(ReadMeta::NameValue(path("get"), None), true),
        Meta::NameValue(path("get"), MetaValue::Other)
    );
    assert_eq!(
        meta_of(ReadMeta::NameValue(path("get"), Some("n".to_string())), true),
        Meta::NameValue(path("get"), MetaValue::Str { value: "n".to_string(), ident: true })
    );
}

#[test]
fn assemble_builds_the_item_read() {
    let attr = AttrParts {
        text: "#[access(get = \"n\")]".to_string(),
        path_ident: Some("access".to_string()),
        meta: Some(ReadMeta::NameValue(path("get"), Some("n".to_string()))),
        is_name: true,
        path_arg: None,
    };
    let member = MemberParts {
        head: MemberHead { vis: "pub".to_string(), ident: Some("x".to_string()), ty: "u8".to_string(), attrs: 1 },
        attrs: vec![attr],
    };
    let parts = ItemParts {
        head: ItemHead {
            vis: "pub".to_string(),
            ident: "S".to_string(),
            impl_generics: String::new(),
            ty_generics: String::new(),
            attrs: 1,
            params: 0,
            predicates: 0,
        },
        shape: Shape::Named,
        len: 1,
        attrs: vec!["#[derive(Debug)]".to_string()],
        params: vec![],
        predicates: vec![],
        variants: vec![],
        members: vec![member],
    };
    let d = assemble(parts);
    assert_eq!(d.ident, "S");
    assert_eq!(d.attrs, vec!["#[derive(Debug)]".to_string()]);
    match d.data {
        Data::Struct(Fields::Named(fs)) => {
            assert_eq!(fs.len(), 1);
            assert_eq!(fs[0].ty, "u8");
            assert_eq!(fs[0].attrs.len(), 1);
            assert_eq!(
                fs[0].attrs[0].meta,
                Some(Meta::NameValue(path("get"), MetaValue::Str { value: "n".to_string(), ident: true }))
            );
        },
        _ => panic!("not a struct with named fields"),
    }
}

#[test]
fn parse_reads_items_and_arguments() {
    let d = parse_item("pub enum E { A, B }").unwrap();
    assert_eq!(d.ident, "E");
    assert!(matches!(d.data, Data::Enum(ref vs) if vs.len() == 2));
    let d = parse_item("struct T(u8, u16);").unwrap();
    assert!(matches!(d.data, Data::Struct(Fields::Unnamed(ref fs)) if fs.len() == 2));
    assert!(parse_item("fn f() {}").is_none());
    let args = parse_number_args("a, b").unwrap();
    assert_eq!(args.len(), 2);
    assert_eq!(args[0], NumberArg::Path(path("a")));
    assert!(parse_number_args("+").is_none());
}
