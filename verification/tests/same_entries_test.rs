use struct_extractors::entries::{check_entries, EntriesError};
use struct_extractors::{base_entries, same_entries};
use struct_extractors::tokens::{Delimiter, TokenTree};

fn ident(s: &str) -> TokenTree {
    TokenTree::Ident(s.to_string())
}

// `pub enum <name> { <variants>, }`
fn enum_tokens(name: &str, variants: &[&str]) -> Vec<TokenTree> {
    let mut body = Vec::new();
    for v in variants {
        body.push(ident(v));
        body.push(TokenTree::Punct(','));
    }
    vec![ident("pub"), ident("enum"), ident(name), TokenTree::Group(Delimiter::Brace, body)]
}

#[test]
fn base_entries_declares_one_struct_per_variant() {
    let item = enum_tokens("E1", &["V11", "V22"]);
    let text = "pub enum E1 { V11, V22, }".to_string();
    let out = base_entries(&vec![ident("E1")], &item, &text);
    assert_eq!(
        out,
        "pub enum E1 { V11, V22, }\npub mod __BASE_ENTRIES_E1 {\n    pub struct V11;\n    pub struct V22;\n}"
    );
}

#[test]
fn same_entries_checks_each_variant_in_each_base() {
    let item = enum_tokens("E2", &["V11", "V22"]);
    let text = "pub enum E2 { V11, V22, }".to_string();
    let out = same_entries(&"E1, E0".to_string(), &item, &text);
    assert_eq!(
        out,
        "pub enum E2 { V11, V22, }\nmod __same_entries_check_E2 {\
\n    use super::__BASE_ENTRIES_E1;\
\n    fn _check_V11_from_E1() { let _ : __BASE_ENTRIES_E1::V11; }\
\n    fn _check_V22_from_E1() { let _ : __BASE_ENTRIES_E1::V22; }\
\n    use super::__BASE_ENTRIES_E0;\
\n    fn _check_V11_from_E0() { let _ : __BASE_ENTRIES_E0::V11; }\
\n    fn _check_V22_from_E0() { let _ : __BASE_ENTRIES_E0::V22; }\
\n}"
    );
}

#[test]
fn variants_with_payloads_and_attributes() {
    // #[doc = "x"] enum E3 { A(u8), #[allow(unused)] B { x: u8 }, C = 3 }
    let body = vec![
        ident("A"),
        TokenTree::Group(Delimiter::Parenthesis, vec![ident("u8")]),
        TokenTree::Punct(','),
        TokenTree::Punct('#'),
        TokenTree::Group(Delimiter::Bracket, vec![ident("allow"), TokenTree::Group(Delimiter::Parenthesis, vec![ident("unused")])]),
        ident("B"),
        TokenTree::Group(Delimiter::Brace, vec![ident("x"), TokenTree::Punct(':'), ident("u8")]),
        TokenTree::Punct(','),
        ident("C"),
        TokenTree::Punct('='),
        TokenTree::Literal("3".to_string()),
    ];
    let item = vec![
        TokenTree::Punct('#'),
        TokenTree::Group(Delimiter::Bracket, vec![ident("doc"), TokenTree::Punct('='), TokenTree::Literal("\"x\"".to_string())]),
        ident("enum"),
        ident("E3"),
        TokenTree::Group(Delimiter::Brace, body),
    ];
    let out = base_entries(&vec![], &item, &"E".to_string());
    assert_eq!(
        out,
        "E\npub mod __BASE_ENTRIES_E3 {\n    pub struct A;\n    pub struct B;\n    pub struct C;\n}"
    );
}

#[test]
fn an_item_without_enum_name_is_refused() {
    let item = vec![ident("struct"), ident("S"), TokenTree::Punct(';')];
    let e = check_entries(&item).unwrap_err();
    assert_eq!(e, EntriesError::EnumNameNotFound);
    assert_eq!(e.message(), "Could not find enum name");

    let no_name = vec![ident("enum"), TokenTree::Punct('<')];
    assert_eq!(check_entries(&no_name), Err(EntriesError::EnumNameNotFound));
    assert_eq!(check_entries(&enum_tokens("E", &[])), Ok(()));
}

#[test]
fn an_empty_attribute_lists_one_empty_base() {
    let item = enum_tokens("E4", &["A"]);
    let out = same_entries(&String::new(), &item, &String::new());
    assert_eq!(
        out,
        "\nmod __same_entries_check_E4 {\n    use super::__BASE_ENTRIES_;\n    fn _check_A_from_() { let _ : __BASE_ENTRIES_::A; }\n}"
    );
}
