//! Reading the text of a macro's input into the model, through syn's parser.
//!
//! Each trusted reader below parses the text with syn and reads one part of
//! the result; the verified functions assemble the parts into a `DeriveItem`
//! (or the argument list of `#[extract_number(...)]`).
//!
//! Nothing is stated of what the readers return. syn lexes and prints through
//! proc-macro2, which uses the compiler's lexer and printer when it runs inside
//! a macro and its own fallback elsewhere; the two can read or print the same
//! text differently (spacing of printed tokens, which identifiers and prefixes
//! are accepted). So what is read is taken as it comes: the generators, which
//! take the model as an argument, are where the contracts are exact.

use vstd::prelude::*;
use quote::ToTokens;
use syn::parse::Parser;
use crate::number::NumberArg;
use crate::text::chars_of;
use crate::syntax::{
    fields_of, is_raw, Attribute, Data, DeriveItem, Field, Fields, GenericParam, Generics, Meta, MetaValue, PathArg,
};

verus! {

/// The parts of an item read at its top: visibility, name, the generics that an
/// `impl` of it writes, and how many outer attributes, generic parameters and
/// where predicates it has.
pub struct ItemHead {
    pub vis: String,
    pub ident: String,
    pub impl_generics: String,
    pub ty_generics: String,
    pub attrs: usize,
    pub params: usize,
    pub predicates: usize,
}

/// The kind of body of an item.
#[derive(PartialEq, Eq)]
pub enum Shape {
    Named,
    Unnamed,
    Unit,
    Enum,
    Union,
}

/// The parts of one field: visibility, name, type, and how many attributes it has.
pub struct MemberHead {
    pub vis: String,
    pub ident: Option<String>,
    pub ty: String,
    pub attrs: usize,
}

/// An attribute argument as syn reads it: a path, a list, or `name = value` with
/// the value of a string literal (`None` for any other expression).
pub enum ReadMeta {
    Path(PathArg),
    List(PathArg),
    NameValue(PathArg, Option<String>),
}

/// Parses `text` with `syn::parse_str::<syn::DeriveInput>` and reads the item's
/// visibility, name, the texts of `Generics::split_for_impl`, and the numbers of
/// attributes, parameters and where predicates; `None` where syn refuses the
/// text.
/// Nothing is stated of the result, which depends on the lexer in use.
#[verifier::external_body]
fn parse_head(text: &str) -> (r: Option<ItemHead>) {
    let mut ast = syn::parse_str::<syn::DeriveInput>(text).ok()?;
    let predicates = ast.generics.make_where_clause().predicates.len();
    let (ig, tg, _) = ast.generics.split_for_impl();
    Some(ItemHead {
        vis: ast.vis.to_token_stream().to_string(),
        ident: ast.ident.to_string(),
        impl_generics: ig.to_token_stream().to_string(),
        ty_generics: tg.to_token_stream().to_string(),
        attrs: ast.attrs.len(),
        params: ast.generics.params.len(),
        predicates,
    })
}

/// Parses `text` with `syn::parse_str::<syn::DeriveInput>` and reads the kind of
/// its body and the number of its fields or variants.
/// Nothing is stated of the result, which depends on the lexer in use.
#[verifier::external_body]
fn parse_shape(text: &str) -> (r: Option<(Shape, usize)>) {
    Some(match syn::parse_str::<syn::DeriveInput>(text).ok()?.data {
        syn::Data::Struct(s) => match s.fields {
            syn::Fields::Named(f) => (Shape::Named, f.named.len()),
            syn::Fields::Unnamed(f) => (Shape::Unnamed, f.unnamed.len()),
            syn::Fields::Unit => (Shape::Unit, 0),
        },
        syn::Data::Enum(e) => (Shape::Enum, e.variants.len()),
        syn::Data::Union(u) => (Shape::Union, u.fields.named.len()),
    })
}

/// Parses `text` with `syn::parse_str::<syn::DeriveInput>` and prints its `i`-th
/// outer attribute.
/// Nothing is stated of the result, which depends on the lexer in use.
#[verifier::external_body]
fn parse_item_attr(text: &str, i: usize) -> (r: Option<String>) {
    let ast = syn::parse_str::<syn::DeriveInput>(text).ok()?;
    Some(ast.attrs.get(i)?.to_token_stream().to_string())
}

/// Parses `text` with `syn::parse_str::<syn::DeriveInput>` and reads its `i`-th
/// generic parameter: the identifier (or lifetime) and the printed parameter.
/// Nothing is stated of the result, which depends on the lexer in use.
#[verifier::external_body]
fn parse_param(text: &str, i: usize) -> (r: Option<GenericParam>) {
    let ast = syn::parse_str::<syn::DeriveInput>(text).ok()?;
    let p = ast.generics.params.get(i)?;
    let name = match p {
        syn::GenericParam::Type(t) => t.ident.to_string(),
        syn::GenericParam::Lifetime(l) => l.lifetime.to_string(),
        syn::GenericParam::Const(c) => c.ident.to_string(),
    };
    Some(GenericParam { name, text: p.to_token_stream().to_string() })
}

/// Parses `text` with `syn::parse_str::<syn::DeriveInput>` and prints its `i`-th
/// where predicate.
/// Nothing is stated of the result, which depends on the lexer in use.
#[verifier::external_body]
fn parse_predicate(text: &str, i: usize) -> (r: Option<String>) {
    let ast = syn::parse_str::<syn::DeriveInput>(text).ok()?;
    Some(ast.generics.where_clause?.predicates.get(i)?.to_token_stream().to_string())
}

/// Parses `text` with `syn::parse_str::<syn::DeriveInput>` and prints the `i`-th
/// variant of the enum; `None` for another item.
/// Nothing is stated of the result, which depends on the lexer in use.
#[verifier::external_body]
fn parse_variant(text: &str, i: usize) -> (r: Option<String>) {
    match syn::parse_str::<syn::DeriveInput>(text).ok()?.data {
        syn::Data::Enum(e) => Some(e.variants.get(i)?.to_token_stream().to_string()),
        _ => None,
    }
}

/// Parses `text` with `syn::parse_str::<syn::DeriveInput>` and returns the `i`-th
/// field of a struct or a union; `None` for an enum.
/// Nothing is stated of the result, which depends on the lexer in use.
#[verifier::external_body]
fn parse_member_head(text: &str, i: usize) -> (r: Option<MemberHead>) {
    let ast = syn::parse_str::<syn::DeriveInput>(text).ok()?;
    let f = match &ast.data {
        syn::Data::Struct(s) => s.fields.iter().nth(i)?,
        syn::Data::Union(u) => u.fields.named.get(i)?,
        syn::Data::Enum(_) => return None,
    };
    Some(MemberHead {
        vis: f.vis.to_token_stream().to_string(),
        ident: f.ident.as_ref().map(ToString::to_string),
        ty: f.ty.to_token_stream().to_string(),
        attrs: f.attrs.len(),
    })
}

/// Parses `text` with `syn::parse_str::<syn::DeriveInput>` and prints the `j`-th
/// attribute of its `i`-th field, and that attribute's meta item.
/// Nothing is stated of the result, which depends on the lexer in use.
#[verifier::external_body]
fn parse_member_attr(text: &str, i: usize, j: usize) -> (r: Option<(String, String)>) {
    let ast = syn::parse_str::<syn::DeriveInput>(text).ok()?;
    let f = match &ast.data {
        syn::Data::Struct(s) => s.fields.iter().nth(i)?,
        syn::Data::Union(u) => u.fields.named.get(i)?,
        syn::Data::Enum(_) => return None,
    };
    let a = f.attrs.get(j)?;
    Some((a.to_token_stream().to_string(), a.meta.to_token_stream().to_string()))
}

/// Parses `text` with `syn::parse_str::<syn::Meta>` and reads `Meta::path().get_ident()`
/// and, for `Meta::List`, the text of its tokens.
/// Nothing is stated of the result, which depends on the lexer in use.
#[verifier::external_body]
fn parse_attr_meta(text: &str) -> (r: Option<(Option<String>, Option<String>)>) {
    let m = syn::parse_str::<syn::Meta>(text).ok()?;
    let ident = m.path().get_ident().map(ToString::to_string);
    match m {
        syn::Meta::List(l) => Some((ident, Some(l.tokens.to_string()))),
        _ => Some((ident, None)),
    }
}

/// Parses attribute arguments with `syn::parse_str::<syn::Meta>`: a path, a list or
/// `name = value`, with the identifier of the path and, for a string literal
/// value, the literal's value.
/// Nothing is stated of the result, which depends on the lexer in use.
#[verifier::external_body]
fn parse_meta(text: &str) -> (r: Option<ReadMeta>) {
    let m = syn::parse_str::<syn::Meta>(text).ok()?;
    let path = PathArg { ident: m.path().get_ident().map(ToString::to_string) };
    Some(match m {
        syn::Meta::Path(_) => ReadMeta::Path(path),
        syn::Meta::List(_) => ReadMeta::List(path),
        syn::Meta::NameValue(nv) => ReadMeta::NameValue(path, match nv.value {
            syn::Expr::Lit(syn::ExprLit { lit: syn::Lit::Str(s), .. }) => Some(s.value()),
            _ => None,
        }),
    })
}

/// Parses attribute arguments with `syn::parse_str::<syn::Path>` and reads
/// `Path::get_ident`.
/// Nothing is stated of the result, which depends on the lexer in use.
#[verifier::external_body]
fn parse_path_arg(text: &str) -> (r: Option<PathArg>) {
    let p = syn::parse_str::<syn::Path>(text).ok()?;
    Some(PathArg { ident: p.get_ident().map(ToString::to_string) })
}

/// Parses `text` with `syn::ext::IdentExt::parse_any`, which reads one identifier of
/// any kind, and prints it.
/// Nothing is stated of the result, which depends on the lexer in use.
#[verifier::external_body]
fn parse_ident(text: &str) -> (r: Option<String>) {
    let ident = syn::parse::Parser::parse_str(<syn::Ident as syn::ext::IdentExt>::parse_any, text).ok()?;
    Some(ident.to_string())
}

/// Parses `text` as comma-separated expressions with
/// `Punctuated::<syn::Expr, syn::token::Comma>::parse_terminated` and counts them.
/// Nothing is stated of the result, which depends on the lexer in use.
#[verifier::external_body]
fn parse_arg_count(text: &str) -> (r: Option<usize>) {
    let parser = syn::punctuated::Punctuated::<syn::Expr, syn::token::Comma>::parse_terminated;
    Some(parser.parse_str(text).ok()?.len())
}

/// Parses `text` as comma-separated expressions with
/// `Punctuated::<syn::Expr, syn::token::Comma>::parse_terminated` and reads the
/// `i`-th: a path, with `Path::get_ident`, or another expression.
/// Nothing is stated of the result, which depends on the lexer in use.
#[verifier::external_body]
fn parse_arg(text: &str, i: usize) -> (r: Option<NumberArg>) {
    let parser = syn::punctuated::Punctuated::<syn::Expr, syn::token::Comma>::parse_terminated;
    Some(match parser.parse_str(text).ok()?.get(i)? {
        syn::Expr::Path(p) => NumberArg::Path(PathArg { ident: p.path.get_ident().map(ToString::to_string) }),
        _ => NumberArg::Other,
    })
}

/// Whether the text `name` can name a method: syn reads it as one identifier that
/// prints back as `name` itself, and it is not written as a raw identifier.
/// Which texts syn reads as an identifier is left to it; of the result, only the
/// raw-identifier part is stated.
pub fn is_method_name(name: &String) -> (r: bool)
    ensures
        r ==> !is_raw(name@),
{
    let read = match parse_ident(name.as_str()) {
        Some(x) => x.eq(name),
        None => false,
    };
    let cs = chars_of(name.as_str());
    let raw = cs.len() >= 2 && cs[0] == 'r' && cs[1] == '#';
    read && !raw
}

/// What is read of one attribute: its text, the identifier of its path, its
/// arguments read as a meta item and as a path, and, for a string literal value,
/// whether that value can name a method.
pub struct AttrParts {
    pub text: String,
    pub path_ident: Option<String>,
    pub meta: Option<ReadMeta>,
    pub is_name: bool,
    pub path_arg: Option<PathArg>,
}

/// What is read of one field: its head and its attributes.
pub struct MemberParts {
    pub head: MemberHead,
    pub attrs: Vec<AttrParts>,
}

/// What is read of an item: its head, the kind of its body with the number of
/// fields or variants, its outer attributes, generic parameters, where
/// predicates, and its variants (of an enum) or fields (of a struct or union).
pub struct ItemParts {
    pub head: ItemHead,
    pub shape: Shape,
    pub len: usize,
    pub attrs: Vec<String>,
    pub params: Vec<GenericParam>,
    pub predicates: Vec<String>,
    pub variants: Vec<String>,
    pub members: Vec<MemberParts>,
}

/// The meta item read as `m`, a string literal value marked with `is_name`.
pub open spec fn meta_model(m: ReadMeta, is_name: bool) -> Meta {
    match m {
        ReadMeta::Path(p) => Meta::Path(p),
        ReadMeta::List(p) => Meta::List(p),
        ReadMeta::NameValue(p, None) => Meta::NameValue(p, MetaValue::Other),
        ReadMeta::NameValue(p, Some(value)) => Meta::NameValue(p, MetaValue::Str { value, ident: is_name }),
    }
}

/// The attribute read as `a`.
pub open spec fn attribute_model(a: AttrParts) -> Attribute {
    Attribute {
        text: a.text,
        path_ident: a.path_ident,
        meta: match a.meta {
            Some(m) => Some(meta_model(m, a.is_name)),
            None => None,
        },
        path_arg: a.path_arg,
    }
}

/// `f` is the field read as `m`.
pub open spec fn field_assembled(m: MemberParts, f: Field) -> bool {
    &&& f.vis == m.head.vis
    &&& f.ident == m.head.ident
    &&& f.ty == m.head.ty
    &&& f.attrs@ == m.attrs@.map_values(|a: AttrParts| attribute_model(a))
}

/// `fs` are the fields read as `ms`, in order.
pub open spec fn fields_assembled(ms: Seq<MemberParts>, fs: Seq<Field>) -> bool {
    &&& fs.len() == ms.len()
    &&& forall|i: int| 0 <= i < ms.len() ==> field_assembled(ms[i], #[trigger] fs[i])
}

/// `d` is the item read as `p`: its body is the one of the shape read.
pub open spec fn item_assembled(p: ItemParts, d: DeriveItem) -> bool {
    &&& d.attrs@ == p.attrs@
    &&& d.vis == p.head.vis
    &&& d.ident == p.head.ident
    &&& d.generics.params@ == p.params@
    &&& d.generics.impl_generics == p.head.impl_generics
    &&& d.generics.ty_generics == p.head.ty_generics
    &&& d.generics.where_predicates@ == p.predicates@
    &&& match p.shape {
        Shape::Named => d.data matches Data::Struct(Fields::Named(fs)) && fields_assembled(p.members@, fs@),
        Shape::Unnamed => d.data matches Data::Struct(Fields::Unnamed(fs)) && fields_assembled(
            p.members@,
            fs@,
        ),
        Shape::Unit => d.data matches Data::Struct(Fields::Unit),
        Shape::Enum => d.data matches Data::Enum(vs) && vs@ == p.variants@,
        Shape::Union => d.data matches Data::Union(fs) && fields_assembled(p.members@, fs@),
    }
}

/// A string literal value is marked as able to name a method only when it is
/// not written as a raw identifier.
pub open spec fn name_flag_ok(a: AttrParts) -> bool {
    a.is_name ==> (a.meta matches Some(ReadMeta::NameValue(_, Some(s))) && !is_raw(s@))
}

/// What is read of a field holds as many attributes as its head counts.
pub open spec fn member_consistent(m: MemberParts) -> bool {
    &&& m.attrs@.len() == m.head.attrs
    &&& forall|j: int| 0 <= j < m.attrs@.len() ==> name_flag_ok(#[trigger] m.attrs@[j])
}

/// What holds of every reading of an item: as many attributes, parameters and
/// predicates as its head counts, as many variants (of an enum) or fields (of a
/// struct or union) as its shape counts and none of the other kind, each field
/// read whole, and no raw identifier marked as able to name a method.
pub open spec fn parts_consistent(p: ItemParts) -> bool {
    &&& p.attrs@.len() == p.head.attrs
    &&& p.params@.len() == p.head.params
    &&& p.predicates@.len() == p.head.predicates
    &&& match p.shape {
        Shape::Enum => p.variants@.len() == p.len && p.members@.len() == 0,
        Shape::Unit => p.variants@.len() == 0 && p.members@.len() == 0,
        _ => p.variants@.len() == 0 && p.members@.len() == p.len,
    }
    &&& forall|i: int| 0 <= i < p.members@.len() ==> member_consistent(#[trigger] p.members@[i])
}

/// The meta item read as `read`, a string literal value marked with `is_name`.
pub fn meta_of(read: ReadMeta, is_name: bool) -> (r: Meta)
    ensures
        r == meta_model(read, is_name),
{
    match read {
        ReadMeta::Path(p) => Meta::Path(p),
        ReadMeta::List(p) => Meta::List(p),
        ReadMeta::NameValue(p, None) => Meta::NameValue(p, MetaValue::Other),
        ReadMeta::NameValue(p, Some(value)) => Meta::NameValue(p, MetaValue::Str { value, ident: is_name }),
    }
}

/// The attribute read as `a`.
pub fn attribute_of(a: AttrParts) -> (r: Attribute)
    ensures
        r == attribute_model(a),
{
    let meta = match a.meta {
        Some(m) => Some(meta_of(m, a.is_name)),
        None => None,
    };
    Attribute { text: a.text, path_ident: a.path_ident, meta, path_arg: a.path_arg }
}

/// The field read as `m`.
pub fn field_of(m: MemberParts) -> (r: Field)
    ensures
        field_assembled(m, r),
{
    let ghost all = m.attrs@;
    let mut rest = m.attrs;
    let mut attrs: Vec<Attribute> = Vec::new();
    let ghost mut k: int = 0;
    while rest.len() > 0
        invariant
            0 <= k <= all.len(),
            rest@ == all.skip(k),
            attrs@ == all.take(k).map_values(|a: AttrParts| attribute_model(a)),
        decreases rest.len(),
    {
        let a = rest.remove(0);
        proof {
            assert(all.take(k + 1) =~= all.take(k).push(a));
            assert(all.skip(k + 1) =~= all.skip(k).remove(0));
            k = k + 1;
        }
        attrs.push(attribute_of(a));
        assert(attrs@ =~= all.take(k).map_values(|a: AttrParts| attribute_model(a)));
    }
    assert(all.take(k) =~= all);
    Field { attrs, vis: m.head.vis, ident: m.head.ident, ty: m.head.ty }
}

/// The fields read as `ms`, in order.
pub fn fields_from_parts(ms: Vec<MemberParts>) -> (r: Vec<Field>)
    ensures
        fields_assembled(ms@, r@),
{
    let ghost all = ms@;
    let mut rest = ms;
    let mut fs: Vec<Field> = Vec::new();
    let ghost mut k: int = 0;
    while rest.len() > 0
        invariant
            0 <= k <= all.len(),
            rest@ == all.skip(k),
            fs@.len() == k,
            forall|i: int| 0 <= i < k ==> field_assembled(all[i], #[trigger] fs@[i]),
        decreases rest.len(),
    {
        let m = rest.remove(0);
        proof {
            assert(all.skip(k)[0] == all[k]);
            assert(all.skip(k + 1) =~= all.skip(k).remove(0));
            k = k + 1;
        }
        fs.push(field_of(m));
    }
    fs
}

/// The item read as `p`.
pub fn assemble(p: ItemParts) -> (r: DeriveItem)
    ensures
        item_assembled(p, r),
{
    let data = match p.shape {
        Shape::Named => Data::Struct(Fields::Named(fields_from_parts(p.members))),
        Shape::Unnamed => Data::Struct(Fields::Unnamed(fields_from_parts(p.members))),
        Shape::Unit => Data::Struct(Fields::Unit),
        Shape::Enum => Data::Enum(p.variants),
        Shape::Union => Data::Union(fields_from_parts(p.members)),
    };
    let generics = Generics {
        params: p.params,
        impl_generics: p.head.impl_generics,
        ty_generics: p.head.ty_generics,
        where_predicates: p.predicates,
    };
    DeriveItem { attrs: p.attrs, vis: p.head.vis, ident: p.head.ident, generics, data }
}

/// What is read of the attribute whose text is `t` and whose meta item has the text `m`.
fn read_attr_parts(t: String, m: &String) -> (r: Option<AttrParts>)
    ensures
        r matches Some(a) ==> name_flag_ok(a),
{
    match parse_attr_meta(m.as_str()) {
        None => None,
        Some((path_ident, args)) => {
            let (meta, path_arg) = match &args {
                Some(x) => (parse_meta(x.as_str()), parse_path_arg(x.as_str())),
                None => (None, None),
            };
            let is_name = match &meta {
                Some(ReadMeta::NameValue(_, Some(value))) => is_method_name(value),
                _ => false,
            };
            Some(AttrParts { text: t, path_ident, meta, is_name, path_arg })
        },
    }
}

/// What is read of the `i`-th field of the item whose text is `text`.
fn read_member(text: &str, i: usize) -> (r: Option<MemberParts>)
    ensures
        r matches Some(m) ==> member_consistent(m),
{
    let head = match parse_member_head(text, i) {
        Some(h) => h,
        None => {
            return None;
        },
    };
    let mut attrs: Vec<AttrParts> = Vec::new();
    for j in 0..head.attrs
        invariant
            attrs@.len() == j,
            forall|k: int| 0 <= k < j ==> name_flag_ok(#[trigger] attrs@[k]),
    {
        let (t, m) = match parse_member_attr(text, i, j) {
            Some(p) => p,
            None => {
                return None;
            },
        };
        match read_attr_parts(t, &m) {
            Some(a) => attrs.push(a),
            None => {
                return None;
            },
        }
    }
    Some(MemberParts { head, attrs })
}

/// What is read of the `n` fields of the item whose text is `text`.
fn read_members(text: &str, n: usize) -> (r: Option<Vec<MemberParts>>)
    ensures
        r matches Some(ms) ==> ms@.len() == n && forall|i: int|
            0 <= i < n ==> member_consistent(#[trigger] ms@[i]),
{
    let mut ms: Vec<MemberParts> = Vec::new();
    for i in 0..n
        invariant
            ms@.len() == i,
            forall|k: int| 0 <= k < i ==> member_consistent(#[trigger] ms@[k]),
    {
        match read_member(text, i) {
            Some(m) => ms.push(m),
            None => {
                return None;
            },
        }
    }
    Some(ms)
}

/// The `n` outer attributes of the item whose text is `text`.
fn read_item_attrs(text: &str, n: usize) -> (r: Option<Vec<String>>)
    ensures
        r matches Some(v) ==> v@.len() == n,
{
    let mut v: Vec<String> = Vec::new();
    for i in 0..n
        invariant
            v@.len() == i,
    {
        match parse_item_attr(text, i) {
            Some(a) => v.push(a),
            None => {
                return None;
            },
        }
    }
    Some(v)
}

/// The `n` generic parameters of the item whose text is `text`.
fn read_params(text: &str, n: usize) -> (r: Option<Vec<GenericParam>>)
    ensures
        r matches Some(v) ==> v@.len() == n,
{
    let mut v: Vec<GenericParam> = Vec::new();
    for i in 0..n
        invariant
            v@.len() == i,
    {
        match parse_param(text, i) {
            Some(a) => v.push(a),
            None => {
                return None;
            },
        }
    }
    Some(v)
}

/// The `n` where predicates of the item whose text is `text`.
fn read_predicates(text: &str, n: usize) -> (r: Option<Vec<String>>)
    ensures
        r matches Some(v) ==> v@.len() == n,
{
    let mut v: Vec<String> = Vec::new();
    for i in 0..n
        invariant
            v@.len() == i,
    {
        match parse_predicate(text, i) {
            Some(a) => v.push(a),
            None => {
                return None;
            },
        }
    }
    Some(v)
}

/// The `n` variants of the enum whose text is `text`.
fn read_variants(text: &str, n: usize) -> (r: Option<Vec<String>>)
    ensures
        r matches Some(v) ==> v@.len() == n,
{
    let mut v: Vec<String> = Vec::new();
    for i in 0..n
        invariant
            v@.len() == i,
    {
        match parse_variant(text, i) {
            Some(a) => v.push(a),
            None => {
                return None;
            },
        }
    }
    Some(v)
}

/// Reads every part of the item whose text is `text` through syn: `None` where
/// some part of it does not read. What syn reads is not stated (see the module's
/// comment); what holds of every reading is.
pub fn read_item_parts(text: &str) -> (r: Option<ItemParts>)
    ensures
        r matches Some(p) ==> parts_consistent(p),
{
    let head = match parse_head(text) {
        Some(h) => h,
        None => {
            return None;
        },
    };
    let (shape, len) = match parse_shape(text) {
        Some(p) => p,
        None => {
            return None;
        },
    };
    let attrs = match read_item_attrs(text, head.attrs) {
        Some(v) => v,
        None => {
            return None;
        },
    };
    let params = match read_params(text, head.params) {
        Some(v) => v,
        None => {
            return None;
        },
    };
    let predicates = match read_predicates(text, head.predicates) {
        Some(v) => v,
        None => {
            return None;
        },
    };
    let (variants, members) = match shape {
        Shape::Enum => match read_variants(text, len) {
            Some(vs) => (vs, Vec::new()),
            None => {
                return None;
            },
        },
        Shape::Unit => (Vec::new(), Vec::new()),
        _ => match read_members(text, len) {
            Some(ms) => (Vec::new(), ms),
            None => {
                return None;
            },
        },
    };
    Some(ItemParts { head, shape, len, attrs, params, predicates, variants, members })
}

/// A string literal value in the attribute `a` is marked as able to name a
/// method only when it is not written as a raw identifier.
pub open spec fn attr_name_ok(a: Attribute) -> bool {
    a.meta matches Some(Meta::NameValue(_, MetaValue::Str { value, ident })) ==> (ident ==> !is_raw(
        value@,
    ))
}

/// No field of `d` holds a raw identifier marked as able to name a method.
pub open spec fn names_not_raw(d: DeriveItem) -> bool {
    forall|i: int, j: int|
        0 <= i < fields_of(d).len() && 0 <= j < fields_of(d)[i].attrs@.len() ==> attr_name_ok(
            #[trigger] fields_of(d)[i].attrs@[j],
        )
}

/// An item assembled from a consistent reading marks no raw identifier as able
/// to name a method.
pub proof fn lemma_read_names_not_raw(p: ItemParts, d: DeriveItem)
    requires
        item_assembled(p, d),
        parts_consistent(p),
    ensures
        names_not_raw(d),
{
    assert forall|i: int, j: int|
        0 <= i < fields_of(d).len() && 0 <= j < fields_of(d)[i].attrs@.len() implies attr_name_ok(
        #[trigger] fields_of(d)[i].attrs@[j],
    ) by {
        let m = p.members@[i];
        assert(field_assembled(m, fields_of(d)[i]));
        assert(member_consistent(m));
        assert(name_flag_ok(m.attrs@[j]));
        assert(fields_of(d)[i].attrs@[j] == attribute_model(m.attrs@[j]));
    }
}

/// Reads the text of an item (a struct, an enum or a union) into the model, as
/// syn's parser reads it: `None` where some part of it does not read; else the
/// item assembled from a consistent reading of its parts, which marks no raw
/// identifier as able to name a method.
pub fn parse_item(text: &str) -> (r: Option<DeriveItem>)
    ensures
        r matches Some(d) ==> exists|p: ItemParts| #[trigger] item_assembled(p, d) && parts_consistent(p),
        r matches Some(d) ==> names_not_raw(d),
{
    match read_item_parts(text) {
        None => None,
        Some(p) => {
            let ghost p0 = p;
            let d = assemble(p);
            assert(item_assembled(p0, d));
            proof {
                lemma_read_names_not_raw(p0, d);
            }
            Some(d)
        },
    }
}

/// Reads the comma-separated arguments of `#[extract_number(...)]` from their text,
/// as syn's parser reads them: `None` where they do not read. What is read is
/// syn's, and nothing more is stated of it (see the module's comment).
pub fn parse_number_args(text: &str) -> (r: Option<Vec<NumberArg>>) {
    let n = match parse_arg_count(text) {
        Some(n) => n,
        None => {
            return None;
        },
    };
    let mut v: Vec<NumberArg> = Vec::new();
    for i in 0..n
        invariant
            v@.len() == i,
    {
        match parse_arg(text, i) {
            Some(a) => v.push(a),
            None => {
                return None;
            },
        }
    }
    Some(v)
}

} // verus!
