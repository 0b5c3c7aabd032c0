//! A model of an item under a derive-like attribute: its outer attributes,
//! visibility, name, generics and fields, each field with its attributes.
//! Type, generic and attribute syntax is held by its source text; what the
//! generators decide on (attribute paths and the parsed arguments of an
//! attribute) is held as plain values.

use vstd::prelude::*;

verus! {

/// A generic parameter: its name (the identifier of a type or const parameter,
/// or a lifetime with its quote) and its full declaration text (bounds and
/// default included).
#[derive(Debug, PartialEq, Eq)]
pub struct GenericParam {
    pub name: String,
    pub text: String,
}

/// The generics of an item. `impl_generics` and `ty_generics` are the texts that
/// an `impl` of the item writes after `impl` and after the item's name.
#[derive(Debug, PartialEq, Eq)]
pub struct Generics {
    pub params: Vec<GenericParam>,
    pub impl_generics: String,
    pub ty_generics: String,
    pub where_predicates: Vec<String>,
}

/// A path given as an attribute argument: its identifier, when the path is a
/// single identifier.
#[derive(Debug, PartialEq, Eq)]
pub struct PathArg {
    pub ident: Option<String>,
}

/// The value in a `name = value` attribute argument.
#[derive(Debug, PartialEq, Eq)]
pub enum MetaValue {
    /// A string literal, held by its value, and whether that value reads as one
    /// identifier that can name a method (printed back as the value itself, and
    /// not written as a raw identifier).
    Str { value: String, ident: bool },
    /// Any other expression.
    Other,
}

/// An attribute argument read as a meta item: `path`, `path(...)` or `path = value`.
#[derive(Debug, PartialEq, Eq)]
pub enum Meta {
    Path(PathArg),
    List(PathArg),
    NameValue(PathArg, MetaValue),
}

/// An attribute `#[path(args)]`: its full text, the identifier of its path when
/// the path is one identifier, and its arguments read as a meta item and as a
/// path (`None` where they do not read as one).
#[derive(Debug, PartialEq, Eq)]
pub struct Attribute {
    pub text: String,
    pub path_ident: Option<String>,
    pub meta: Option<Meta>,
    pub path_arg: Option<PathArg>,
}

/// A field: its attributes, visibility, name (none in a tuple struct) and type.
#[derive(Debug, PartialEq, Eq)]
pub struct Field {
    pub attrs: Vec<Attribute>,
    pub vis: String,
    pub ident: Option<String>,
    pub ty: String,
}

/// The fields of a struct.
#[derive(Debug, PartialEq, Eq)]
pub enum Fields {
    Named(Vec<Field>),
    Unnamed(Vec<Field>),
    Unit,
}

/// The body of the item: a struct's fields, an enum's variants (each by its
/// text), or a union's fields.
#[derive(Debug, PartialEq, Eq)]
pub enum Data {
    Struct(Fields),
    Enum(Vec<String>),
    Union(Vec<Field>),
}

/// An item: its outer attributes' texts, visibility, name, generics and body.
#[derive(Debug, PartialEq, Eq)]
pub struct DeriveItem {
    pub attrs: Vec<String>,
    pub vis: String,
    pub ident: String,
    pub generics: Generics,
    pub data: Data,
}

/// Whether the identifier `id` is written as a raw identifier `r#name`.
pub open spec fn is_raw(id: Seq<char>) -> bool {
    id.len() >= 2 && id[0] == 'r' && id[1] == '#'
}

/// Whether `a` is the helper attribute named `name`: its path is that one identifier.
pub open spec fn is_helper(a: Attribute, name: Seq<char>) -> bool {
    match a.path_ident {
        Some(p) => p@ == name,
        None => false,
    }
}

/// `attrs` without the helper attributes named `name`, the others in order.
pub open spec fn strip_attrs(attrs: Seq<Attribute>, name: Seq<char>) -> Seq<Attribute> {
    attrs.filter(|a: Attribute| !is_helper(a, name))
}

/// Stripping keeps every other attribute, in order: it works on attributes `a`
/// then `b` as on each part, and it removes one attribute exactly when that one
/// is the helper.
pub proof fn lemma_strip_attrs_keeps_others(a: Seq<Attribute>, b: Seq<Attribute>, x: Attribute, name: Seq<char>)
    ensures
        strip_attrs(a + b, name) == strip_attrs(a, name) + strip_attrs(b, name),
        strip_attrs(seq![x], name) == if is_helper(x, name) {
            Seq::<Attribute>::empty()
        } else {
            seq![x]
        },
{
    broadcast use vstd::seq_lib::group_filter_ensures;
    Seq::filter_distributes_over_add(a, b, |a: Attribute| !is_helper(a, name));
    reveal_with_fuel(Seq::filter, 2);
    assert(seq![x].drop_last() =~= Seq::<Attribute>::empty());
    if is_helper(x, name) {
        assert(strip_attrs(seq![x], name) =~= Seq::<Attribute>::empty());
    } else {
        assert(strip_attrs(seq![x], name) =~= seq![x]);
    }
}

/// `g` is `f` without its helper attributes named `name`.
pub open spec fn field_stripped(f: Field, g: Field, name: Seq<char>) -> bool {
    &&& g.attrs@ == strip_attrs(f.attrs@, name)
    &&& g.vis == f.vis
    &&& g.ident == f.ident
    &&& g.ty == f.ty
}

/// `gs` is `fs` with each field stripped of its helper attributes named `name`.
pub open spec fn fields_stripped(fs: Seq<Field>, gs: Seq<Field>, name: Seq<char>) -> bool {
    &&& gs.len() == fs.len()
    &&& forall|i: int| 0 <= i < fs.len() ==> field_stripped(fs[i], #[trigger] gs[i], name)
}

/// `e` is the item `d` with every field stripped of its helper attributes named
/// `name`, and all else unchanged.
pub open spec fn item_stripped(d: DeriveItem, e: DeriveItem, name: Seq<char>) -> bool {
    &&& e.attrs == d.attrs
    &&& e.vis == d.vis
    &&& e.ident == d.ident
    &&& e.generics == d.generics
    &&& match (d.data, e.data) {
        (Data::Struct(Fields::Named(fs)), Data::Struct(Fields::Named(gs))) => fields_stripped(
            fs@,
            gs@,
            name,
        ),
        (Data::Struct(Fields::Unnamed(fs)), Data::Struct(Fields::Unnamed(gs))) => fields_stripped(
            fs@,
            gs@,
            name,
        ),
        (Data::Struct(Fields::Unit), Data::Struct(Fields::Unit)) => true,
        (Data::Enum(b), Data::Enum(c)) => b == c,
        (Data::Union(b), Data::Union(c)) => b == c,
        _ => false,
    }
}

/// The fields of `d`, none when `d` is not a struct.
pub open spec fn fields_of(d: DeriveItem) -> Seq<Field> {
    match d.data {
        Data::Struct(Fields::Named(fs)) => fs@,
        Data::Struct(Fields::Unnamed(fs)) => fs@,
        _ => Seq::empty(),
    }
}

/// No attribute among `attrs` is the helper named `name`.
pub open spec fn unmarked(attrs: Seq<Attribute>, name: Seq<char>) -> bool {
    forall|j: int| 0 <= j < attrs.len() ==> !is_helper(#[trigger] attrs[j], name)
}

/// No field among `fs` carries the helper named `name`.
pub open spec fn fields_unmarked(fs: Seq<Field>, name: Seq<char>) -> bool {
    forall|i: int| 0 <= i < fs.len() ==> unmarked(#[trigger] fs[i].attrs@, name)
}

/// The fields of an item stripped of the helper attributes named `name` carry
/// none of them: every attribute left on a field is another one.
pub proof fn lemma_stripped_fields_have_no_helpers(d: DeriveItem, e: DeriveItem, name: Seq<char>)
    requires
        item_stripped(d, e, name),
    ensures
        fields_unmarked(fields_of(e), name),
{
    assert forall|i: int, j: int|
        0 <= i < fields_of(e).len() && 0 <= j < fields_of(e)[i].attrs@.len() implies !is_helper(
        #[trigger] fields_of(e)[i].attrs@[j],
        name,
    ) by {
        broadcast use vstd::seq_lib::group_filter_ensures;
        let f = fields_of(d)[i];
        assert(field_stripped(f, fields_of(e)[i], name));
    }
}

/// Unmarked attributes: the first is not the helper, and the rest are unmarked.
pub proof fn lemma_unmarked_rest(attrs: Seq<Attribute>, name: Seq<char>)
    requires
        unmarked(attrs, name),
        attrs.len() > 0,
    ensures
        !is_helper(attrs[0], name),
        unmarked(attrs.drop_first(), name),
{
    assert forall|j: int| 0 <= j < attrs.drop_first().len() implies !is_helper(
        #[trigger] attrs.drop_first()[j],
        name,
    ) by {
        assert(attrs.drop_first()[j] == attrs[j + 1]);
    }
}

/// Unmarked fields: all but the last are unmarked, and so is the last.
pub proof fn lemma_fields_unmarked_split(fs: Seq<Field>, name: Seq<char>)
    requires
        fields_unmarked(fs, name),
        fs.len() > 0,
    ensures
        fields_unmarked(fs.drop_last(), name),
        unmarked(fs.last().attrs@, name),
{
    assert forall|i: int| 0 <= i < fs.drop_last().len() implies unmarked(
        #[trigger] fs.drop_last()[i].attrs@,
        name,
    ) by {
        assert(fs.drop_last()[i] == fs[i]);
    }
    assert(unmarked(fs[fs.len() - 1].attrs@, name));
}

/// Removes from `attrs` the helper attributes named `name`.
pub fn strip_helpers(attrs: Vec<Attribute>, name: &str) -> (r: Vec<Attribute>)
    ensures
        r@ == strip_attrs(attrs@, name@),
{
    let mut rest = attrs;
    let mut r: Vec<Attribute> = Vec::new();
    let ghost all = rest@;
    let ghost mut k: int = 0;
    assert(all.take(0) =~= Seq::<Attribute>::empty());
    while rest.len() > 0
        invariant
            0 <= k <= all.len(),
            rest@ == all.skip(k),
            r@ == strip_attrs(all.take(k), name@),
        decreases rest.len(),
    {
        let a = rest.remove(0);
        proof {
            assert(all.take(k + 1).drop_last() =~= all.take(k));
            assert(all.take(k + 1).last() == a);
            assert(rest@ =~= all.skip(k + 1));
            reveal(Seq::filter);
        }
        let helper = match &a.path_ident {
            Some(p) => crate::text::text_is(p, name),
            None => false,
        };
        if !helper {
            r.push(a);
        }
        proof {
            k = k + 1;
        }
    }
    assert(all.take(k) =~= all);
    r
}

/// Removes from each field of `fields` its helper attributes named `name`.
pub fn strip_fields(fields: Vec<Field>, name: &str) -> (r: Vec<Field>)
    ensures
        fields_stripped(fields@, r@, name@),
{
    let mut rest = fields;
    let mut r: Vec<Field> = Vec::new();
    let ghost all = rest@;
    let ghost mut k: int = 0;
    while rest.len() > 0
        invariant
            0 <= k <= all.len(),
            rest@ == all.skip(k),
            fields_stripped(all.take(k), r@, name@),
        decreases rest.len(),
    {
        let f = rest.remove(0);
        proof {
            assert(all[k] == f);
            assert(rest@ =~= all.skip(k + 1));
        }
        let Field { attrs, vis, ident, ty } = f;
        let attrs = strip_helpers(attrs, name);
        r.push(Field { attrs, vis, ident, ty });
        proof {
            k = k + 1;
            assert forall|i: int| 0 <= i < k implies field_stripped(
                all.take(k)[i],
                #[trigger] r@[i],
                name@,
            ) by {
                if i < k - 1 {
                    assert(all.take(k - 1)[i] == all.take(k)[i]);
                }
            }
        }
    }
    assert(all.take(k) =~= all);
    r
}

/// Removes from each field of `d` its helper attributes named `name`.
pub fn strip_item(d: DeriveItem, name: &str) -> (r: DeriveItem)
    ensures
        item_stripped(d, r, name@),
{
    let DeriveItem { attrs, vis, ident, generics, data } = d;
    let data = match data {
        Data::Struct(Fields::Named(fs)) => Data::Struct(Fields::Named(strip_fields(fs, name))),
        Data::Struct(Fields::Unnamed(fs)) => Data::Struct(Fields::Unnamed(strip_fields(fs, name))),
        other => other,
    };
    DeriveItem { attrs, vis, ident, generics, data }
}

} // verus!
