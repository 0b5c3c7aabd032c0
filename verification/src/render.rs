//! The source text of an item of the model.

use vstd::prelude::*;
use crate::syntax::{Attribute, Data, DeriveItem, Field, Fields, GenericParam};
use crate::text::{append_terminated, lemma_terminated_concat, lemma_terminated_one, terminated};

verus! {

/// The texts of `attrs`, each followed by a space.
pub open spec fn attrs_text(attrs: Seq<Attribute>) -> Seq<char>
    decreases attrs.len(),
{
    if attrs.len() == 0 {
        Seq::empty()
    } else {
        attrs_text(attrs.drop_last()) + attrs.last().text@ + " "@
    }
}

/// The declaration of one field.
pub open spec fn field_text(f: Field) -> Seq<char> {
    attrs_text(f.attrs@) + f.vis@ + " "@ + match f.ident {
        Some(id) => id@ + ": "@,
        None => Seq::empty(),
    } + f.ty@
}

/// The declarations of `fs`, each followed by a comma.
pub open spec fn fields_text(fs: Seq<Field>) -> Seq<char>
    decreases fs.len(),
{
    if fs.len() == 0 {
        Seq::empty()
    } else {
        fields_text(fs.drop_last()) + field_text(fs.last()) + ", "@
    }
}

/// The declaration texts of `ps`, each followed by a comma.
pub open spec fn params_text(ps: Seq<GenericParam>) -> Seq<char>
    decreases ps.len(),
{
    if ps.len() == 0 {
        Seq::empty()
    } else {
        params_text(ps.drop_last()) + ps.last().text@ + ", "@
    }
}

/// The generic parameter list of a declaration: empty, or `<` the parameters `>`.
pub open spec fn decl_generics_text(ps: Seq<GenericParam>) -> Seq<char> {
    if ps.len() == 0 {
        Seq::empty()
    } else {
        "<"@ + params_text(ps) + ">"@
    }
}

/// A where clause: empty, or ` where` and the predicates.
pub open spec fn where_text(preds: Seq<String>) -> Seq<char> {
    if preds.len() == 0 {
        Seq::empty()
    } else {
        " where "@ + terminated(preds, ", "@)
    }
}

/// The keyword that declares an item with body `data`.
pub open spec fn keyword_text(data: Data) -> Seq<char> {
    match data {
        Data::Struct(_) => " struct "@,
        Data::Enum(_) => " enum "@,
        Data::Union(_) => " union "@,
    }
}

/// The body of an item, the where clause `w` in its place.
pub open spec fn body_text(data: Data, w: Seq<char>) -> Seq<char> {
    match data {
        Data::Struct(Fields::Named(fs)) => w + " { "@ + fields_text(fs@) + "}"@,
        Data::Struct(Fields::Unnamed(fs)) => "("@ + fields_text(fs@) + ")"@ + w + ";"@,
        Data::Struct(Fields::Unit) => w + ";"@,
        Data::Enum(vs) => w + " { "@ + terminated(vs@, ", "@) + "}"@,
        Data::Union(fs) => w + " { "@ + fields_text(fs@) + "}"@,
    }
}

/// The source text of the item `d`.
pub open spec fn item_text(d: DeriveItem) -> Seq<char> {
    terminated(d.attrs@, " "@) + d.vis@ + keyword_text(d.data) + d.ident@ + decl_generics_text(
        d.generics.params@,
    ) + body_text(d.data, where_text(d.generics.where_predicates@))
}

/// The text of one field attribute is the attribute followed by a space.
pub proof fn lemma_attrs_text_one(x: Attribute)
    ensures
        attrs_text(seq![x]) == x.text@ + " "@,
{
    assert(seq![x].drop_last() =~= Seq::<Attribute>::empty());
    assert(attrs_text(seq![x].drop_last()) == Seq::<char>::empty());
    assert(seq![x].last() == x);
    assert(Seq::<char>::empty() + x.text@ + " "@ =~= x.text@ + " "@);
}

/// Every field attribute is kept, in order: the text of attributes `a` then `b` is
/// that of `a` followed by that of `b`.
pub proof fn lemma_attrs_text_concat(a: Seq<Attribute>, b: Seq<Attribute>)
    ensures
        attrs_text(a + b) == attrs_text(a) + attrs_text(b),
    decreases b.len(),
{
    if b.len() == 0 {
        assert(a + b =~= a);
        assert(attrs_text(a) + Seq::<char>::empty() =~= attrs_text(a));
    } else {
        assert((a + b).drop_last() =~= a + b.drop_last());
        assert((a + b).last() == b.last());
        lemma_attrs_text_concat(a, b.drop_last());
        assert(attrs_text(a) + attrs_text(b.drop_last()) + b.last().text@ + " "@ =~= attrs_text(a)
            + (attrs_text(b.drop_last()) + b.last().text@ + " "@));
    }
}

/// The text of one field is its declaration followed by a comma.
pub proof fn lemma_fields_text_one(x: Field)
    ensures
        fields_text(seq![x]) == field_text(x) + ", "@,
{
    assert(seq![x].drop_last() =~= Seq::<Field>::empty());
    assert(fields_text(seq![x].drop_last()) == Seq::<char>::empty());
    assert(seq![x].last() == x);
    assert(Seq::<char>::empty() + field_text(x) + ", "@ =~= field_text(x) + ", "@);
}

/// Every field is kept, in order: the text of fields `a` then `b` is that of `a`
/// followed by that of `b`.
pub proof fn lemma_fields_text_concat(a: Seq<Field>, b: Seq<Field>)
    ensures
        fields_text(a + b) == fields_text(a) + fields_text(b),
    decreases b.len(),
{
    if b.len() == 0 {
        assert(a + b =~= a);
        assert(fields_text(a) + Seq::<char>::empty() =~= fields_text(a));
    } else {
        assert((a + b).drop_last() =~= a + b.drop_last());
        assert((a + b).last() == b.last());
        lemma_fields_text_concat(a, b.drop_last());
        assert(fields_text(a) + fields_text(b.drop_last()) + field_text(b.last()) + ", "@ =~= fields_text(a)
            + (fields_text(b.drop_last()) + field_text(b.last()) + ", "@));
    }
}

/// The text of one generic parameter is its declaration followed by a comma.
pub proof fn lemma_params_text_one(x: GenericParam)
    ensures
        params_text(seq![x]) == x.text@ + ", "@,
{
    assert(seq![x].drop_last() =~= Seq::<GenericParam>::empty());
    assert(params_text(seq![x].drop_last()) == Seq::<char>::empty());
    assert(seq![x].last() == x);
    assert(Seq::<char>::empty() + x.text@ + ", "@ =~= x.text@ + ", "@);
}

/// Every generic parameter is kept, in order: the text of parameters `a` then `b`
/// is that of `a` followed by that of `b`.
pub proof fn lemma_params_text_concat(a: Seq<GenericParam>, b: Seq<GenericParam>)
    ensures
        params_text(a + b) == params_text(a) + params_text(b),
    decreases b.len(),
{
    if b.len() == 0 {
        assert(a + b =~= a);
        assert(params_text(a) + Seq::<char>::empty() =~= params_text(a));
    } else {
        assert((a + b).drop_last() =~= a + b.drop_last());
        assert((a + b).last() == b.last());
        lemma_params_text_concat(a, b.drop_last());
        assert(params_text(a) + params_text(b.drop_last()) + b.last().text@ + ", "@ =~= params_text(a)
            + (params_text(b.drop_last()) + b.last().text@ + ", "@));
    }
}

/// The source text of an item keeps every outer attribute, in order, each
/// followed by a space, and then the item as it would read with none: the `i`-th
/// attribute stands right after the ones before it.
pub proof fn lemma_item_text_keeps_outer_attributes(d: DeriveItem, e: DeriveItem)
    requires
        e.attrs@.len() == 0,
        e.vis == d.vis,
        e.ident == d.ident,
        e.generics == d.generics,
        e.data == d.data,
    ensures
        item_text(d) == terminated(d.attrs@, " "@) + item_text(e),
        forall|i: int|
            0 <= i < d.attrs@.len() ==> {
                let o = terminated(d.attrs@.take(i), " "@).len() as int;
                item_text(d).subrange(o, o + d.attrs@[i]@.len() + 1) == #[trigger] d.attrs@[i]@ + " "@
            },
{
    reveal_strlit(" ");
    let t = terminated(d.attrs@, " "@);
    assert(terminated(e.attrs@, " "@) =~= Seq::<char>::empty());
    assert(item_text(d) =~= t + item_text(e));
    assert forall|i: int|
        0 <= i < d.attrs@.len() implies {
            let o = terminated(d.attrs@.take(i), " "@).len() as int;
            item_text(d).subrange(o, o + d.attrs@[i]@.len() + 1) == #[trigger] d.attrs@[i]@ + " "@
        } by {
        let a = d.attrs@;
        let pre = terminated(a.take(i), " "@);
        assert(a =~= a.take(i) + (seq![a[i]] + a.skip(i + 1)));
        lemma_terminated_concat(a.take(i), seq![a[i]] + a.skip(i + 1), " "@);
        lemma_terminated_concat(seq![a[i]], a.skip(i + 1), " "@);
        lemma_terminated_one(a[i], " "@);
        let mid = a[i]@ + " "@;
        let post = terminated(a.skip(i + 1), " "@);
        assert(item_text(d) =~= pre + mid + (post + item_text(e)));
        assert(item_text(d).subrange(pre.len() as int, (pre.len() + mid.len()) as int) =~= mid);
    }
}

/// Appends the declaration of `f`.
fn append_field(r: &mut String, f: &Field)
    ensures
        final(r)@ == old(r)@ + field_text(*f),
{
    let ghost head = r@;
    assert(f.attrs@.take(0) =~= Seq::<Attribute>::empty());
    for k in 0..f.attrs.len()
        invariant
            r@ == head + attrs_text(f.attrs@.take(k as int)),
    {
        assert(f.attrs@.take(k + 1).drop_last() =~= f.attrs@.take(k as int));
        r.append(f.attrs[k].text.as_str());
        r.append(" ");
    }
    assert(f.attrs@.take(f.attrs@.len() as int) =~= f.attrs@);
    r.append(f.vis.as_str());
    r.append(" ");
    match &f.ident {
        Some(id) => {
            r.append(id.as_str());
            r.append(": ");
        },
        None => {},
    }
    r.append(f.ty.as_str());
}

/// Appends the declarations of `fs`, each followed by a comma.
fn append_fields(r: &mut String, fs: &Vec<Field>)
    ensures
        final(r)@ == old(r)@ + fields_text(fs@),
{
    let ghost head = r@;
    assert(fs@.take(0) =~= Seq::<Field>::empty());
    for k in 0..fs.len()
        invariant
            r@ == head + fields_text(fs@.take(k as int)),
    {
        assert(fs@.take(k + 1).drop_last() =~= fs@.take(k as int));
        append_field(r, &fs[k]);
        r.append(", ");
    }
    assert(fs@.take(fs@.len() as int) =~= fs@);
}

/// Appends the where clause of the predicates `preds`.
pub fn append_where(r: &mut String, preds: &Vec<String>)
    ensures
        final(r)@ == old(r)@ + where_text(preds@),
{
    if preds.len() > 0 {
        r.append(" where ");
        append_terminated(r, preds, ", ");
    }
}

/// Appends the generic parameter list of a declaration with parameters `ps`.
fn append_decl_generics(r: &mut String, ps: &Vec<GenericParam>)
    ensures
        final(r)@ == old(r)@ + decl_generics_text(ps@),
{
    if ps.len() > 0 {
        r.append("<");
        let ghost head = r@;
        assert(ps@.take(0) =~= Seq::<GenericParam>::empty());
        for k in 0..ps.len()
            invariant
                r@ == head + params_text(ps@.take(k as int)),
        {
            assert(ps@.take(k + 1).drop_last() =~= ps@.take(k as int));
            r.append(ps[k].text.as_str());
            r.append(", ");
        }
        assert(ps@.take(ps@.len() as int) =~= ps@);
        r.append(">");
    }
}

/// The source text of the item `d`.
pub fn render_item(d: &DeriveItem) -> (r: String)
    ensures
        r@ == item_text(*d),
{
    let mut r = String::new();
    append_terminated(&mut r, &d.attrs, " ");
    r.append(d.vis.as_str());
    match &d.data {
        Data::Struct(_) => r.append(" struct "),
        Data::Enum(_) => r.append(" enum "),
        Data::Union(_) => r.append(" union "),
    }
    r.append(d.ident.as_str());
    append_decl_generics(&mut r, &d.generics.params);
    let ghost before_body = r@;
    let mut w = String::new();
    append_where(&mut w, &d.generics.where_predicates);
    match &d.data {
        Data::Struct(Fields::Named(fs)) => {
            r.append(w.as_str());
            r.append(" { ");
            append_fields(&mut r, fs);
            r.append("}");
        },
        Data::Struct(Fields::Unnamed(fs)) => {
            r.append("(");
            append_fields(&mut r, fs);
            r.append(")");
            r.append(w.as_str());
            r.append(";");
        },
        Data::Struct(Fields::Unit) => {
            r.append(w.as_str());
            r.append(";");
        },
        Data::Enum(vs) => {
            r.append(w.as_str());
            r.append(" { ");
            append_terminated(&mut r, vs, ", ");
            r.append("}");
        },
        Data::Union(fs) => {
            r.append(w.as_str());
            r.append(" { ");
            append_fields(&mut r, fs);
            r.append("}");
        },
    }
    assert(r@ =~= before_body + body_text(d.data, w@));
    r
}

} // verus!
