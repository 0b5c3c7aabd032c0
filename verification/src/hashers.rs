//! Hash and equality wrappers generated for selected fields.
//!
//! `#[extract_hash]` on a field `f` of `S` yields a wrapper `SHashByf(&S)` whose
//! equality and hash are those of the field `f` alone, and a method
//! `hash_by_f(&self)` that wraps `self`. The markers are removed from the item.

use vstd::prelude::*;
use crate::expansion::{append_impl_block, impl_block_text, Expansion};
use crate::render::{append_where, params_text, where_text};
use crate::syntax::{
    fields_of, fields_unmarked, is_helper, item_stripped, lemma_fields_unmarked_split,
    lemma_stripped_fields_have_no_helpers, strip_item, Attribute, Data, DeriveItem, Field, Fields,
    GenericParam, Generics,
};
use crate::text::{chars_of, text_is};

verus! {

/// Why a field's hash marker was refused.
#[derive(Debug, PartialEq, Eq)]
pub enum HasherError {
    /// The marked field has no name.
    NamedFieldsOnly,
}

impl HasherError {
    /// The message with which the expansion fails.
    pub fn message(&self) -> (r: String)
        ensures
            r@ == "named fields only"@,
    {
        String::from_str("named fields only")
    }
}

/// Whether some attribute among `attrs` is the marker `extract_hash`.
pub open spec fn hash_marked(attrs: Seq<Attribute>) -> bool {
    exists|i: int| 0 <= i < attrs.len() && is_helper(#[trigger] attrs[i], "extract_hash"@)
}

/// The names of the parameters `ps`, each followed by a comma.
pub open spec fn param_names_text(ps: Seq<GenericParam>) -> Seq<char>
    decreases ps.len(),
{
    if ps.len() == 0 {
        Seq::empty()
    } else {
        param_names_text(ps.drop_last()) + ps.last().name@ + ", "@
    }
}

/// The identifier `id` without the `r#` that marks a raw identifier, as it reads
/// when it makes part of a longer name.
pub open spec fn unraw(id: Seq<char>) -> Seq<char> {
    if id.len() >= 2 && id[0] == 'r' && id[1] == '#' {
        id.skip(2)
    } else {
        id
    }
}

/// The names of one parameter: its name followed by a comma.
pub proof fn lemma_param_names_text_one(x: GenericParam)
    ensures
        param_names_text(seq![x]) == x.name@ + ", "@,
{
    assert(seq![x].drop_last() =~= Seq::<GenericParam>::empty());
    assert(param_names_text(seq![x].drop_last()) == Seq::<char>::empty());
    assert(seq![x].last() == x);
    assert(Seq::<char>::empty() + x.name@ + ", "@ =~= x.name@ + ", "@);
}

/// Every parameter's name is kept, in order: the names of parameters `a` then `b`
/// are those of `a` followed by those of `b`.
pub proof fn lemma_param_names_text_concat(a: Seq<GenericParam>, b: Seq<GenericParam>)
    ensures
        param_names_text(a + b) == param_names_text(a) + param_names_text(b),
    decreases b.len(),
{
    if b.len() == 0 {
        assert(a + b =~= a);
        assert(param_names_text(a) + Seq::<char>::empty() =~= param_names_text(a));
    } else {
        assert((a + b).drop_last() =~= a + b.drop_last());
        assert((a + b).last() == b.last());
        lemma_param_names_text_concat(a, b.drop_last());
        assert(param_names_text(a) + param_names_text(b.drop_last()) + b.last().name@ + ", "@
            =~= param_names_text(a) + (param_names_text(b.drop_last()) + b.last().name@ + ", "@));
    }
}

/// The name of the wrapper that hashes values of `ident` by the field `f`.
pub open spec fn wrapper_name(ident: Seq<char>, f: Seq<char>) -> Seq<char> {
    unraw(ident) + "HashBy"@ + unraw(f)
}

/// The head of an impl for the wrapper `w` of an item with generics `g`: `impl`,
/// its generics, the trait `tr` and the wrapper's type.
pub open spec fn wrapper_impl_head(w: Seq<char>, g: Generics, tr: Seq<char>) -> Seq<char> {
    "\nimpl<'__hash, "@ + params_text(g.params@) + "> "@ + tr + " for "@ + w + "<'__hash, "@
        + param_names_text(g.params@) + ">"@ + where_text(g.where_predicates@)
}

/// The wrapper that hashes values of `ident` (with generics `g`) by the field `f`,
/// and its equality and hash.
pub open spec fn wrapper_text(ident: Seq<char>, g: Generics, f: Seq<char>) -> Seq<char> {
    let w = wrapper_name(ident, f);
    "\n#[derive(Clone, Copy, Debug)]\npub struct "@ + w + "<'__hash, "@ + params_text(g.params@)
        + ">(pub &'__hash "@ + ident + g.ty_generics@ + ")"@ + where_text(g.where_predicates@)
        + ";"@ + wrapper_impl_head(w, g, "core::cmp::PartialEq"@)
        + " {\n    #[inline]\n    fn eq(&self, other: &Self) -> bool {\n        self.0."@ + f
        + " == other.0."@ + f + "\n    }\n}"@ + wrapper_impl_head(w, g, "core::cmp::Eq"@) + " {}"@
        + wrapper_impl_head(w, g, "core::hash::Hash"@)
        + " {\n    #[inline]\n    fn hash<H: core::hash::Hasher>(&self, state: &mut H) {\n        core::hash::Hash::hash(&self.0."@
        + f + ", state);\n    }\n}"@
}

/// The method of `ident` (with generics `g`) that wraps `self` to hash it by the field `f`.
pub open spec fn hash_method_text(ident: Seq<char>, g: Generics, f: Seq<char>) -> Seq<char> {
    let w = wrapper_name(ident, f);
    "\n    #[inline]\n    pub fn hash_by_"@ + unraw(f) + "(&self) -> "@ + w + "<'_, "@ + param_names_text(
        g.params@,
    ) + "> {\n        "@ + w + "(self)\n    }"@
}

/// The wrappers and methods that the fields `fs` of `ident` ask for, in order, or
/// the error of the first field refused.
pub open spec fn hashers_text(ident: Seq<char>, g: Generics, fs: Seq<Field>) -> Result<
    (Seq<char>, Seq<char>),
    HasherError,
>
    decreases fs.len(),
{
    if fs.len() == 0 {
        Ok((Seq::empty(), Seq::empty()))
    } else {
        match hashers_text(ident, g, fs.drop_last()) {
            Err(e) => Err(e),
            Ok((ws, ms)) => {
                let f = fs.last();
                if !hash_marked(f.attrs@) {
                    Ok((ws, ms))
                } else {
                    match f.ident {
                        None => Err(HasherError::NamedFieldsOnly),
                        Some(id) => Ok(
                            (
                                ws + wrapper_text(ident, g, id@),
                                ms + hash_method_text(ident, g, id@),
                            ),
                        ),
                    }
                }
            },
        }
    }
}

/// Whether some attribute among `attrs` is the marker `extract_hash`.
fn has_hash_marker(attrs: &Vec<Attribute>) -> (r: bool)
    ensures
        r == hash_marked(attrs@),
{
    for k in 0..attrs.len()
        invariant
            forall|i: int| 0 <= i < k ==> !is_helper(#[trigger] attrs@[i], "extract_hash"@),
    {
        let helper = match &attrs[k].path_ident {
            Some(p) => text_is(p, "extract_hash"),
            None => false,
        };
        if helper {
            return true;
        }
    }
    false
}

/// Appends the names of the parameters `ps`, each followed by a comma.
fn append_param_names(r: &mut String, ps: &Vec<GenericParam>)
    ensures
        final(r)@ == old(r)@ + param_names_text(ps@),
{
    let ghost head = r@;
    assert(ps@.take(0) =~= Seq::<GenericParam>::empty());
    for k in 0..ps.len()
        invariant
            r@ == head + param_names_text(ps@.take(k as int)),
    {
        assert(ps@.take(k + 1).drop_last() =~= ps@.take(k as int));
        r.append(ps[k].name.as_str());
        r.append(", ");
    }
    assert(ps@.take(ps@.len() as int) =~= ps@);
}

/// Appends the declarations of the parameters `ps`, each followed by a comma.
fn append_params(r: &mut String, ps: &Vec<GenericParam>)
    ensures
        final(r)@ == old(r)@ + params_text(ps@),
{
    let ghost head = r@;
    assert(ps@.take(0) =~= Seq::<GenericParam>::empty());
    for k in 0..ps.len()
        invariant
            r@ == head + params_text(ps@.take(k as int)),
    {
        assert(ps@.take(k + 1).drop_last() =~= ps@.take(k as int));
        r.append(ps[k].text.as_str());
        r.append(", ");
    }
    assert(ps@.take(ps@.len() as int) =~= ps@);
}

/// Appends the head of an impl of the trait `tr` for the wrapper `w`.
fn append_wrapper_impl_head(r: &mut String, w: &String, g: &Generics, tr: &str)
    ensures
        final(r)@ == old(r)@ + wrapper_impl_head(w@, *g, tr@),
{
    r.append("\nimpl<'__hash, ");
    append_params(r, &g.params);
    r.append("> ");
    r.append(tr);
    r.append(" for ");
    r.append(w.as_str());
    r.append("<'__hash, ");
    append_param_names(r, &g.params);
    r.append(">");
    append_where(r, &g.where_predicates);
}

/// `id` without the `r#` of a raw identifier.
fn unraw_text(id: &String) -> (r: String)
    ensures
        r@ == unraw(id@),
{
    let cs = chars_of(id.as_str());
    if cs.len() >= 2 && cs[0] == 'r' && cs[1] == '#' {
        let n = id.as_str().unicode_len();
        String::from_str(id.as_str().substring_char(2, n))
    } else {
        id.clone()
    }
}

/// The name of the wrapper that hashes values of `ident` by the field `f`.
fn wrapper_ident(ident: &String, f: &String) -> (r: String)
    ensures
        r@ == wrapper_name(ident@, f@),
{
    let mut w = unraw_text(ident);
    w.append("HashBy");
    let u = unraw_text(f);
    w.append(u.as_str());
    w
}

/// Appends the wrapper that hashes values of `ident` by the field `f`.
fn append_wrapper(r: &mut String, ident: &String, g: &Generics, f: &String)
    ensures
        final(r)@ == old(r)@ + wrapper_text(ident@, *g, f@),
{
    let w = wrapper_ident(ident, f);
    r.append("\n#[derive(Clone, Copy, Debug)]\npub struct ");
    r.append(w.as_str());
    r.append("<'__hash, ");
    append_params(r, &g.params);
    r.append(">(pub &'__hash ");
    r.append(ident.as_str());
    r.append(g.ty_generics.as_str());
    r.append(")");
    append_where(r, &g.where_predicates);
    r.append(";");
    append_wrapper_impl_head(r, &w, g, "core::cmp::PartialEq");
    r.append(" {\n    #[inline]\n    fn eq(&self, other: &Self) -> bool {\n        self.0.");
    r.append(f.as_str());
    r.append(" == other.0.");
    r.append(f.as_str());
    r.append("\n    }\n}");
    append_wrapper_impl_head(r, &w, g, "core::cmp::Eq");
    r.append(" {}");
    append_wrapper_impl_head(r, &w, g, "core::hash::Hash");
    r.append(
        " {\n    #[inline]\n    fn hash<H: core::hash::Hasher>(&self, state: &mut H) {\n        core::hash::Hash::hash(&self.0.",
    );
    r.append(f.as_str());
    r.append(", state);\n    }\n}");
}

/// Appends the method of `ident` that wraps `self` to hash it by the field `f`.
fn append_hash_method(r: &mut String, ident: &String, g: &Generics, f: &String)
    ensures
        final(r)@ == old(r)@ + hash_method_text(ident@, *g, f@),
{
    let w = wrapper_ident(ident, f);
    r.append("\n    #[inline]\n    pub fn hash_by_");
    let u = unraw_text(f);
    r.append(u.as_str());
    r.append("(&self) -> ");
    r.append(w.as_str());
    r.append("<'_, ");
    append_param_names(r, &g.params);
    r.append("> {\n        ");
    r.append(w.as_str());
    r.append("(self)\n    }");
}

/// Once a field is refused, every longer prefix is refused the same way.
proof fn lemma_hashers_error_persists(ident: Seq<char>, g: Generics, fs: Seq<Field>, k: int)
    requires
        0 <= k <= fs.len(),
        hashers_text(ident, g, fs.take(k)) is Err,
    ensures
        hashers_text(ident, g, fs) == hashers_text(ident, g, fs.take(k)),
    decreases fs.len() - k,
{
    if k < fs.len() {
        assert(fs.take(k + 1).drop_last() =~= fs.take(k));
        lemma_hashers_error_persists(ident, g, fs, k + 1);
    } else {
        assert(fs.take(k) =~= fs);
    }
}

/// The wrappers and the methods that the fields `fs` of `ident` ask for.
fn fields_hashers(ident: &String, g: &Generics, fs: &Vec<Field>) -> (res: Result<(String, String), HasherError>)
    ensures
        match hashers_text(ident@, *g, fs@) {
            Ok((ws, ms)) => res matches Ok((w, m)) && w@ == ws && m@ == ms,
            Err(e) => res == Err::<(String, String), HasherError>(e),
        },
{
    let mut ws = String::new();
    let mut ms = String::new();
    assert(fs@.take(0) =~= Seq::<Field>::empty());
    for k in 0..fs.len()
        invariant
            hashers_text(ident@, *g, fs@.take(k as int)) == Ok::<(Seq<char>, Seq<char>), HasherError>(
                (ws@, ms@),
            ),
    {
        assert(fs@.take(k + 1).drop_last() =~= fs@.take(k as int));
        let f = &fs[k];
        if has_hash_marker(&f.attrs) {
            match &f.ident {
                None => {
                    proof {
                        lemma_hashers_error_persists(ident@, *g, fs@, k + 1);
                    }
                    return Err(HasherError::NamedFieldsOnly);
                },
                Some(id) => {
                    append_wrapper(&mut ws, ident, g, id);
                    append_hash_method(&mut ms, ident, g, id);
                },
            }
        }
    }
    assert(fs@.take(fs@.len() as int) =~= fs@);
    Ok((ws, ms))
}

/// Fields without `extract_hash` attributes ask for no wrappers and no methods.
proof fn lemma_unmarked_fields(ident: Seq<char>, g: Generics, fs: Seq<Field>)
    requires
        fields_unmarked(fs, "extract_hash"@),
    ensures
        hashers_text(ident, g, fs) == Ok::<(Seq<char>, Seq<char>), HasherError>(
            (Seq::empty(), Seq::empty()),
        ),
    decreases fs.len(),
{
    if fs.len() > 0 {
        lemma_fields_unmarked_split(fs, "extract_hash"@);
        lemma_unmarked_fields(ident, g, fs.drop_last());
        assert(!hash_marked(fs.last().attrs@));
    }
}

/// Every field is processed, in order: on fields `a` then `b`, the result is the
/// first refusal met in `a`, else in `b`, else the wrappers of `a` followed by
/// those of `b`, and the methods of `a` followed by those of `b`.
pub proof fn lemma_hashers_text_concat(ident: Seq<char>, g: Generics, a: Seq<Field>, b: Seq<Field>)
    ensures
        hashers_text(ident, g, a + b) == match hashers_text(ident, g, a) {
            Err(e) => Err(e),
            Ok((wa, ma)) => match hashers_text(ident, g, b) {
                Err(e) => Err(e),
                Ok((wb, mb)) => Ok((wa + wb, ma + mb)),
            },
        },
    decreases b.len(),
{
    if b.len() == 0 {
        assert(a + b =~= a);
        if let Ok((wa, ma)) = hashers_text(ident, g, a) {
            assert(wa + Seq::<char>::empty() =~= wa);
            assert(ma + Seq::<char>::empty() =~= ma);
        }
    } else {
        assert((a + b).drop_last() =~= a + b.drop_last());
        assert((a + b).last() == b.last());
        lemma_hashers_text_concat(ident, g, a, b.drop_last());
        if let Ok((wa, ma)) = hashers_text(ident, g, a) {
            if let Ok((wb, mb)) = hashers_text(ident, g, b.drop_last()) {
                if let Some(id) = b.last().ident {
                    let w = wrapper_text(ident, g, id@);
                    let m = hash_method_text(ident, g, id@);
                    assert(wa + wb + w =~= wa + (wb + w));
                    assert(ma + mb + m =~= ma + (mb + m));
                }
            }
        }
    }
}

/// Attributes that are not `extract_hash` markers do not change whether a field
/// is marked: one standing before the others, or after them, leaves it as it is.
pub proof fn lemma_hash_marked_skips_other_attributes(a: Attribute, attrs: Seq<Attribute>)
    requires
        !is_helper(a, "extract_hash"@),
    ensures
        hash_marked(seq![a] + attrs) == hash_marked(attrs),
        hash_marked(attrs + seq![a]) == hash_marked(attrs),
{
    let before = seq![a] + attrs;
    let after = attrs + seq![a];
    if hash_marked(attrs) {
        let i = choose|i: int| 0 <= i < attrs.len() && is_helper(#[trigger] attrs[i], "extract_hash"@);
        assert(before[i + 1] == attrs[i]);
        assert(after[i] == attrs[i]);
    }
    if hash_marked(before) {
        let i = choose|i: int| 0 <= i < before.len() && is_helper(#[trigger] before[i], "extract_hash"@);
        assert(i > 0);
        assert(attrs[i - 1] == before[i]);
    }
    if hash_marked(after) {
        let i = choose|i: int| 0 <= i < after.len() && is_helper(#[trigger] after[i], "extract_hash"@);
        assert(i < attrs.len());
        assert(attrs[i] == after[i]);
    }
}

/// A named field `id` gets the wrapper that hashes by it and the method that makes
/// the wrapper exactly when one of its attributes, at any position, is the
/// `extract_hash` marker; otherwise it gets neither.
pub proof fn lemma_field_hashers(ident: Seq<char>, g: Generics, f: Field, id: String)
    requires
        f.ident == Some(id),
    ensures
        (exists|j: int| 0 <= j < f.attrs@.len() && is_helper(#[trigger] f.attrs@[j], "extract_hash"@))
            ==> hashers_text(ident, g, seq![f]) == Ok::<(Seq<char>, Seq<char>), HasherError>(
            (wrapper_text(ident, g, id@), hash_method_text(ident, g, id@)),
        ),
        (forall|j: int| 0 <= j < f.attrs@.len() ==> !is_helper(#[trigger] f.attrs@[j], "extract_hash"@))
            ==> hashers_text(ident, g, seq![f]) == Ok::<(Seq<char>, Seq<char>), HasherError>(
            (Seq::empty(), Seq::empty()),
        ),
{
    let fs = seq![f];
    assert(fs.drop_last() =~= Seq::<Field>::empty());
    assert(fs.last() == f);
    assert(hashers_text(ident, g, fs.drop_last()) == Ok::<(Seq<char>, Seq<char>), HasherError>(
        (Seq::empty(), Seq::empty()),
    ));
    if exists|j: int| 0 <= j < f.attrs@.len() && is_helper(#[trigger] f.attrs@[j], "extract_hash"@) {
        assert(hash_marked(f.attrs@));
    }
    assert(Seq::<char>::empty() + wrapper_text(ident, g, id@) =~= wrapper_text(ident, g, id@));
    assert(Seq::<char>::empty() + hash_method_text(ident, g, id@) =~= hash_method_text(ident, g, id@));
}

/// The item that `extract_hashers` re-emits carries no `extract_hash` markers,
/// so expanding it again generates no wrappers and no methods.
pub proof fn lemma_reexpansion_generates_no_hashers(d: DeriveItem, e: DeriveItem)
    requires
        item_stripped(d, e, "extract_hash"@),
    ensures
        hashers_text(e.ident@, e.generics, fields_of(e)) == Ok::<(Seq<char>, Seq<char>), HasherError>(
            (Seq::empty(), Seq::empty()),
        ),
{
    lemma_stripped_fields_have_no_helpers(d, e, "extract_hash"@);
    lemma_unmarked_fields(e.ident@, e.generics, fields_of(e));
}

/// The attribute `extract_hash` by itself re-emits the text of the item it stands on unchanged.
pub fn extract_hash(_args_text: &str, input_text: &str) -> (r: String)
    ensures
        r@ == input_text@,
{
    String::from_str(input_text)
}

/// The wrappers and methods that the fields of `input` ask for, or the error of
/// the first field refused.
fn item_hashers(input: &DeriveItem) -> (res: Result<(String, String), HasherError>)
    ensures
        match hashers_text(input.ident@, input.generics, fields_of(*input)) {
            Ok((ws, ms)) => res matches Ok((w, m)) && w@ == ws && m@ == ms,
            Err(e) => res == Err::<(String, String), HasherError>(e),
        },
{
    match &input.data {
        Data::Struct(Fields::Named(fs)) => fields_hashers(&input.ident, &input.generics, fs),
        Data::Struct(Fields::Unnamed(fs)) => fields_hashers(&input.ident, &input.generics, fs),
        _ => Ok((String::new(), String::new())),
    }
}

/// Whether `#[extract_hashers]` accepts `input`: the error of the first field
/// whose marker it refuses, if any.
pub fn check_hashers(input: &DeriveItem) -> (r: Result<(), HasherError>)
    ensures
        match hashers_text(input.ident@, input.generics, fields_of(*input)) {
            Ok(_) => r is Ok,
            Err(e) => r == Err::<(), HasherError>(e),
        },
{
    match item_hashers(input) {
        Ok(_) => Ok(()),
        Err(e) => Err(e),
    }
}

/// `r` is an expansion of `#[extract_hashers]`, with the arguments `args`, on
/// `input`: the item without its `extract_hash` markers, the wrappers, and an
/// inherent `impl` holding the methods that make them. The arguments play no part.
pub open spec fn hashers_expansion(args: Seq<char>, input: DeriveItem, r: Expansion) -> bool {
    &&& item_stripped(input, r.item, "extract_hash"@)
    &&& hashers_text(input.ident@, input.generics, fields_of(input)) matches Ok((ws, ms))
        && r.generated@ == ws + impl_block_text(input.generics, input.ident@, ms)
}

/// The expansion of `#[extract_hashers]` does not depend on its arguments: what
/// one argument text expands an item to, every other one does too.
pub proof fn lemma_hashers_ignore_arguments(args1: Seq<char>, args2: Seq<char>, input: DeriveItem, r: Expansion)
    requires
        hashers_expansion(args1, input, r),
    ensures
        hashers_expansion(args2, input, r),
{
}

/// Expands `#[extract_hashers]` on `input`, which it accepts: the item without its
/// `extract_hash` markers, one wrapper with its equality and hash per marked
/// field, and an inherent `impl` holding the methods that make the wrappers, in
/// the order of the fields. The attribute's own tokens are not read.
pub fn extract_hashers(args_text: &str, input: DeriveItem) -> (r: Expansion)
    requires
        hashers_text(input.ident@, input.generics, fields_of(input)) is Ok,
    ensures
        hashers_expansion(args_text@, input, r),
{
    let (ws, ms) = match item_hashers(&input) {
        Ok(p) => p,
        Err(_) => (String::new(), String::new()),
    };
    let mut generated = ws;
    append_impl_block(&mut generated, &input.generics, &input.ident, &ms);
    let item = strip_item(input, "extract_hash");
    Expansion { item, generated }
}

} // verus!
