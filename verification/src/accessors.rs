//! Accessor methods generated from `#[access(...)]` field markers.
//!
//! `#[access(get)]` on a field `f: T` yields `get_f(&self) -> T` (for `T: Copy`),
//! `#[access(get_ref)]` yields `get_ref_f(&self) -> &T`, `#[access(get_mut)]`
//! yields `get_mut_f(&mut self) -> &mut T`, and `#[access(get = "name")]` yields
//! a by-value getter called `name`. The markers are removed from the item.

use vstd::prelude::*;
use crate::expansion::{append_impl_block, impl_block_text, Expansion};
use crate::syntax::{
    fields_of, fields_unmarked, is_helper, is_raw, item_stripped, lemma_fields_unmarked_split,
    lemma_stripped_fields_have_no_helpers, lemma_unmarked_rest, strip_item, unmarked,
    Attribute, Data, DeriveItem, Field, Fields, Meta, MetaValue, PathArg,
};
use crate::text::{chars_of, text_is};

verus! {

/// Why a field's accessor marker was refused.
#[derive(Debug, PartialEq, Eq)]
pub enum AccessorError {
    /// A marker's arguments do not read as a meta item, or read as a list.
    InvalidSyntax,
    /// The marker names an accessor kind other than `get`, `get_ref` and `get_mut`.
    UnknownAccessor(String),
    /// The marker is `name = value` with a name other than `get`.
    UnknownForm,
    /// The marker is a path of more than one segment.
    ExpectedIdentifier,
    /// The marker is `get = value` with a value that is not a string literal.
    ExpectedStringLiteral,
    /// The marked field has no name.
    NamedFieldsOnly,
    /// The name given by `get = "..."` is not an identifier.
    InvalidName(String),
    /// A `get`, `get_ref` or `get_mut` marker stands on a field written as a raw
    /// identifier `r#name`: the accessor's name, its prefix followed by the
    /// field's name, would not be an identifier.
    RawFieldName(AccessorKind, String),
}

/// The message with which the expansion fails on `e`.
pub open spec fn accessor_error_message(e: AccessorError) -> Seq<char> {
    match e {
        AccessorError::InvalidSyntax => "invalid #[access(...)] syntax"@,
        AccessorError::UnknownAccessor(k) => "unknown accessor: "@ + k@,
        AccessorError::UnknownForm => "unknown accessor form"@,
        AccessorError::ExpectedIdentifier => "expected accessor identifier"@,
        AccessorError::ExpectedStringLiteral => "expected string literal in #[access(get = \"...\")]"@,
        AccessorError::NamedFieldsOnly => "named fields only"@,
        AccessorError::InvalidName(n) => "`"@ + n@ + "` is not a valid identifier"@,
        AccessorError::RawFieldName(k, f) => "`"@ + accessor_prefix(k) + f@
            + "` is not a valid identifier"@,
    }
}

impl AccessorError {
    /// The message with which the expansion fails.
    pub fn message(&self) -> (r: String)
        ensures
            r@ == accessor_error_message(*self),
    {
        match self {
            AccessorError::InvalidSyntax => String::from_str("invalid #[access(...)] syntax"),
            AccessorError::UnknownAccessor(k) => {
                let mut r = String::from_str("unknown accessor: ");
                r.append(k.as_str());
                r
            },
            AccessorError::UnknownForm => String::from_str("unknown accessor form"),
            AccessorError::ExpectedIdentifier => String::from_str("expected accessor identifier"),
            AccessorError::ExpectedStringLiteral => String::from_str(
                "expected string literal in #[access(get = \"...\")]",
            ),
            AccessorError::NamedFieldsOnly => String::from_str("named fields only"),
            AccessorError::InvalidName(n) => {
                let mut r = String::from_str("`");
                r.append(n.as_str());
                r.append("` is not a valid identifier");
                r
            },
            AccessorError::RawFieldName(k, f) => {
                let mut r = String::from_str("`");
                r.append(prefix_of(k));
                r.append(f.as_str());
                r.append("` is not a valid identifier");
                r
            },
        }
    }
}

/// The kinds of accessor.
#[derive(Debug, PartialEq, Eq)]
pub enum AccessorKind {
    /// Returns the field by value.
    Get,
    /// Returns a shared reference to the field.
    GetRef,
    /// Returns a mutable reference to the field.
    GetMut,
}

/// The prefix that the name of a `kind` accessor puts before the field's name.
pub open spec fn accessor_prefix(kind: AccessorKind) -> Seq<char> {
    match kind {
        AccessorKind::Get => "get_"@,
        AccessorKind::GetRef => "get_ref_"@,
        AccessorKind::GetMut => "get_mut_"@,
    }
}

/// The prefix that the name of a `kind` accessor puts before the field's name.
fn prefix_of(kind: &AccessorKind) -> (r: &'static str)
    ensures
        r@ == accessor_prefix(*kind),
{
    match kind {
        AccessorKind::Get => "get_",
        AccessorKind::GetRef => "get_ref_",
        AccessorKind::GetMut => "get_mut_",
    }
}

/// The `kind` accessor of the field `id: ty`, named by its prefix and the field's
/// name; refused where that name is no identifier, the field being raw.
pub open spec fn named_accessor(kind: AccessorKind, id: String, ty: Seq<char>) -> Result<Seq<char>, AccessorError> {
    if is_raw(id@) {
        Err(AccessorError::RawFieldName(kind, id))
    } else {
        Ok(accessor_text(kind, accessor_prefix(kind) + id@, id@, ty))
    }
}

/// The marker of a field as the expansion reads it: none when the field has no
/// `access` attribute; `Some(None)` when, in order, one of them has arguments that
/// do not read as a meta item; else the meta item of the last one.
pub open spec fn access_meta(attrs: Seq<Attribute>) -> Option<Option<Meta>>
    decreases attrs.len(),
{
    if attrs.len() == 0 {
        None
    } else if is_helper(attrs[0], "access"@) {
        match attrs[0].meta {
            None => Some(None),
            Some(m) => match access_meta(attrs.drop_first()) {
                None => Some(Some(m)),
                later => later,
            },
        }
    } else {
        access_meta(attrs.drop_first())
    }
}

/// The method named `name` that gives access to the field `field` of type `ty`.
pub open spec fn accessor_text(kind: AccessorKind, name: Seq<char>, field: Seq<char>, ty: Seq<char>) -> Seq<char> {
    match kind {
        AccessorKind::Get => "\n    pub fn "@ + name + "(&self) -> "@ + ty + " where "@ + ty
            + ": Copy, { self."@ + field + " }"@,
        AccessorKind::GetRef => "\n    pub fn "@ + name + "(&self) -> &"@ + ty + " { &self."@ + field
            + " }"@,
        AccessorKind::GetMut => "\n    pub fn "@ + name + "(&mut self) -> &mut "@ + ty
            + " { &mut self."@ + field + " }"@,
    }
}

/// The accessor of one marked field `id: ty` with meta item `meta`.
pub open spec fn meta_accessor(meta: Meta, id: String, ty: Seq<char>) -> Result<Seq<char>, AccessorError> {
    match meta {
        Meta::Path(p) => match p.ident {
            None => Err(AccessorError::ExpectedIdentifier),
            Some(k) => if k@ == "get"@ {
                named_accessor(AccessorKind::Get, id, ty)
            } else if k@ == "get_ref"@ {
                named_accessor(AccessorKind::GetRef, id, ty)
            } else if k@ == "get_mut"@ {
                named_accessor(AccessorKind::GetMut, id, ty)
            } else {
                Err(AccessorError::UnknownAccessor(k))
            },
        },
        Meta::NameValue(p, v) => if p.ident matches Some(n) && n@ == "get"@ {
            match v {
                MetaValue::Str { value, ident } => if ident {
                    Ok(accessor_text(AccessorKind::Get, value@, id@, ty))
                } else {
                    Err(AccessorError::InvalidName(value))
                },
                MetaValue::Other => Err(AccessorError::ExpectedStringLiteral),
            }
        } else {
            Err(AccessorError::UnknownForm)
        },
        Meta::List(_) => Err(AccessorError::InvalidSyntax),
    }
}

/// The accessor that the field `f` asks for: no text when it has no marker.
pub open spec fn field_accessor(f: Field) -> Result<Seq<char>, AccessorError> {
    match access_meta(f.attrs@) {
        None => Ok(Seq::empty()),
        Some(None) => Err(AccessorError::InvalidSyntax),
        Some(Some(meta)) => match f.ident {
            None => Err(AccessorError::NamedFieldsOnly),
            Some(id) => meta_accessor(meta, id, f.ty@),
        },
    }
}

/// A named field `f` whose marker is `get = "name"`, with `name` able to name a
/// method, gets the by-value getter `name`, which returns the field (for a `Copy`
/// type), and no other accessor: no `get_f` is made for it.
pub proof fn lemma_custom_getter(f: Field, p: PathArg, value: String)
    requires
        access_meta(f.attrs@) == Some(Some(Meta::NameValue(p, MetaValue::Str { value, ident: true }))),
        p.ident matches Some(n) && n@ == "get"@,
        f.ident is Some,
    ensures
        field_accessor(f) == Ok::<Seq<char>, AccessorError>(
            accessor_text(AccessorKind::Get, value@, f.ident->Some_0@, f.ty@),
        ),
{
}

/// The accessors of the fields `fs` in order, or the error of the first field refused.
pub open spec fn accessors_text(fs: Seq<Field>) -> Result<Seq<char>, AccessorError>
    decreases fs.len(),
{
    if fs.len() == 0 {
        Ok(Seq::empty())
    } else {
        match accessors_text(fs.drop_last()) {
            Err(e) => Err(e),
            Ok(t) => match field_accessor(fs.last()) {
                Err(e) => Err(e),
                Ok(m) => Ok(t + m),
            },
        }
    }
}

/// Whether the identifier `id` is written as a raw identifier.
fn raw_ident(id: &String) -> (r: bool)
    ensures
        r == is_raw(id@),
{
    let cs = chars_of(id.as_str());
    cs.len() >= 2 && cs[0] == 'r' && cs[1] == '#'
}

/// Every field is processed, in order: on fields `a` then `b`, the result is the
/// first refusal met in `a`, else in `b`, else the accessors of `a` followed by
/// those of `b`.
pub proof fn lemma_accessors_text_concat(a: Seq<Field>, b: Seq<Field>)
    ensures
        accessors_text(a + b) == match accessors_text(a) {
            Err(e) => Err(e),
            Ok(x) => match accessors_text(b) {
                Err(e) => Err(e),
                Ok(y) => Ok(x + y),
            },
        },
    decreases b.len(),
{
    if b.len() == 0 {
        assert(a + b =~= a);
        if let Ok(x) = accessors_text(a) {
            assert(x + Seq::<char>::empty() =~= x);
        }
    } else {
        assert((a + b).drop_last() =~= a + b.drop_last());
        assert((a + b).last() == b.last());
        lemma_accessors_text_concat(a, b.drop_last());
        if let Ok(x) = accessors_text(a) {
            if let Ok(y) = accessors_text(b.drop_last()) {
                if let Ok(m) = field_accessor(b.last()) {
                    assert(x + y + m =~= x + (y + m));
                }
            }
        }
    }
}

/// The accessors of one field are the accessor it asks for.
pub proof fn lemma_accessors_text_one(f: Field)
    ensures
        accessors_text(seq![f]) == field_accessor(f),
{
    assert(seq![f].drop_last() =~= Seq::<Field>::empty());
    assert(accessors_text(seq![f].drop_last()) == Ok::<Seq<char>, AccessorError>(Seq::empty()));
    assert(seq![f].last() == f);
    if let Ok(m) = field_accessor(f) {
        assert(Seq::<char>::empty() + m =~= m);
    }
}

/// Where, among `attrs`, the marker that the expansion reads stands.
fn find_access_meta(attrs: &Vec<Attribute>) -> (r: Option<Option<usize>>)
    ensures
        match access_meta(attrs@) {
            None => r == None::<Option<usize>>,
            Some(None) => r == Some(None::<usize>),
            Some(Some(m)) => r matches Some(Some(i)) && i < attrs@.len() && attrs@[i as int].meta
                == Some(m),
        },
{
    let n = attrs.len();
    let mut found: Option<usize> = None;
    let mut k: usize = 0;
    assert(attrs@.skip(0) =~= attrs@);
    while k < n
        invariant
            n == attrs@.len(),
            k <= n,
            found matches Some(i) ==> i < n && attrs@[i as int].meta is Some,
            access_meta(attrs@) == match access_meta(attrs@.skip(k as int)) {
                None => match found {
                    None => None,
                    Some(i) => Some(attrs@[i as int].meta),
                },
                later => later,
            },
        decreases n - k,
    {
        let ghost rest = attrs@.skip(k as int);
        assert(rest[0] == attrs@[k as int]);
        assert(rest.drop_first() =~= attrs@.skip(k + 1));
        let a = &attrs[k];
        let helper = match &a.path_ident {
            Some(p) => text_is(p, "access"),
            None => false,
        };
        if helper {
            match &a.meta {
                None => {
                    return Some(None);
                },
                Some(_) => {
                    found = Some(k);
                },
            }
        }
        k = k + 1;
    }
    assert(attrs@.skip(n as int) =~= Seq::<Attribute>::empty());
    match found {
        None => None,
        Some(i) => Some(Some(i)),
    }
}

/// Appends the accessor that `meta` asks for on the field `id: ty`.
fn append_meta_accessor(r: &mut String, meta: &Meta, id: &String, ty: &String) -> (res: Result<
    (),
    AccessorError,
>)
    ensures
        match meta_accessor(*meta, *id, ty@) {
            Ok(t) => res is Ok && final(r)@ == old(r)@ + t,
            Err(e) => res == Err::<(), AccessorError>(e),
        },
{
    let (kind, name) = match meta {
        Meta::Path(p) => match &p.ident {
            None => {
                return Err(AccessorError::ExpectedIdentifier);
            },
            Some(k) => {
                let (kind, name) = if text_is(k, "get") {
                    let mut name = String::from_str("get_");
                    name.append(id.as_str());
                    (AccessorKind::Get, name)
                } else if text_is(k, "get_ref") {
                    let mut name = String::from_str("get_ref_");
                    name.append(id.as_str());
                    (AccessorKind::GetRef, name)
                } else if text_is(k, "get_mut") {
                    let mut name = String::from_str("get_mut_");
                    name.append(id.as_str());
                    (AccessorKind::GetMut, name)
                } else {
                    return Err(AccessorError::UnknownAccessor(k.clone()));
                };
                if raw_ident(id) {
                    return Err(AccessorError::RawFieldName(kind, id.clone()));
                }
                (kind, name)
            },
        },
        Meta::NameValue(p, v) => {
            let is_get = match &p.ident {
                Some(n) => text_is(n, "get"),
                None => false,
            };
            if !is_get {
                return Err(AccessorError::UnknownForm);
            }
            match v {
                MetaValue::Str { value, ident } => {
                    if !*ident {
                        return Err(AccessorError::InvalidName(value.clone()));
                    }
                    (AccessorKind::Get, value.clone())
                },
                MetaValue::Other => {
                    return Err(AccessorError::ExpectedStringLiteral);
                },
            }
        },
        Meta::List(_) => {
            return Err(AccessorError::InvalidSyntax);
        },
    };
    match kind {
        AccessorKind::Get => {
            r.append("\n    pub fn ");
            r.append(name.as_str());
            r.append("(&self) -> ");
            r.append(ty.as_str());
            r.append(" where ");
            r.append(ty.as_str());
            r.append(": Copy, { self.");
            r.append(id.as_str());
            r.append(" }");
        },
        AccessorKind::GetRef => {
            r.append("\n    pub fn ");
            r.append(name.as_str());
            r.append("(&self) -> &");
            r.append(ty.as_str());
            r.append(" { &self.");
            r.append(id.as_str());
            r.append(" }");
        },
        AccessorKind::GetMut => {
            r.append("\n    pub fn ");
            r.append(name.as_str());
            r.append("(&mut self) -> &mut ");
            r.append(ty.as_str());
            r.append(" { &mut self.");
            r.append(id.as_str());
            r.append(" }");
        },
    }
    Ok(())
}

/// Appends the accessor that the field `f` asks for.
fn append_field_accessor(r: &mut String, f: &Field) -> (res: Result<(), AccessorError>)
    ensures
        match field_accessor(*f) {
            Ok(t) => res is Ok && final(r)@ == old(r)@ + t,
            Err(e) => res == Err::<(), AccessorError>(e),
        },
{
    match find_access_meta(&f.attrs) {
        None => {
            assert(old(r)@ + Seq::<char>::empty() =~= old(r)@);
            Ok(())
        },
        Some(None) => Err(AccessorError::InvalidSyntax),
        Some(Some(i)) => match &f.ident {
            None => Err(AccessorError::NamedFieldsOnly),
            Some(id) => match &f.attrs[i].meta {
                Some(meta) => append_meta_accessor(r, meta, id, &f.ty),
                None => Err(AccessorError::InvalidSyntax),
            },
        },
    }
}

/// The accessors of the fields `fs`.
fn fields_accessors(fs: &Vec<Field>) -> (res: Result<String, AccessorError>)
    ensures
        match accessors_text(fs@) {
            Ok(t) => res matches Ok(s) && s@ == t,
            Err(e) => res == Err::<String, AccessorError>(e),
        },
{
    let mut r = String::new();
    assert(fs@.take(0) =~= Seq::<Field>::empty());
    for k in 0..fs.len()
        invariant
            accessors_text(fs@.take(k as int)) == Ok::<Seq<char>, AccessorError>(r@),
    {
        assert(fs@.take(k + 1).drop_last() =~= fs@.take(k as int));
        match append_field_accessor(&mut r, &fs[k]) {
            Ok(()) => {},
            Err(e) => {
                proof {
                    lemma_accessors_error_persists(fs@, k + 1);
                }
                return Err(e);
            },
        }
    }
    assert(fs@.take(fs@.len() as int) =~= fs@);
    Ok(r)
}

/// Once a field is refused, the accessors of every longer prefix are refused the same way.
proof fn lemma_accessors_error_persists(fs: Seq<Field>, k: int)
    requires
        0 <= k <= fs.len(),
        accessors_text(fs.take(k)) is Err,
    ensures
        accessors_text(fs) == accessors_text(fs.take(k)),
    decreases fs.len() - k,
{
    if k < fs.len() {
        assert(fs.take(k + 1).drop_last() =~= fs.take(k));
        lemma_accessors_error_persists(fs, k + 1);
    } else {
        assert(fs.take(k) =~= fs);
    }
}

/// A field without `access` attributes asks for no accessor.
proof fn lemma_unmarked_attrs(attrs: Seq<Attribute>)
    requires
        unmarked(attrs, "access"@),
    ensures
        access_meta(attrs) is None,
    decreases attrs.len(),
{
    if attrs.len() > 0 {
        lemma_unmarked_rest(attrs, "access"@);
        lemma_unmarked_attrs(attrs.drop_first());
    }
}

/// Fields without `access` attributes ask for no accessors.
proof fn lemma_unmarked_fields(fs: Seq<Field>)
    requires
        fields_unmarked(fs, "access"@),
    ensures
        accessors_text(fs) == Ok::<Seq<char>, AccessorError>(Seq::empty()),
    decreases fs.len(),
{
    if fs.len() > 0 {
        lemma_fields_unmarked_split(fs, "access"@);
        lemma_unmarked_fields(fs.drop_last());
        lemma_unmarked_attrs(fs.last().attrs@);
        assert(Seq::<char>::empty() + Seq::<char>::empty() =~= Seq::<char>::empty());
    }
}

/// Attributes that are not `access` markers do not change which marker is read:
/// one standing before the others, or after them, leaves the reading as it is.
pub proof fn lemma_access_meta_skips_other_attributes(a: Attribute, attrs: Seq<Attribute>)
    requires
        !is_helper(a, "access"@),
    ensures
        access_meta(seq![a] + attrs) == access_meta(attrs),
        access_meta(attrs + seq![a]) == access_meta(attrs),
    decreases attrs.len(),
{
    assert((seq![a] + attrs).drop_first() =~= attrs);
    if attrs.len() > 0 {
        assert((attrs + seq![a]).drop_first() =~= attrs.drop_first() + seq![a]);
        lemma_access_meta_skips_other_attributes(a, attrs.drop_first());
    } else {
        assert(attrs + seq![a] =~= seq![a]);
        assert(seq![a].drop_first() =~= Seq::<Attribute>::empty());
    }
}

/// How the marker of a field is read from its attributes, whatever their order:
/// none exactly when no attribute is an `access` marker; a refusal exactly when
/// some marker's arguments do not read as a meta item; else the meta item of a
/// marker after which no other marker stands (the last one).
pub proof fn lemma_access_meta_reads_markers(attrs: Seq<Attribute>)
    ensures
        access_meta(attrs) is None <==> (forall|j: int|
            0 <= j < attrs.len() ==> !is_helper(#[trigger] attrs[j], "access"@)),
        access_meta(attrs) == Some(None::<Meta>) <==> (exists|j: int|
            0 <= j < attrs.len() && is_helper(#[trigger] attrs[j], "access"@) && attrs[j].meta is None),
        access_meta(attrs) matches Some(Some(m)) ==> (exists|j: int|
            0 <= j < attrs.len() && is_helper(#[trigger] attrs[j], "access"@) && attrs[j].meta == Some(m)
                && (forall|k: int| j < k < attrs.len() ==> !is_helper(#[trigger] attrs[k], "access"@))),
    decreases attrs.len(),
{
    if attrs.len() > 0 {
        let rest = attrs.drop_first();
        lemma_access_meta_reads_markers(rest);
        assert forall|j: int| 0 <= j < rest.len() implies #[trigger] rest[j] == attrs[j + 1] by {}
        if (forall|j: int| 0 <= j < attrs.len() ==> !is_helper(#[trigger] attrs[j], "access"@)) {
            assert(!is_helper(attrs[0], "access"@));
            assert forall|j: int| 0 <= j < rest.len() implies !is_helper(#[trigger] rest[j], "access"@) by {
                assert(!is_helper(attrs[j + 1], "access"@));
            }
        }
        if exists|j: int| 0 <= j < rest.len() && is_helper(#[trigger] rest[j], "access"@) && rest[j].meta is None {
            let j = choose|j: int| 0 <= j < rest.len() && is_helper(#[trigger] rest[j], "access"@) && rest[j].meta is None;
            assert(is_helper(attrs[j + 1], "access"@));
        }
        if exists|j: int| 0 <= j < attrs.len() && is_helper(#[trigger] attrs[j], "access"@) && attrs[j].meta is None {
            let j = choose|j: int| 0 <= j < attrs.len() && is_helper(#[trigger] attrs[j], "access"@) && attrs[j].meta is None;
            if j > 0 {
                assert(is_helper(rest[j - 1], "access"@));
            }
        }
        if exists|j: int| 0 <= j < rest.len() && is_helper(#[trigger] rest[j], "access"@) {
            let j = choose|j: int| 0 <= j < rest.len() && is_helper(#[trigger] rest[j], "access"@);
            assert(is_helper(attrs[j + 1], "access"@));
        }
        match access_meta(rest) {
            Some(Some(m)) => {
                let j = choose|j: int|
                    0 <= j < rest.len() && is_helper(#[trigger] rest[j], "access"@) && rest[j].meta == Some(m)
                        && (forall|k: int| j < k < rest.len() ==> !is_helper(#[trigger] rest[k], "access"@));
                assert(is_helper(attrs[j + 1], "access"@));
                assert forall|k: int| j + 1 < k < attrs.len() implies !is_helper(#[trigger] attrs[k], "access"@) by {
                    assert(!is_helper(rest[k - 1], "access"@));
                }
            },
            None => {
                assert forall|k: int| 0 < k < attrs.len() implies !is_helper(#[trigger] attrs[k], "access"@) by {
                    assert(!is_helper(rest[k - 1], "access"@));
                }
            },
            _ => {},
        }
    }
}

/// The item that `extract_accessors` re-emits carries no `access` markers, so
/// expanding it again generates no accessors.
pub proof fn lemma_reexpansion_generates_no_accessors(d: DeriveItem, e: DeriveItem)
    requires
        item_stripped(d, e, "access"@),
    ensures
        accessors_text(fields_of(e)) == Ok::<Seq<char>, AccessorError>(Seq::empty()),
{
    lemma_stripped_fields_have_no_helpers(d, e, "access"@);
    lemma_unmarked_fields(fields_of(e));
}

/// The attribute `access` by itself re-emits the text of the item it stands on unchanged.
pub fn access(_args_text: &str, input_text: &str) -> (r: String)
    ensures
        r@ == input_text@,
{
    String::from_str(input_text)
}

/// The accessors that the fields of `input` ask for, or the error of the first
/// field refused: what `#[extract_accessors]` panics with on `input`.
fn item_accessors(input: &DeriveItem) -> (res: Result<String, AccessorError>)
    ensures
        match accessors_text(fields_of(*input)) {
            Ok(t) => res matches Ok(s) && s@ == t,
            Err(e) => res == Err::<String, AccessorError>(e),
        },
{
    match &input.data {
        Data::Struct(Fields::Named(fs)) => fields_accessors(fs),
        Data::Struct(Fields::Unnamed(fs)) => fields_accessors(fs),
        _ => Ok(String::new()),
    }
}

/// Whether `#[extract_accessors]` accepts `input`: the error of the first field
/// whose marker it refuses, if any.
pub fn check_accessors(input: &DeriveItem) -> (r: Result<(), AccessorError>)
    ensures
        match accessors_text(fields_of(*input)) {
            Ok(_) => r is Ok,
            Err(e) => r == Err::<(), AccessorError>(e),
        },
{
    match item_accessors(input) {
        Ok(_) => Ok(()),
        Err(e) => Err(e),
    }
}

/// `r` is an expansion of `#[extract_accessors]`, with the arguments `args`, on
/// `input`: the item without its `access` markers, and an inherent `impl`
/// holding the accessors that its fields ask for. The arguments play no part.
pub open spec fn accessors_expansion(args: Seq<char>, input: DeriveItem, r: Expansion) -> bool {
    &&& item_stripped(input, r.item, "access"@)
    &&& accessors_text(fields_of(input)) matches Ok(t) && r.generated@ == impl_block_text(
        input.generics,
        input.ident@,
        t,
    )
}

/// The expansion of `#[extract_accessors]` does not depend on its arguments:
/// what one argument text expands an item to, every other one does too.
pub proof fn lemma_accessors_ignore_arguments(args1: Seq<char>, args2: Seq<char>, input: DeriveItem, r: Expansion)
    requires
        accessors_expansion(args1, input, r),
    ensures
        accessors_expansion(args2, input, r),
{
}

/// Expands `#[extract_accessors]` on `input`, which it accepts: the item without
/// its `access` markers, and an inherent `impl` holding one accessor per marked
/// field, in the order of the fields. The attribute's own tokens are not read.
pub fn extract_accessors(args_text: &str, input: DeriveItem) -> (r: Expansion)
    requires
        accessors_text(fields_of(input)) is Ok,
    ensures
        accessors_expansion(args_text@, input, r),
{
    let methods = match item_accessors(&input) {
        Ok(m) => m,
        Err(_) => String::new(),
    };
    let mut generated = String::new();
    append_impl_block(&mut generated, &input.generics, &input.ident, &methods);
    let item = strip_item(input, "access");
    Expansion { item, generated }
}

} // verus!
