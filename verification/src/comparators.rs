//! Named comparator functions generated for selected fields.
//!
//! `#[extract_compare(name)]` on a field `f` yields an associated function
//! `name(a: &Self, b: &Self)` that orders two values by their field `f` alone.
//! The markers are removed from the item.

use vstd::prelude::*;
use crate::expansion::Expansion;
use crate::syntax::{
    fields_of, fields_unmarked, is_helper, item_stripped, lemma_fields_unmarked_split,
    lemma_stripped_fields_have_no_helpers, lemma_unmarked_rest, strip_item, unmarked,
    Attribute, Data, DeriveItem, Field, Fields, PathArg,
};
use crate::text::text_is;

verus! {

/// Why a field's comparator marker was refused.
#[derive(Debug, PartialEq, Eq)]
pub enum ComparatorError {
    /// A marker's argument does not read as a path.
    InvalidArgument,
    /// The marked field has no name.
    NamedFieldsOnly,
}

/// The message with which the expansion fails on `e`.
pub open spec fn comparator_error_message(e: ComparatorError) -> Seq<char> {
    match e {
        ComparatorError::InvalidArgument => "invalid #[extract_compare(...)] argument"@,
        ComparatorError::NamedFieldsOnly => "named fields only"@,
    }
}

impl ComparatorError {
    /// The message with which the expansion fails.
    pub fn message(&self) -> (r: String)
        ensures
            r@ == comparator_error_message(*self),
    {
        match self {
            ComparatorError::InvalidArgument => String::from_str(
                "invalid #[extract_compare(...)] argument",
            ),
            ComparatorError::NamedFieldsOnly => String::from_str("named fields only"),
        }
    }
}

/// The marker of a field as the expansion reads it: none when the field has no
/// `extract_compare` attribute; `Some(None)` when, in order, one of them has an
/// argument that does not read as a path; else the identifier of the last one's
/// path (none when that path is not one identifier).
pub open spec fn compare_marker(attrs: Seq<Attribute>) -> Option<Option<Option<String>>>
    decreases attrs.len(),
{
    if attrs.len() == 0 {
        None
    } else if is_helper(attrs[0], "extract_compare"@) {
        match attrs[0].path_arg {
            None => Some(None),
            Some(p) => match compare_marker(attrs.drop_first()) {
                None => Some(Some(p.ident)),
                later => later,
            },
        }
    } else {
        compare_marker(attrs.drop_first())
    }
}

/// The associated function `name` of the item `ident` that orders by the field `f`.
pub open spec fn comparator_text(ident: Seq<char>, name: Seq<char>, f: Seq<char>) -> Seq<char> {
    "\nimpl "@ + ident + " {\n    #[inline(always)]\n    pub fn "@ + name
        + "(a: &Self, b: &Self) -> core::cmp::Ordering {\n        a."@ + f + ".cmp(&b."@ + f
        + ")\n    }\n}"@
}

/// The comparator that the field `f` of the item `ident` asks for: no text when it
/// has no marker, or when the last marker's path is not one identifier.
pub open spec fn field_comparator(ident: Seq<char>, f: Field) -> Result<Seq<char>, ComparatorError> {
    match compare_marker(f.attrs@) {
        None => Ok(Seq::empty()),
        Some(None) => Err(ComparatorError::InvalidArgument),
        Some(Some(None)) => Ok(Seq::empty()),
        Some(Some(Some(name))) => match f.ident {
            None => Err(ComparatorError::NamedFieldsOnly),
            Some(id) => Ok(comparator_text(ident, name@, id@)),
        },
    }
}

/// The comparators of the fields `fs` in order, or the error of the first field refused.
pub open spec fn comparators_text(ident: Seq<char>, fs: Seq<Field>) -> Result<Seq<char>, ComparatorError>
    decreases fs.len(),
{
    if fs.len() == 0 {
        Ok(Seq::empty())
    } else {
        match comparators_text(ident, fs.drop_last()) {
            Err(e) => Err(e),
            Ok(t) => match field_comparator(ident, fs.last()) {
                Err(e) => Err(e),
                Ok(m) => Ok(t + m),
            },
        }
    }
}

/// Every field is processed, in order: on fields `a` then `b`, the result is the
/// first refusal met in `a`, else in `b`, else the comparators of `a` followed by
/// those of `b`.
pub proof fn lemma_comparators_text_concat(ident: Seq<char>, a: Seq<Field>, b: Seq<Field>)
    ensures
        comparators_text(ident, a + b) == match comparators_text(ident, a) {
            Err(e) => Err(e),
            Ok(x) => match comparators_text(ident, b) {
                Err(e) => Err(e),
                Ok(y) => Ok(x + y),
            },
        },
    decreases b.len(),
{
    if b.len() == 0 {
        assert(a + b =~= a);
        if let Ok(x) = comparators_text(ident, a) {
            assert(x + Seq::<char>::empty() =~= x);
        }
    } else {
        assert((a + b).drop_last() =~= a + b.drop_last());
        assert((a + b).last() == b.last());
        lemma_comparators_text_concat(ident, a, b.drop_last());
        if let Ok(x) = comparators_text(ident, a) {
            if let Ok(y) = comparators_text(ident, b.drop_last()) {
                if let Ok(m) = field_comparator(ident, b.last()) {
                    assert(x + y + m =~= x + (y + m));
                }
            }
        }
    }
}

/// The comparators of one field are the comparator it asks for.
pub proof fn lemma_comparators_text_one(ident: Seq<char>, f: Field)
    ensures
        comparators_text(ident, seq![f]) == field_comparator(ident, f),
{
    assert(seq![f].drop_last() =~= Seq::<Field>::empty());
    assert(comparators_text(ident, seq![f].drop_last()) == Ok::<Seq<char>, ComparatorError>(Seq::empty()));
    assert(seq![f].last() == f);
    if let Ok(m) = field_comparator(ident, f) {
        assert(Seq::<char>::empty() + m =~= m);
    }
}

/// Where, among `attrs`, the marker that the expansion reads stands.
fn find_compare_marker(attrs: &Vec<Attribute>) -> (r: Option<Option<usize>>)
    ensures
        match compare_marker(attrs@) {
            None => r == None::<Option<usize>>,
            Some(None) => r == Some(None::<usize>),
            Some(Some(x)) => r matches Some(Some(i)) && i < attrs@.len() && attrs@[i as int].path_arg
                == Some(crate::syntax::PathArg { ident: x }),
        },
{
    let n = attrs.len();
    let mut found: Option<usize> = None;
    let mut k: usize = 0;
    assert(attrs@.skip(0) =~= attrs@);
    while k < n
        invariant
            n == attrs@.len(),
            k <= n,
            found matches Some(i) ==> i < n && attrs@[i as int].path_arg is Some,
            compare_marker(attrs@) == match compare_marker(attrs@.skip(k as int)) {
                None => match found {
                    None => None,
                    Some(i) => Some(Some(attrs@[i as int].path_arg->0.ident)),
                },
                later => later,
            },
        decreases n - k,
    {
        let ghost rest = attrs@.skip(k as int);
        assert(rest[0] == attrs@[k as int]);
        assert(rest.drop_first() =~= attrs@.skip(k + 1));
        let a = &attrs[k];
        let helper = match &a.path_ident {
            Some(p) => text_is(p, "extract_compare"),
            None => false,
        };
        if helper {
            match &a.path_arg {
                None => {
                    return Some(None);
                },
                Some(_) => {
                    found = Some(k);
                },
            }
        }
        k = k + 1;
    }
    assert(attrs@.skip(n as int) =~= Seq::<Attribute>::empty());
    match found {
        None => None,
        Some(i) => Some(Some(i)),
    }
}

/// Appends the associated function `name` of the item `ident` that orders by the field `f`.
fn append_comparator(r: &mut String, ident: &String, name: &String, f: &String)
    ensures
        final(r)@ == old(r)@ + comparator_text(ident@, name@, f@),
{
    r.append("\nimpl ");
    r.append(ident.as_str());
    r.append(" {\n    #[inline(always)]\n    pub fn ");
    r.append(name.as_str());
    r.append("(a: &Self, b: &Self) -> core::cmp::Ordering {\n        a.");
    r.append(f.as_str());
    r.append(".cmp(&b.");
    r.append(f.as_str());
    r.append(")\n    }\n}");
}

/// Appends the comparator that the field `f` of the item `ident` asks for.
fn append_field_comparator(r: &mut String, ident: &String, f: &Field) -> (res: Result<(), ComparatorError>)
    ensures
        match field_comparator(ident@, *f) {
            Ok(t) => res is Ok && final(r)@ == old(r)@ + t,
            Err(e) => res == Err::<(), ComparatorError>(e),
        },
{
    assert(old(r)@ + Seq::<char>::empty() =~= old(r)@);
    match find_compare_marker(&f.attrs) {
        None => Ok(()),
        Some(None) => Err(ComparatorError::InvalidArgument),
        Some(Some(i)) => match &f.attrs[i].path_arg {
            Some(p) => match &p.ident {
                None => Ok(()),
                Some(name) => match &f.ident {
                    None => Err(ComparatorError::NamedFieldsOnly),
                    Some(id) => {
                        append_comparator(r, ident, name, id);
                        Ok(())
                    },
                },
            },
            None => Err(ComparatorError::InvalidArgument),
        },
    }
}

/// Once a field is refused, the comparators of every longer prefix are refused the same way.
proof fn lemma_comparators_error_persists(ident: Seq<char>, fs: Seq<Field>, k: int)
    requires
        0 <= k <= fs.len(),
        comparators_text(ident, fs.take(k)) is Err,
    ensures
        comparators_text(ident, fs) == comparators_text(ident, fs.take(k)),
    decreases fs.len() - k,
{
    if k < fs.len() {
        assert(fs.take(k + 1).drop_last() =~= fs.take(k));
        lemma_comparators_error_persists(ident, fs, k + 1);
    } else {
        assert(fs.take(k) =~= fs);
    }
}

/// The comparators of the fields `fs` of the item `ident`.
fn fields_comparators(ident: &String, fs: &Vec<Field>) -> (res: Result<String, ComparatorError>)
    ensures
        match comparators_text(ident@, fs@) {
            Ok(t) => res matches Ok(s) && s@ == t,
            Err(e) => res == Err::<String, ComparatorError>(e),
        },
{
    let mut r = String::new();
    assert(fs@.take(0) =~= Seq::<Field>::empty());
    for k in 0..fs.len()
        invariant
            comparators_text(ident@, fs@.take(k as int)) == Ok::<Seq<char>, ComparatorError>(r@),
    {
        assert(fs@.take(k + 1).drop_last() =~= fs@.take(k as int));
        match append_field_comparator(&mut r, ident, &fs[k]) {
            Ok(()) => {},
            Err(e) => {
                proof {
                    lemma_comparators_error_persists(ident@, fs@, k + 1);
                }
                return Err(e);
            },
        }
    }
    assert(fs@.take(fs@.len() as int) =~= fs@);
    Ok(r)
}

/// A field without `extract_compare` attributes asks for no comparator.
proof fn lemma_unmarked_attrs(attrs: Seq<Attribute>)
    requires
        unmarked(attrs, "extract_compare"@),
    ensures
        compare_marker(attrs) is None,
    decreases attrs.len(),
{
    if attrs.len() > 0 {
        lemma_unmarked_rest(attrs, "extract_compare"@);
        lemma_unmarked_attrs(attrs.drop_first());
    }
}

/// Fields without `extract_compare` attributes ask for no comparators.
proof fn lemma_unmarked_fields(ident: Seq<char>, fs: Seq<Field>)
    requires
        fields_unmarked(fs, "extract_compare"@),
    ensures
        comparators_text(ident, fs) == Ok::<Seq<char>, ComparatorError>(Seq::empty()),
    decreases fs.len(),
{
    if fs.len() > 0 {
        lemma_fields_unmarked_split(fs, "extract_compare"@);
        lemma_unmarked_fields(ident, fs.drop_last());
        lemma_unmarked_attrs(fs.last().attrs@);
        assert(Seq::<char>::empty() + Seq::<char>::empty() =~= Seq::<char>::empty());
    }
}

/// Attributes that are not `extract_compare` markers do not change which marker
/// is read: one standing before the others, or after them, leaves the reading as
/// it is.
pub proof fn lemma_compare_marker_skips_other_attributes(a: Attribute, attrs: Seq<Attribute>)
    requires
        !is_helper(a, "extract_compare"@),
    ensures
        compare_marker(seq![a] + attrs) == compare_marker(attrs),
        compare_marker(attrs + seq![a]) == compare_marker(attrs),
    decreases attrs.len(),
{
    assert((seq![a] + attrs).drop_first() =~= attrs);
    if attrs.len() > 0 {
        assert((attrs + seq![a]).drop_first() =~= attrs.drop_first() + seq![a]);
        lemma_compare_marker_skips_other_attributes(a, attrs.drop_first());
    } else {
        assert(attrs + seq![a] =~= seq![a]);
        assert(seq![a].drop_first() =~= Seq::<Attribute>::empty());
    }
}

/// How the marker of a field is read from its attributes, whatever their order:
/// none exactly when no attribute is an `extract_compare` marker; a refusal
/// exactly when some marker's argument does not read as a path; else the
/// identifier of the path of a marker after which no other marker stands (the
/// last one).
pub proof fn lemma_compare_marker_reads_markers(attrs: Seq<Attribute>)
    ensures
        compare_marker(attrs) is None <==> (forall|j: int|
            0 <= j < attrs.len() ==> !is_helper(#[trigger] attrs[j], "extract_compare"@)),
        compare_marker(attrs) == Some(None::<Option<String>>) <==> (exists|j: int|
            0 <= j < attrs.len() && is_helper(#[trigger] attrs[j], "extract_compare"@)
                && attrs[j].path_arg is None),
        compare_marker(attrs) matches Some(Some(id)) ==> (exists|j: int|
            0 <= j < attrs.len() && is_helper(#[trigger] attrs[j], "extract_compare"@)
                && attrs[j].path_arg == Some(PathArg { ident: id })
                && (forall|k: int| j < k < attrs.len() ==> !is_helper(#[trigger] attrs[k], "extract_compare"@))),
    decreases attrs.len(),
{
    if attrs.len() > 0 {
        let rest = attrs.drop_first();
        lemma_compare_marker_reads_markers(rest);
        assert forall|j: int| 0 <= j < rest.len() implies #[trigger] rest[j] == attrs[j + 1] by {}
        if (forall|j: int| 0 <= j < attrs.len() ==> !is_helper(#[trigger] attrs[j], "extract_compare"@)) {
            assert(!is_helper(attrs[0], "extract_compare"@));
            assert forall|j: int| 0 <= j < rest.len() implies !is_helper(#[trigger] rest[j], "extract_compare"@) by {
                assert(!is_helper(attrs[j + 1], "extract_compare"@));
            }
        }
        if exists|j: int| 0 <= j < rest.len() && is_helper(#[trigger] rest[j], "extract_compare"@) && rest[j].path_arg is None {
            let j = choose|j: int| 0 <= j < rest.len() && is_helper(#[trigger] rest[j], "extract_compare"@) && rest[j].path_arg is None;
            assert(is_helper(attrs[j + 1], "extract_compare"@));
        }
        if exists|j: int| 0 <= j < attrs.len() && is_helper(#[trigger] attrs[j], "extract_compare"@) && attrs[j].path_arg is None {
            let j = choose|j: int| 0 <= j < attrs.len() && is_helper(#[trigger] attrs[j], "extract_compare"@) && attrs[j].path_arg is None;
            if j > 0 {
                assert(is_helper(rest[j - 1], "extract_compare"@));
            }
        }
        if exists|j: int| 0 <= j < rest.len() && is_helper(#[trigger] rest[j], "extract_compare"@) {
            let j = choose|j: int| 0 <= j < rest.len() && is_helper(#[trigger] rest[j], "extract_compare"@);
            assert(is_helper(attrs[j + 1], "extract_compare"@));
        }
        match compare_marker(rest) {
            Some(Some(id)) => {
                let j = choose|j: int|
                    0 <= j < rest.len() && is_helper(#[trigger] rest[j], "extract_compare"@)
                        && rest[j].path_arg == Some(PathArg { ident: id })
                        && (forall|k: int| j < k < rest.len() ==> !is_helper(#[trigger] rest[k], "extract_compare"@));
                assert(is_helper(attrs[j + 1], "extract_compare"@));
                assert forall|k: int| j + 1 < k < attrs.len() implies !is_helper(#[trigger] attrs[k], "extract_compare"@) by {
                    assert(!is_helper(rest[k - 1], "extract_compare"@));
                }
            },
            None => {
                assert forall|k: int| 0 < k < attrs.len() implies !is_helper(#[trigger] attrs[k], "extract_compare"@) by {
                    assert(!is_helper(rest[k - 1], "extract_compare"@));
                }
            },
            _ => {},
        }
    }
}

/// The item that `extract_comparators` re-emits carries no `extract_compare`
/// markers, so expanding it again generates no comparators.
pub proof fn lemma_reexpansion_generates_no_comparators(d: DeriveItem, e: DeriveItem)
    requires
        item_stripped(d, e, "extract_compare"@),
    ensures
        comparators_text(e.ident@, fields_of(e)) == Ok::<Seq<char>, ComparatorError>(Seq::empty()),
{
    lemma_stripped_fields_have_no_helpers(d, e, "extract_compare"@);
    lemma_unmarked_fields(e.ident@, fields_of(e));
}

/// The attribute `extract_compare` by itself re-emits the text of the item it stands on unchanged.
pub fn extract_compare(_args_text: &str, input_text: &str) -> (r: String)
    ensures
        r@ == input_text@,
{
    String::from_str(input_text)
}

/// The comparators that the fields of `input` ask for, or the error of the first field refused.
fn item_comparators(input: &DeriveItem) -> (res: Result<String, ComparatorError>)
    ensures
        match comparators_text(input.ident@, fields_of(*input)) {
            Ok(t) => res matches Ok(s) && s@ == t,
            Err(e) => res == Err::<String, ComparatorError>(e),
        },
{
    match &input.data {
        Data::Struct(Fields::Named(fs)) => fields_comparators(&input.ident, fs),
        Data::Struct(Fields::Unnamed(fs)) => fields_comparators(&input.ident, fs),
        _ => Ok(String::new()),
    }
}

/// Whether `#[extract_comparators]` accepts `input`: the error of the first field
/// whose marker it refuses, if any.
pub fn check_comparators(input: &DeriveItem) -> (r: Result<(), ComparatorError>)
    ensures
        match comparators_text(input.ident@, fields_of(*input)) {
            Ok(_) => r is Ok,
            Err(e) => r == Err::<(), ComparatorError>(e),
        },
{
    match item_comparators(input) {
        Ok(_) => Ok(()),
        Err(e) => Err(e),
    }
}

/// `r` is an expansion of `#[extract_comparators]`, with the arguments `args`, on
/// `input`: the item without its `extract_compare` markers, and the comparators
/// that its fields name. The arguments play no part.
pub open spec fn comparators_expansion(args: Seq<char>, input: DeriveItem, r: Expansion) -> bool {
    &&& item_stripped(input, r.item, "extract_compare"@)
    &&& comparators_text(input.ident@, fields_of(input)) matches Ok(t) && r.generated@ == t
}

/// The expansion of `#[extract_comparators]` does not depend on its arguments:
/// what one argument text expands an item to, every other one does too.
pub proof fn lemma_comparators_ignore_arguments(args1: Seq<char>, args2: Seq<char>, input: DeriveItem, r: Expansion)
    requires
        comparators_expansion(args1, input, r),
    ensures
        comparators_expansion(args2, input, r),
{
}

/// Expands `#[extract_comparators]` on `input`, which it accepts: the item without
/// its `extract_compare` markers, and for each marked field, in order, an
/// inherent `impl` of the item holding the comparator it names. The attribute's
/// own tokens are not read.
pub fn extract_comparators(args_text: &str, input: DeriveItem) -> (r: Expansion)
    requires
        comparators_text(input.ident@, fields_of(input)) is Ok,
    ensures
        comparators_expansion(args_text@, input, r),
{
    let generated = match item_comparators(&input) {
        Ok(g) => g,
        Err(_) => String::new(),
    };
    let item = strip_item(input, "extract_compare");
    Expansion { item, generated }
}

} // verus!
