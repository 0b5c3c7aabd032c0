//! The expansions of the struct-level attributes from the text of their
//! arguments and of the item they stand on, as the compiler hands them over.
//!
//! The text is read into the model by syn (see `parse`), and nothing is stated
//! of what syn reads; what is stated is that the model is assembled from a
//! consistent reading of its parts. What each expansion does with the model it
//! reads is stated exactly: the refusal, or the source text it gives back.

use vstd::prelude::*;
use crate::accessors::{accessors_text, check_accessors, extract_accessors, AccessorError};
use crate::comparators::{check_comparators, comparators_text, extract_comparators, ComparatorError};
use crate::expansion::impl_block_text;
use crate::hashers::{check_hashers, extract_hashers, hashers_text, HasherError};
use crate::number::{
    NumberArg,
    check_number, extract_number, field_type, named_fields_of, number_impls_text, select_field,
    selected_field, NumberError,
};
use crate::parse::{item_assembled, parse_item, parse_number_args, parts_consistent, ItemParts};
use crate::render::item_text;
use crate::syntax::{fields_of, item_stripped, DeriveItem};

verus! {

/// Why an expansion produced no code.
#[derive(Debug, PartialEq, Eq)]
pub enum ExpandError<E> {
    /// The text does not read as the item (or the arguments) the attribute expects.
    Parse,
    /// The attribute refuses the item it stands on.
    Refused(E),
}

/// `r` is what `#[extract_accessors]` makes of the item `d`: the refusal of the
/// first refused field, if any; else the item without its `access` markers
/// followed by the accessors.
pub open spec fn accessors_outcome(d: DeriveItem, r: Result<String, ExpandError<AccessorError>>) -> bool {
    match accessors_text(fields_of(d)) {
        Err(e) => r == Err::<String, ExpandError<AccessorError>>(ExpandError::Refused(e)),
        Ok(t) => exists|e: DeriveItem|
            #![trigger item_text(e)]
            item_stripped(d, e, "access"@) && (r matches Ok(out) && out@ == item_text(e)
                + impl_block_text(d.generics, d.ident@, t)),
    }
}

/// `r` is what `#[extract_comparators]` makes of the item `d`: the refusal of the
/// first refused field, if any; else the item without its `extract_compare`
/// markers followed by the comparators.
pub open spec fn comparators_outcome(d: DeriveItem, r: Result<String, ExpandError<ComparatorError>>) -> bool {
    match comparators_text(d.ident@, fields_of(d)) {
        Err(e) => r == Err::<String, ExpandError<ComparatorError>>(ExpandError::Refused(e)),
        Ok(t) => exists|e: DeriveItem|
            #![trigger item_text(e)]
            item_stripped(d, e, "extract_compare"@) && (r matches Ok(out) && out@ == item_text(e) + t),
    }
}

/// `r` is what `#[extract_hashers]` makes of the item `d`: the refusal of the
/// first refused field, if any; else the item without its `extract_hash` markers
/// followed by the wrappers and the methods that make them.
pub open spec fn hashers_outcome(d: DeriveItem, r: Result<String, ExpandError<HasherError>>) -> bool {
    match hashers_text(d.ident@, d.generics, fields_of(d)) {
        Err(e) => r == Err::<String, ExpandError<HasherError>>(ExpandError::Refused(e)),
        Ok((ws, ms)) => exists|e: DeriveItem|
            #![trigger item_text(e)]
            item_stripped(d, e, "extract_hash"@) && (r matches Ok(out) && out@ == item_text(e) + ws
                + impl_block_text(d.generics, d.ident@, ms)),
    }
}

/// `r` is the refusal of the arguments `args` of `#[extract_number(...)]`, which
/// are not one identifier.
pub open spec fn number_args_refused(args: Seq<NumberArg>, r: Result<String, ExpandError<NumberError>>) -> bool {
    selected_field(args) matches Err(e) && r == Err::<String, ExpandError<NumberError>>(
        ExpandError::Refused(e),
    )
}

/// `r` is what `#[extract_number(...)]` with the arguments `args`, which name a
/// field, makes of the item `d`: a refusal where `d` has no named field of that
/// name; else the item followed by the numeric impls of that field.
pub open spec fn number_outcome(args: Seq<NumberArg>, d: DeriveItem, r: Result<String, ExpandError<NumberError>>) -> bool {
    match selected_field(args) {
        Err(_) => false,
        Ok(f) => match field_type(named_fields_of(d), f@) {
            None => r == Err::<String, ExpandError<NumberError>>(
                ExpandError::Refused(NumberError::NoSuchField(f)),
            ),
            Some(ty) => r matches Ok(out) && out@ == item_text(d) + number_impls_text(
                d.ident@,
                d.generics,
                f@,
                ty@,
            ),
        },
    }
}

/// Expands `#[extract_accessors]` on the item whose text is `input_text`: a parse
/// error where syn does not read the text as an item; else what the attribute
/// makes of the item read.
pub fn expand_accessors(args_text: &str, input_text: &str) -> (r: Result<String, ExpandError<AccessorError>>)
    ensures
        r == Err::<String, ExpandError<AccessorError>>(ExpandError::Parse) || exists|p: ItemParts, d: DeriveItem|
            #[trigger] item_assembled(p, d) && parts_consistent(p) && accessors_outcome(d, r),
{
    let d = match parse_item(input_text) {
        Some(d) => d,
        None => {
            return Err(ExpandError::Parse);
        },
    };
    let ghost d0 = d;
    let ghost p = choose|p: ItemParts| item_assembled(p, d0) && parts_consistent(p);
    match check_accessors(&d) {
        Err(e) => {
            let r = Err(ExpandError::Refused(e));
            assert(item_assembled(p, d0) && parts_consistent(p) && accessors_outcome(d0, r));
            r
        },
        Ok(()) => {
            let x = extract_accessors(args_text, d);
            assert(item_stripped(d0, x.item, "access"@));
            let r = Ok(x.source());
            assert(item_assembled(p, d0) && parts_consistent(p) && accessors_outcome(d0, r));
            r
        },
    }
}

/// Expands `#[extract_comparators]` on the item whose text is `input_text`: a
/// parse error where syn does not read the text as an item; else what the
/// attribute makes of the item read.
pub fn expand_comparators(args_text: &str, input_text: &str) -> (r: Result<String, ExpandError<ComparatorError>>)
    ensures
        r == Err::<String, ExpandError<ComparatorError>>(ExpandError::Parse) || exists|p: ItemParts, d: DeriveItem|
            #[trigger] item_assembled(p, d) && parts_consistent(p) && comparators_outcome(d, r),
{
    let d = match parse_item(input_text) {
        Some(d) => d,
        None => {
            return Err(ExpandError::Parse);
        },
    };
    let ghost d0 = d;
    let ghost p = choose|p: ItemParts| item_assembled(p, d0) && parts_consistent(p);
    match check_comparators(&d) {
        Err(e) => {
            let r = Err(ExpandError::Refused(e));
            assert(item_assembled(p, d0) && parts_consistent(p) && comparators_outcome(d0, r));
            r
        },
        Ok(()) => {
            let x = extract_comparators(args_text, d);
            assert(item_stripped(d0, x.item, "extract_compare"@));
            let r = Ok(x.source());
            assert(item_assembled(p, d0) && parts_consistent(p) && comparators_outcome(d0, r));
            r
        },
    }
}

/// Expands `#[extract_hashers]` on the item whose text is `input_text`: a parse
/// error where syn does not read the text as an item; else what the attribute
/// makes of the item read.
pub fn expand_hashers(args_text: &str, input_text: &str) -> (r: Result<String, ExpandError<HasherError>>)
    ensures
        r == Err::<String, ExpandError<HasherError>>(ExpandError::Parse) || exists|p: ItemParts, d: DeriveItem|
            #[trigger] item_assembled(p, d) && parts_consistent(p) && hashers_outcome(d, r),
{
    let d = match parse_item(input_text) {
        Some(d) => d,
        None => {
            return Err(ExpandError::Parse);
        },
    };
    let ghost d0 = d;
    let ghost p = choose|p: ItemParts| item_assembled(p, d0) && parts_consistent(p);
    match check_hashers(&d) {
        Err(e) => {
            let r = Err(ExpandError::Refused(e));
            assert(item_assembled(p, d0) && parts_consistent(p) && hashers_outcome(d0, r));
            r
        },
        Ok(()) => {
            let x = extract_hashers(args_text, d);
            assert(item_stripped(d0, x.item, "extract_hash"@));
            let s = x.source();
            proof {
                let (ws, ms) = hashers_text(d0.ident@, d0.generics, fields_of(d0))->Ok_0;
                assert(s@ =~= item_text(x.item) + ws + impl_block_text(d0.generics, d0.ident@, ms));
            }
            let r = Ok(s);
            assert(item_assembled(p, d0) && parts_consistent(p) && hashers_outcome(d0, r));
            r
        },
    }
}

/// Expands `#[extract_number(...)]` with arguments of text `args_text` on the item
/// whose text is `input_text`, in the order the attribute checks them: a parse
/// error where syn does not read the arguments; else the refusal of arguments
/// that are not one identifier; else a parse error where syn does not read the
/// item; else what the attribute makes of the item read.
pub fn expand_number(args_text: &str, input_text: &str) -> (r: Result<String, ExpandError<NumberError>>)
    ensures
        r == Err::<String, ExpandError<NumberError>>(ExpandError::Parse) || (exists|args: Seq<NumberArg>|
            #[trigger] number_args_refused(args, r)) || exists|args: Seq<NumberArg>, p: ItemParts, d: DeriveItem|
            #![trigger item_assembled(p, d), number_outcome(args, d, r)]
            item_assembled(p, d) && parts_consistent(p) && number_outcome(args, d, r),
{
    let args = match parse_number_args(args_text) {
        Some(a) => a,
        None => {
            return Err(ExpandError::Parse);
        },
    };
    match select_field(&args) {
        Err(e) => {
            let r = Err(ExpandError::Refused(e));
            assert(number_args_refused(args@, r));
            return r;
        },
        Ok(_) => {},
    }
    let d = match parse_item(input_text) {
        Some(d) => d,
        None => {
            return Err(ExpandError::Parse);
        },
    };
    let ghost d0 = d;
    let ghost p = choose|p: ItemParts| item_assembled(p, d0) && parts_consistent(p);
    match check_number(&args, &d) {
        Err(e) => {
            let r = Err(ExpandError::Refused(e));
            assert(item_assembled(p, d0) && parts_consistent(p) && number_outcome(args@, d0, r));
            r
        },
        Ok(()) => {
            let x = extract_number(&args, d);
            assert(x.item == d0);
            let r = Ok(x.source());
            assert(item_assembled(p, d0) && parts_consistent(p) && number_outcome(args@, d0, r));
            r
        },
    }
}

} // verus!
