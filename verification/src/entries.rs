//! Compile-time checks that the variants of an enum exist in base enums.
//!
//! `base_entries` re-emits an enum together with a module that declares one unit
//! struct per variant; `same_entries` re-emits an enum together with a module
//! that names, for each listed base enum, the struct of each of its own
//! variants in that base's module, so that the item compiles only when every
//! variant exists in every base.

use vstd::prelude::*;
use crate::text::{split_on, split_trimmed, text_is, trim};
use crate::tokens::{is_ident, Delimiter, TokenTree};

verus! {

/// Why an enum could not be checked.
#[derive(Debug, PartialEq, Eq)]
pub enum EntriesError {
    /// The item holds no identifier after the keyword `enum`.
    EnumNameNotFound,
}

impl EntriesError {
    /// The message with which the expansion fails.
    pub fn message(&self) -> (r: String)
        ensures
            r@ == "Could not find enum name"@,
    {
        String::from_str("Could not find enum name")
    }
}

/// The name of the enum: the token after the first `enum` identifier, when that
/// token is an identifier.
pub open spec fn enum_name(toks: Seq<TokenTree>) -> Option<String>
    decreases toks.len(),
{
    if toks.len() == 0 {
        None
    } else if is_ident(toks[0], "enum"@) {
        if toks.len() > 1 {
            match toks[1] {
                TokenTree::Ident(name) => Some(name),
                _ => None,
            }
        } else {
            None
        }
    } else {
        enum_name(toks.drop_first())
    }
}

/// The identifiers among `toks`, in order.
pub open spec fn idents_of(toks: Seq<TokenTree>) -> Seq<String>
    decreases toks.len(),
{
    if toks.len() == 0 {
        Seq::empty()
    } else {
        let init = idents_of(toks.drop_last());
        match toks.last() {
            TokenTree::Ident(s) => init.push(s),
            _ => init,
        }
    }
}

/// The variants of the enum: the identifiers directly inside each brace-delimited
/// group of the item, in order.
pub open spec fn variants(toks: Seq<TokenTree>) -> Seq<String>
    decreases toks.len(),
{
    if toks.len() == 0 {
        Seq::empty()
    } else {
        let init = variants(toks.drop_last());
        match toks.last() {
            TokenTree::Group(Delimiter::Brace, inner) => init + idents_of(inner@),
            _ => init,
        }
    }
}

/// The name of the module that `base_entries` declares for the enum `name`.
pub open spec fn base_module_name(name: Seq<char>) -> Seq<char> {
    "__BASE_ENTRIES_"@ + name
}

/// The declaration of the unit struct `v`.
pub open spec fn struct_decl(v: String) -> Seq<char> {
    "\n    pub struct "@ + v@ + ";"@
}

/// One unit struct declaration per name.
pub open spec fn struct_decls(names: Seq<String>) -> Seq<char>
    decreases names.len(),
{
    if names.len() == 0 {
        Seq::empty()
    } else {
        struct_decls(names.drop_last()) + struct_decl(names.last())
    }
}

/// The module that `base_entries` appends for the enum `name` with variants `vs`.
pub open spec fn base_module_text(name: Seq<char>, vs: Seq<String>) -> Seq<char> {
    "\npub mod __BASE_ENTRIES_"@ + name + " {"@ + struct_decls(vs) + "\n}"@
}

/// A function that names the struct of the variant `v` in the module of the base `base`.
pub open spec fn variant_check(base: Seq<char>, v: String) -> Seq<char> {
    "\n    fn _check_"@ + v@ + "_from_"@ + base + "() { let _ : __BASE_ENTRIES_"@ + base + "::"@ + v@
        + "; }"@
}

/// For the base `base`, one check per variant.
pub open spec fn variant_checks(base: Seq<char>, vs: Seq<String>) -> Seq<char>
    decreases vs.len(),
{
    if vs.len() == 0 {
        Seq::empty()
    } else {
        variant_checks(base, vs.drop_last()) + variant_check(base, vs.last())
    }
}

/// The import of the module of the base `b`.
pub open spec fn base_import(b: String) -> Seq<char> {
    "\n    use super::__BASE_ENTRIES_"@ + b@ + ";"@
}

/// For each base, an import of its module and the checks of all variants.
pub open spec fn base_checks(bases: Seq<String>, vs: Seq<String>) -> Seq<char>
    decreases bases.len(),
{
    if bases.len() == 0 {
        Seq::empty()
    } else {
        base_checks(bases.drop_last(), vs) + base_import(bases.last()) + variant_checks(
            bases.last()@,
            vs,
        )
    }
}

/// The module that `same_entries` appends for the enum `name`.
pub open spec fn check_module_text(name: Seq<char>, bases: Seq<String>, vs: Seq<String>) -> Seq<
    char,
> {
    "\nmod __same_entries_check_"@ + name + " {"@ + base_checks(bases, vs) + "\n}"@
}

/// The base enums that an attribute's text lists: its pieces between commas,
/// each trimmed of white space.
pub open spec fn listed_bases(attr: Seq<char>) -> Seq<Seq<char>> {
    split_on(attr, ',').map_values(|p: Seq<char>| trim(p))
}

proof fn lemma_struct_decls_split(vs: Seq<String>, i: int) -> (r: (Seq<char>, Seq<char>))
    requires
        0 <= i < vs.len(),
    ensures
        struct_decls(vs) == r.0 + struct_decl(vs[i]) + r.1,
    decreases vs.len(),
{
    if i == vs.len() - 1 {
        let r = (struct_decls(vs.drop_last()), Seq::<char>::empty());
        assert(struct_decls(vs) =~= r.0 + struct_decl(vs[i]) + r.1);
        r
    } else {
        let (p, q) = lemma_struct_decls_split(vs.drop_last(), i);
        assert(vs.drop_last()[i] == vs[i]);
        let r = (p, q + struct_decl(vs.last()));
        assert(struct_decls(vs) =~= r.0 + struct_decl(vs[i]) + r.1);
        r
    }
}

proof fn lemma_variant_checks_split(base: Seq<char>, vs: Seq<String>, i: int) -> (r: (Seq<char>, Seq<char>))
    requires
        0 <= i < vs.len(),
    ensures
        variant_checks(base, vs) == r.0 + variant_check(base, vs[i]) + r.1,
    decreases vs.len(),
{
    if i == vs.len() - 1 {
        let r = (variant_checks(base, vs.drop_last()), Seq::<char>::empty());
        assert(variant_checks(base, vs) =~= r.0 + variant_check(base, vs[i]) + r.1);
        r
    } else {
        let (p, q) = lemma_variant_checks_split(base, vs.drop_last(), i);
        assert(vs.drop_last()[i] == vs[i]);
        let r = (p, q + variant_check(base, vs.last()));
        assert(variant_checks(base, vs) =~= r.0 + variant_check(base, vs[i]) + r.1);
        r
    }
}

proof fn lemma_base_checks_split(bases: Seq<String>, vs: Seq<String>, j: int) -> (r: (Seq<char>, Seq<char>))
    requires
        0 <= j < bases.len(),
    ensures
        base_checks(bases, vs) == r.0 + base_import(bases[j]) + variant_checks(bases[j]@, vs) + r.1,
    decreases bases.len(),
{
    if j == bases.len() - 1 {
        let r = (base_checks(bases.drop_last(), vs), Seq::<char>::empty());
        assert(base_checks(bases, vs) =~= r.0 + base_import(bases[j]) + variant_checks(bases[j]@, vs)
            + r.1);
        r
    } else {
        let (p, q) = lemma_base_checks_split(bases.drop_last(), vs, j);
        assert(bases.drop_last()[j] == bases[j]);
        let r = (p, q + base_import(bases.last()) + variant_checks(bases.last()@, vs));
        assert(base_checks(bases, vs) =~= r.0 + base_import(bases[j]) + variant_checks(bases[j]@, vs)
            + r.1);
        r
    }
}

/// The module that `base_entries` appends declares a unit struct for each
/// variant of the enum.
pub proof fn lemma_base_module_declares_each_variant(name: Seq<char>, vs: Seq<String>, i: int)
    requires
        0 <= i < vs.len(),
    ensures
        exists|pre: Seq<char>, post: Seq<char>|
            base_module_text(name, vs) == pre + struct_decl(vs[i]) + post,
{
    let (p, q) = lemma_struct_decls_split(vs, i);
    let pre = "\npub mod __BASE_ENTRIES_"@ + name + " {"@ + p;
    let post = q + "\n}"@;
    assert(base_module_text(name, vs) =~= pre + struct_decl(vs[i]) + post);
}

/// The module that `same_entries` appends checks every variant of the enum
/// against every listed base: after importing the module of a base, it names the
/// struct of each variant in that module.
pub proof fn lemma_check_module_checks_each_pair(
    name: Seq<char>,
    bases: Seq<String>,
    vs: Seq<String>,
    j: int,
    i: int,
)
    requires
        0 <= j < bases.len(),
        0 <= i < vs.len(),
    ensures
        exists|pre: Seq<char>, mid: Seq<char>, post: Seq<char>|
            check_module_text(name, bases, vs) == pre + base_import(bases[j]) + mid + variant_check(
                bases[j]@,
                vs[i],
            ) + post,
{
    let (p, q) = lemma_base_checks_split(bases, vs, j);
    let (m, n) = lemma_variant_checks_split(bases[j]@, vs, i);
    let pre = "\nmod __same_entries_check_"@ + name + " {"@ + p;
    let post = n + q + "\n}"@;
    assert(check_module_text(name, bases, vs) =~= pre + base_import(bases[j]) + m + variant_check(
        bases[j]@,
        vs[i],
    ) + post);
}

/// The name of the enum declared in `item`.
fn find_enum_name(item: &Vec<TokenTree>) -> (r: Option<String>)
    ensures
        r == enum_name(item@),
{
    let n = item.len();
    let mut i: usize = 0;
    assert(item@.skip(0) =~= item@);
    while i < n
        invariant
            n == item@.len(),
            i <= n,
            enum_name(item@) == enum_name(item@.skip(i as int)),
        decreases n - i,
    {
        let ghost rest = item@.skip(i as int);
        assert(rest[0] == item@[i as int]);
        assert(rest.drop_first() =~= item@.skip(i + 1));
        if let TokenTree::Ident(word) = &item[i] {
            if text_is(word, "enum") {
                if i + 1 < n {
                    assert(rest[1] == item@[i + 1]);
                    if let TokenTree::Ident(name) = &item[i + 1] {
                        return Some(name.clone());
                    }
                }
                return None;
            }
        }
        i = i + 1;
    }
    assert(item@.skip(n as int) =~= Seq::<TokenTree>::empty());
    None
}

/// The identifiers among `toks`, in order.
fn collect_idents(toks: &Vec<TokenTree>, out: &mut Vec<String>)
    ensures
        final(out)@ == old(out)@ + idents_of(toks@),
{
    let ghost start = out@;
    assert(toks@.take(0) =~= Seq::<TokenTree>::empty());
    for k in 0..toks.len()
        invariant
            out@ == start + idents_of(toks@.take(k as int)),
    {
        assert(toks@.take(k + 1).drop_last() =~= toks@.take(k as int));
        if let TokenTree::Ident(s) = &toks[k] {
            out.push(s.clone());
        }
    }
    assert(toks@.take(toks@.len() as int) =~= toks@);
}

/// The variants of the enum in `item`.
fn collect_variants(item: &Vec<TokenTree>) -> (r: Vec<String>)
    ensures
        r@ == variants(item@),
{
    let mut r: Vec<String> = Vec::new();
    assert(item@.take(0) =~= Seq::<TokenTree>::empty());
    for k in 0..item.len()
        invariant
            r@ == variants(item@.take(k as int)),
    {
        assert(item@.take(k + 1).drop_last() =~= item@.take(k as int));
        if let TokenTree::Group(Delimiter::Brace, inner) = &item[k] {
            collect_idents(inner, &mut r);
        }
    }
    assert(item@.take(item@.len() as int) =~= item@);
    r
}

/// The module text that `base_entries` appends for the enum `name`.
fn base_module(name: &String, vs: &Vec<String>) -> (r: String)
    ensures
        r@ == base_module_text(name@, vs@),
{
    let mut r = String::from_str("\npub mod __BASE_ENTRIES_");
    r.append(name.as_str());
    r.append(" {");
    let ghost head = r@;
    assert(vs@.take(0) =~= Seq::<String>::empty());
    for k in 0..vs.len()
        invariant
            r@ == head + struct_decls(vs@.take(k as int)),
    {
        assert(vs@.take(k + 1).drop_last() =~= vs@.take(k as int));
        r.append("\n    pub struct ");
        r.append(vs[k].as_str());
        r.append(";");
    }
    assert(vs@.take(vs@.len() as int) =~= vs@);
    r.append("\n}");
    r
}

/// The checks, for the base `base`, of each variant in `vs`.
fn append_variant_checks(r: &mut String, base: &String, vs: &Vec<String>)
    ensures
        final(r)@ == old(r)@ + variant_checks(base@, vs@),
{
    let ghost head = r@;
    assert(vs@.take(0) =~= Seq::<String>::empty());
    for k in 0..vs.len()
        invariant
            r@ == head + variant_checks(base@, vs@.take(k as int)),
    {
        assert(vs@.take(k + 1).drop_last() =~= vs@.take(k as int));
        r.append("\n    fn _check_");
        r.append(vs[k].as_str());
        r.append("_from_");
        r.append(base.as_str());
        r.append("() { let _ : __BASE_ENTRIES_");
        r.append(base.as_str());
        r.append("::");
        r.append(vs[k].as_str());
        r.append("; }");
    }
    assert(vs@.take(vs@.len() as int) =~= vs@);
}

/// The module text that `same_entries` appends for the enum `name`.
fn check_module(name: &String, bases: &Vec<String>, vs: &Vec<String>) -> (r: String)
    ensures
        r@ == check_module_text(name@, bases@, vs@),
{
    let mut r = String::from_str("\nmod __same_entries_check_");
    r.append(name.as_str());
    r.append(" {");
    let ghost head = r@;
    assert(bases@.take(0) =~= Seq::<String>::empty());
    for k in 0..bases.len()
        invariant
            r@ == head + base_checks(bases@.take(k as int), vs@),
    {
        assert(bases@.take(k + 1).drop_last() =~= bases@.take(k as int));
        r.append("\n    use super::__BASE_ENTRIES_");
        r.append(bases[k].as_str());
        r.append(";");
        append_variant_checks(&mut r, &bases[k], vs);
    }
    assert(bases@.take(bases@.len() as int) =~= bases@);
    r.append("\n}");
    r
}

/// Whether the entries attributes accept `item`: an error when the item names no enum.
pub fn check_entries(item: &Vec<TokenTree>) -> (r: Result<(), EntriesError>)
    ensures
        match enum_name(item@) {
            Some(_) => r is Ok,
            None => r == Err::<(), EntriesError>(EntriesError::EnumNameNotFound),
        },
{
    match find_enum_name(item) {
        Some(_) => Ok(()),
        None => Err(EntriesError::EnumNameNotFound),
    }
}

/// Re-emits the enum `item` (whose source text is `item_text`) followed by a
/// module `__BASE_ENTRIES_<name>` that declares one unit struct per variant.
/// The attribute's own tokens are not read.
pub fn base_entries(_attr: &Vec<TokenTree>, item: &Vec<TokenTree>, item_text: &String) -> (r: String)
    requires
        enum_name(item@) is Some,
    ensures
        enum_name(item@) matches Some(name) && r@ == item_text@ + base_module_text(
            name@,
            variants(item@),
        ),
{
    let name = match find_enum_name(item) {
        Some(name) => name,
        None => String::new(),
    };
    let vs = collect_variants(item);
    let module = base_module(&name, &vs);
    let mut out = item_text.clone();
    out.append(module.as_str());
    out
}

/// Re-emits the enum `item` (whose source text is `item_text`) followed by a
/// module `__same_entries_check_<name>` that, for each base enum listed in the
/// attribute text `attr_text` (separated by commas), imports the base's module
/// and names the struct of each of this enum's variants in it.
pub fn same_entries(attr_text: &String, item: &Vec<TokenTree>, item_text: &String) -> (r: String)
    requires
        enum_name(item@) is Some,
    ensures
        enum_name(item@) matches Some(name) && exists|bases: Seq<String>|
            {
                &&& bases.map_values(|b: String| b@) == listed_bases(attr_text@)
                &&& r@ == item_text@ + check_module_text(name@, bases, variants(item@))
            },
{
    let bases = split_trimmed(attr_text.as_str(), ',');
    let name = match find_enum_name(item) {
        Some(name) => name,
        None => String::new(),
    };
    let vs = collect_variants(item);
    let module = check_module(&name, &bases, &vs);
    let mut out = item_text.clone();
    out.append(module.as_str());
    proof {
        assert(bases@.map_values(|b: String| b@) =~= listed_bases(attr_text@));
    }
    out
}

} // verus!
