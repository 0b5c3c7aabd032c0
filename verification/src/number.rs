//! Numeric behaviour derived from one field of a struct.
//!
//! `#[extract_number(field)]` on a struct yields negation, the arithmetic and
//! compound-assignment operators (between two values, and with a scalar of the
//! field's type), equality, partial order, `Sum`, `Product` and
//! `num_traits::Zero` / `One`, all acting on `field` alone: the other fields of
//! a result are those of the left operand, or their defaults where there is none.
//! The struct itself is re-emitted unchanged.

use vstd::prelude::*;
use crate::expansion::Expansion;
use crate::render::{append_where, where_text};
use crate::syntax::{Data, DeriveItem, Field, Fields, Generics, PathArg};
use crate::text::{append_terminated, terminated};

verus! {

/// One argument of `#[extract_number(...)]`, read as an expression.
#[derive(Debug, PartialEq, Eq)]
pub enum NumberArg {
    /// A path.
    Path(PathArg),
    /// Any other expression.
    Other,
}

/// Why `#[extract_number(...)]` was refused.
#[derive(Debug, PartialEq, Eq)]
pub enum NumberError {
    /// There is not exactly one argument.
    ArgumentCount,
    /// The argument is not a single identifier.
    ExpectedIdentifier,
    /// The item is not a struct with a named field of that name.
    NoSuchField(String),
}

/// The message with which the expansion fails on `e`.
pub open spec fn number_error_message(e: NumberError) -> Seq<char> {
    match e {
        NumberError::ArgumentCount => "expected exactly one argument: #[extract_number(field)]"@,
        NumberError::ExpectedIdentifier => "expected identifier in #[extract_number(field)]"@,
        NumberError::NoSuchField(f) => "no named field `"@ + f@ + "` in #[extract_number(field)]"@,
    }
}

impl NumberError {
    /// The message with which the expansion fails.
    pub fn message(&self) -> (r: String)
        ensures
            r@ == number_error_message(*self),
    {
        match self {
            NumberError::ArgumentCount => String::from_str(
                "expected exactly one argument: #[extract_number(field)]",
            ),
            NumberError::ExpectedIdentifier => String::from_str(
                "expected identifier in #[extract_number(field)]",
            ),
            NumberError::NoSuchField(f) => {
                let mut r = String::from_str("no named field `");
                r.append(f.as_str());
                r.append("` in #[extract_number(field)]");
                r
            },
        }
    }
}

/// The field that the arguments select: the one argument, when it is a single identifier.
pub open spec fn selected_field(args: Seq<NumberArg>) -> Result<String, NumberError> {
    if args.len() != 1 {
        Err(NumberError::ArgumentCount)
    } else {
        match args[0] {
            NumberArg::Path(p) => match p.ident {
                Some(id) => Ok(id),
                None => Err(NumberError::ExpectedIdentifier),
            },
            NumberArg::Other => Err(NumberError::ExpectedIdentifier),
        }
    }
}

/// The type of the first field of `fs` named `name`.
pub open spec fn field_type(fs: Seq<Field>, name: Seq<char>) -> Option<String>
    decreases fs.len(),
{
    if fs.len() == 0 {
        None
    } else if fs[0].ident matches Some(id) && id@ == name {
        Some(fs[0].ty)
    } else {
        field_type(fs.drop_first(), name)
    }
}

/// The type read for `name` is that of a field of that name, wherever it stands
/// among the fields, with no field of that name before it; there is none exactly
/// when no field has that name.
pub proof fn lemma_field_type_finds_the_field(fs: Seq<Field>, name: Seq<char>)
    ensures
        field_type(fs, name) is None <==> (forall|j: int|
            0 <= j < fs.len() ==> !(#[trigger] fs[j].ident matches Some(id) && id@ == name)),
        field_type(fs, name) matches Some(ty) ==> (exists|j: int|
            0 <= j < fs.len() && (#[trigger] fs[j].ident matches Some(id) && id@ == name) && fs[j].ty == ty
                && (forall|k: int| 0 <= k < j ==> !(#[trigger] fs[k].ident matches Some(id) && id@ == name))),
    decreases fs.len(),
{
    if fs.len() > 0 {
        let rest = fs.drop_first();
        lemma_field_type_finds_the_field(rest, name);
        assert forall|j: int| 0 <= j < rest.len() implies #[trigger] rest[j] == fs[j + 1] by {}
        if fs[0].ident matches Some(id) && id@ == name {
            assert(fs[0].ident matches Some(id) && id@ == name);
        } else {
            if field_type(rest, name) is None {
                assert forall|j: int| 0 <= j < fs.len() implies !(#[trigger] fs[j].ident matches Some(id) && id@ == name) by {
                    if j > 0 {
                        assert(rest[j - 1] == fs[j]);
                    }
                }
            } else {
                let j = choose|j: int|
                    0 <= j < rest.len() && (#[trigger] rest[j].ident matches Some(id) && id@ == name)
                        && rest[j].ty == field_type(rest, name)->Some_0
                        && (forall|k: int| 0 <= k < j ==> !(#[trigger] rest[k].ident matches Some(id) && id@ == name));
                assert(fs[j + 1] == rest[j]);
                assert forall|k: int| 0 <= k < j + 1 implies !(#[trigger] fs[k].ident matches Some(id) && id@ == name) by {
                    if k > 0 {
                        assert(rest[k - 1] == fs[k]);
                    }
                }
            }
        }
    }
}

/// The named fields of `d`, none when `d` is not a struct with named fields.
pub open spec fn named_fields_of(d: DeriveItem) -> Seq<Field> {
    match d.data {
        Data::Struct(Fields::Named(fs)) => fs@,
        _ => Seq::empty(),
    }
}

/// The start of a where clause: ` where`, then the item's predicates each followed by a comma.
pub open spec fn where_head(g: Generics) -> Seq<char> {
    " where "@ + terminated(g.where_predicates@, ", "@)
}

/// Every bounded impl opens a where clause, whether or not the item has one:
/// its head is ` where ` followed by the item's own predicates, each followed by
/// a comma, so that the bound written after it always stands in a where clause.
pub proof fn lemma_where_head_opens_a_where_clause(g: Generics)
    ensures
        where_head(g).len() >= 7,
        where_head(g).subrange(0, 7) == " where "@,
        where_head(g).skip(7) == terminated(g.where_predicates@, ", "@),
        g.where_predicates@.len() == 0 ==> where_head(g) == " where "@,
        g.where_predicates@.len() > 0 ==> where_head(g) == where_text(g.where_predicates@),
{
    reveal_strlit(" where ");
    let w = " where "@;
    let t = terminated(g.where_predicates@, ", "@);
    assert((w + t).subrange(0, 7) =~= w);
    assert((w + t).skip(7) =~= t);
    if g.where_predicates@.len() == 0 {
        assert(t =~= Seq::<char>::empty());
        assert(w + t =~= w);
    }
}

/// The head of an impl of the trait `tr` for the item `s` with generics `g`.
pub open spec fn impl_head(s: Seq<char>, g: Generics, tr: Seq<char>) -> Seq<char> {
    "\nimpl"@ + g.impl_generics@ + " "@ + tr + " for "@ + s + g.ty_generics@
}

/// Negation of the field `f`.
pub open spec fn neg_text(s: Seq<char>, g: Generics, f: Seq<char>) -> Seq<char> {
    impl_head(s, g, "::std::ops::Neg"@) + where_text(g.where_predicates@)
        + " {\n    type Output = Self;\n    fn neg(self) -> Self {\n        Self { "@ + f
        + ": -self."@ + f + ", ..self }\n    }\n}"@
}

/// The operator `op` of the trait `::std::ops::tr` (method `m`) between two values,
/// applied to the field `f` of type `ty`.
pub open spec fn binary_text(
    s: Seq<char>,
    g: Generics,
    f: Seq<char>,
    ty: Seq<char>,
    tr: Seq<char>,
    m: Seq<char>,
    op: Seq<char>,
) -> Seq<char> {
    impl_head(s, g, "::std::ops::"@ + tr) + where_head(g) + ty + ": ::std::ops::"@ + tr
        + "<Output = "@ + ty + ">"@ + " {\n    type Output = Self;\n    fn "@ + m
        + "(self, other: Self) -> Self {\n        Self { "@ + f + ": self."@ + f + " "@ + op
        + " other."@ + f + ", ..self }\n    }\n}"@
}

/// The operator `op` of the trait `::std::ops::tr<ty>` (method `m`) between a value
/// and a scalar of the type `ty` of the field `f`.
pub open spec fn scalar_text(
    s: Seq<char>,
    g: Generics,
    f: Seq<char>,
    ty: Seq<char>,
    tr: Seq<char>,
    m: Seq<char>,
    op: Seq<char>,
) -> Seq<char> {
    impl_head(s, g, "::std::ops::"@ + tr + "<"@ + ty + ">"@) + where_head(g) + ty
        + ": ::std::ops::"@ + tr + "<Output = "@ + ty + ">"@ + " {\n    type Output = Self;\n    fn "@
        + m + "(self, other: "@ + ty + ") -> Self {\n        Self { "@ + f + ": self."@ + f + " "@
        + op + " other, ..self }\n    }\n}"@
}

/// The compound assignment `op` of the trait `::std::ops::tr` (method `m`) between
/// two values, applied to the field `f` of type `ty`.
pub open spec fn assign_text(
    s: Seq<char>,
    g: Generics,
    f: Seq<char>,
    ty: Seq<char>,
    tr: Seq<char>,
    m: Seq<char>,
    op: Seq<char>,
) -> Seq<char> {
    impl_head(s, g, "::std::ops::"@ + tr) + where_head(g) + ty + ": ::std::ops::"@ + tr
        + " {\n    fn "@ + m + "(&mut self, other: Self) {\n        self."@ + f + " "@ + op
        + " other."@ + f + ";\n    }\n}"@
}

/// The compound assignment `op` of the trait `::std::ops::tr<ty>` (method `m`) with a
/// scalar of the type `ty` of the field `f`.
pub open spec fn scalar_assign_text(
    s: Seq<char>,
    g: Generics,
    f: Seq<char>,
    ty: Seq<char>,
    tr: Seq<char>,
    m: Seq<char>,
    op: Seq<char>,
) -> Seq<char> {
    impl_head(s, g, "::std::ops::"@ + tr + "<"@ + ty + ">"@) + where_head(g) + ty
        + ": ::std::ops::"@ + tr + " {\n    fn "@ + m + "(&mut self, other: "@ + ty
        + ") {\n        self."@ + f + " "@ + op + " other;\n    }\n}"@
}

/// Equality by the field `f` of type `ty`.
pub open spec fn eq_text(s: Seq<char>, g: Generics, f: Seq<char>, ty: Seq<char>) -> Seq<char> {
    impl_head(s, g, "::std::cmp::PartialEq"@) + where_head(g) + ty + ": ::std::cmp::PartialEq"@
        + " {\n    fn eq(&self, other: &Self) -> bool {\n        self."@ + f + " == other."@ + f
        + "\n    }\n}"@
}

/// Partial order by the field `f` of type `ty`.
pub open spec fn partial_order_text(s: Seq<char>, g: Generics, f: Seq<char>, ty: Seq<char>) -> Seq<char> {
    impl_head(s, g, "::std::cmp::PartialOrd"@) + where_head(g) + ty + ": ::std::cmp::PartialOrd"@
        + " {\n    fn partial_cmp(&self, other: &Self) -> Option<::std::cmp::Ordering> {\n        self."@
        + f + ".partial_cmp(&other."@ + f + ")\n    }\n}"@
}

/// The fold `::std::iter::tr` (method `m`) of values by the field `f` of type `ty`,
/// the other fields at their defaults.
pub open spec fn fold_text(
    s: Seq<char>,
    g: Generics,
    f: Seq<char>,
    ty: Seq<char>,
    tr: Seq<char>,
    m: Seq<char>,
) -> Seq<char> {
    impl_head(s, g, "::std::iter::"@ + tr) + where_head(g) + ty + ": ::std::iter::"@ + tr + ", "@
        + s + g.ty_generics@ + ": ::std::default::Default"@ + " {\n    fn "@ + m
        + "<I: Iterator<Item = Self>>(iter: I) -> Self {\n        let total = iter.map(|x| x."@ + f
        + ")."@ + m + "();\n        Self { "@ + f + ": total, ..Default::default() }\n    }\n}"@
}

/// `num_traits::Zero` by the field `f` of type `ty`, the other fields at their defaults.
pub open spec fn zero_text(s: Seq<char>, g: Generics, f: Seq<char>, ty: Seq<char>) -> Seq<char> {
    impl_head(s, g, "::num_traits::Zero"@) + where_head(g) + ty + ": ::num_traits::Zero, "@ + s
        + g.ty_generics@ + ": ::std::default::Default"@ + " {\n    fn zero() -> Self {\n        Self { "@
        + f + ": <"@ + ty
        + " as ::num_traits::Zero>::zero(), ..Default::default() }\n    }\n    fn is_zero(&self) -> bool {\n        ::num_traits::Zero::is_zero(&self."@
        + f + ")\n    }\n}"@
}

/// `num_traits::One` by the field `f` of type `ty`, the other fields at their defaults.
pub open spec fn one_text(s: Seq<char>, g: Generics, f: Seq<char>, ty: Seq<char>) -> Seq<char> {
    impl_head(s, g, "::num_traits::One"@) + where_head(g) + ty + ": ::num_traits::One, "@ + s
        + g.ty_generics@ + ": ::std::default::Default"@ + " {\n    fn one() -> Self {\n        Self { "@
        + f + ": <"@ + ty + " as ::num_traits::One>::one(), ..Default::default() }\n    }\n}"@
}

/// All the impls generated for the field `f` of type `ty` of the struct `s`.
#[verifier::opaque]
pub open spec fn number_impls_text(s: Seq<char>, g: Generics, f: Seq<char>, ty: Seq<char>) -> Seq<char> {
    neg_text(s, g, f) + binary_text(s, g, f, ty, "Add"@, "add"@, "+"@) + binary_text(
        s,
        g,
        f,
        ty,
        "Sub"@,
        "sub"@,
        "-"@,
    ) + binary_text(s, g, f, ty, "Mul"@, "mul"@, "*"@) + binary_text(s, g, f, ty, "Div"@, "div"@, "/"@)
        + scalar_text(s, g, f, ty, "Mul"@, "mul"@, "*"@) + scalar_text(s, g, f, ty, "Div"@, "div"@, "/"@)
        + assign_text(s, g, f, ty, "AddAssign"@, "add_assign"@, "+="@) + assign_text(
        s,
        g,
        f,
        ty,
        "SubAssign"@,
        "sub_assign"@,
        "-="@,
    ) + assign_text(s, g, f, ty, "MulAssign"@, "mul_assign"@, "*="@) + scalar_assign_text(
        s,
        g,
        f,
        ty,
        "MulAssign"@,
        "mul_assign"@,
        "*="@,
    ) + assign_text(s, g, f, ty, "DivAssign"@, "div_assign"@, "/="@) + scalar_assign_text(
        s,
        g,
        f,
        ty,
        "DivAssign"@,
        "div_assign"@,
        "/="@,
    ) + eq_text(s, g, f, ty) + partial_order_text(s, g, f, ty) + fold_text(
        s,
        g,
        f,
        ty,
        "Sum"@,
        "sum"@,
    ) + fold_text(s, g, f, ty, "Product"@, "product"@) + zero_text(s, g, f, ty) + one_text(
        s,
        g,
        f,
        ty,
    )
}

/// Appends the start of a where clause holding the predicates of `g`.
fn append_where_head(r: &mut String, g: &Generics)
    ensures
        final(r)@ == old(r)@ + where_head(*g),
{
    r.append(" where ");
    append_terminated(r, &g.where_predicates, ", ");
}

/// Appends the head of an impl of the trait `tr` for the item `s`.
fn append_impl_head(r: &mut String, s: &String, g: &Generics, tr: &str)
    ensures
        final(r)@ == old(r)@ + impl_head(s@, *g, tr@),
{
    r.append("\nimpl");
    r.append(g.impl_generics.as_str());
    r.append(" ");
    r.append(tr);
    r.append(" for ");
    r.append(s.as_str());
    r.append(g.ty_generics.as_str());
}

/// `a` followed by `b`.
fn joined(a: &str, b: &str) -> (r: String)
    ensures
        r@ == a@ + b@,
{
    let mut r = String::from_str(a);
    r.append(b);
    r
}

/// Appends the negation of the field `f`.
fn append_neg(r: &mut String, s: &String, g: &Generics, f: &String)
    ensures
        final(r)@ == old(r)@ + neg_text(s@, *g, f@),
{
    append_impl_head(r, s, g, "::std::ops::Neg");
    append_where(r, &g.where_predicates);
    r.append(" {\n    type Output = Self;\n    fn neg(self) -> Self {\n        Self { ");
    r.append(f.as_str());
    r.append(": -self.");
    r.append(f.as_str());
    r.append(", ..self }\n    }\n}");
}

/// Appends the operator `op` between two values.
fn append_binary(r: &mut String, s: &String, g: &Generics, f: &String, ty: &String, tr: &str, m: &str, op: &str)
    ensures
        final(r)@ == old(r)@ + binary_text(s@, *g, f@, ty@, tr@, m@, op@),
{
    let head = joined("::std::ops::", tr);
    append_impl_head(r, s, g, head.as_str());
    append_where_head(r, g);
    r.append(ty.as_str());
    r.append(": ::std::ops::");
    r.append(tr);
    r.append("<Output = ");
    r.append(ty.as_str());
    r.append(">");
    r.append(" {\n    type Output = Self;\n    fn ");
    r.append(m);
    r.append("(self, other: Self) -> Self {\n        Self { ");
    r.append(f.as_str());
    r.append(": self.");
    r.append(f.as_str());
    r.append(" ");
    r.append(op);
    r.append(" other.");
    r.append(f.as_str());
    r.append(", ..self }\n    }\n}");
}

/// Appends the operator `op` between a value and a scalar.
fn append_scalar(r: &mut String, s: &String, g: &Generics, f: &String, ty: &String, tr: &str, m: &str, op: &str)
    ensures
        final(r)@ == old(r)@ + scalar_text(s@, *g, f@, ty@, tr@, m@, op@),
{
    let mut head = joined("::std::ops::", tr);
    head.append("<");
    head.append(ty.as_str());
    head.append(">");
    append_impl_head(r, s, g, head.as_str());
    append_where_head(r, g);
    r.append(ty.as_str());
    r.append(": ::std::ops::");
    r.append(tr);
    r.append("<Output = ");
    r.append(ty.as_str());
    r.append(">");
    r.append(" {\n    type Output = Self;\n    fn ");
    r.append(m);
    r.append("(self, other: ");
    r.append(ty.as_str());
    r.append(") -> Self {\n        Self { ");
    r.append(f.as_str());
    r.append(": self.");
    r.append(f.as_str());
    r.append(" ");
    r.append(op);
    r.append(" other, ..self }\n    }\n}");
}

/// Appends the compound assignment `op` between two values.
fn append_assign(r: &mut String, s: &String, g: &Generics, f: &String, ty: &String, tr: &str, m: &str, op: &str)
    ensures
        final(r)@ == old(r)@ + assign_text(s@, *g, f@, ty@, tr@, m@, op@),
{
    let head = joined("::std::ops::", tr);
    append_impl_head(r, s, g, head.as_str());
    append_where_head(r, g);
    r.append(ty.as_str());
    r.append(": ::std::ops::");
    r.append(tr);
    r.append(" {\n    fn ");
    r.append(m);
    r.append("(&mut self, other: Self) {\n        self.");
    r.append(f.as_str());
    r.append(" ");
    r.append(op);
    r.append(" other.");
    r.append(f.as_str());
    r.append(";\n    }\n}");
}

/// Appends the compound assignment `op` with a scalar.
fn append_scalar_assign(
    r: &mut String,
    s: &String,
    g: &Generics,
    f: &String,
    ty: &String,
    tr: &str,
    m: &str,
    op: &str,
)
    ensures
        final(r)@ == old(r)@ + scalar_assign_text(s@, *g, f@, ty@, tr@, m@, op@),
{
    let mut head = joined("::std::ops::", tr);
    head.append("<");
    head.append(ty.as_str());
    head.append(">");
    append_impl_head(r, s, g, head.as_str());
    append_where_head(r, g);
    r.append(ty.as_str());
    r.append(": ::std::ops::");
    r.append(tr);
    r.append(" {\n    fn ");
    r.append(m);
    r.append("(&mut self, other: ");
    r.append(ty.as_str());
    r.append(") {\n        self.");
    r.append(f.as_str());
    r.append(" ");
    r.append(op);
    r.append(" other;\n    }\n}");
}

/// Appends equality by the field `f`.
fn append_eq(r: &mut String, s: &String, g: &Generics, f: &String, ty: &String)
    ensures
        final(r)@ == old(r)@ + eq_text(s@, *g, f@, ty@),
{
    append_impl_head(r, s, g, "::std::cmp::PartialEq");
    append_where_head(r, g);
    r.append(ty.as_str());
    r.append(": ::std::cmp::PartialEq");
    r.append(" {\n    fn eq(&self, other: &Self) -> bool {\n        self.");
    r.append(f.as_str());
    r.append(" == other.");
    r.append(f.as_str());
    r.append("\n    }\n}");
}

/// Appends the partial order by the field `f`.
fn append_partial_order(r: &mut String, s: &String, g: &Generics, f: &String, ty: &String)
    ensures
        final(r)@ == old(r)@ + partial_order_text(s@, *g, f@, ty@),
{
    append_impl_head(r, s, g, "::std::cmp::PartialOrd");
    append_where_head(r, g);
    r.append(ty.as_str());
    r.append(": ::std::cmp::PartialOrd");
    r.append(
        " {\n    fn partial_cmp(&self, other: &Self) -> Option<::std::cmp::Ordering> {\n        self.",
    );
    r.append(f.as_str());
    r.append(".partial_cmp(&other.");
    r.append(f.as_str());
    r.append(")\n    }\n}");
}

/// Appends the fold `tr` (method `m`) by the field `f`.
fn append_fold(r: &mut String, s: &String, g: &Generics, f: &String, ty: &String, tr: &str, m: &str)
    ensures
        final(r)@ == old(r)@ + fold_text(s@, *g, f@, ty@, tr@, m@),
{
    let head = joined("::std::iter::", tr);
    append_impl_head(r, s, g, head.as_str());
    append_where_head(r, g);
    r.append(ty.as_str());
    r.append(": ::std::iter::");
    r.append(tr);
    r.append(", ");
    r.append(s.as_str());
    r.append(g.ty_generics.as_str());
    r.append(": ::std::default::Default");
    r.append(" {\n    fn ");
    r.append(m);
    r.append("<I: Iterator<Item = Self>>(iter: I) -> Self {\n        let total = iter.map(|x| x.");
    r.append(f.as_str());
    r.append(").");
    r.append(m);
    r.append("();\n        Self { ");
    r.append(f.as_str());
    r.append(": total, ..Default::default() }\n    }\n}");
}

/// Appends `num_traits::Zero` by the field `f`.
fn append_zero(r: &mut String, s: &String, g: &Generics, f: &String, ty: &String)
    ensures
        final(r)@ == old(r)@ + zero_text(s@, *g, f@, ty@),
{
    append_impl_head(r, s, g, "::num_traits::Zero");
    append_where_head(r, g);
    r.append(ty.as_str());
    r.append(": ::num_traits::Zero, ");
    r.append(s.as_str());
    r.append(g.ty_generics.as_str());
    r.append(": ::std::default::Default");
    r.append(" {\n    fn zero() -> Self {\n        Self { ");
    r.append(f.as_str());
    r.append(": <");
    r.append(ty.as_str());
    r.append(
        " as ::num_traits::Zero>::zero(), ..Default::default() }\n    }\n    fn is_zero(&self) -> bool {\n        ::num_traits::Zero::is_zero(&self.",
    );
    r.append(f.as_str());
    r.append(")\n    }\n}");
}

/// Appends `num_traits::One` by the field `f`.
fn append_one(r: &mut String, s: &String, g: &Generics, f: &String, ty: &String)
    ensures
        final(r)@ == old(r)@ + one_text(s@, *g, f@, ty@),
{
    append_impl_head(r, s, g, "::num_traits::One");
    append_where_head(r, g);
    r.append(ty.as_str());
    r.append(": ::num_traits::One, ");
    r.append(s.as_str());
    r.append(g.ty_generics.as_str());
    r.append(": ::std::default::Default");
    r.append(" {\n    fn one() -> Self {\n        Self { ");
    r.append(f.as_str());
    r.append(": <");
    r.append(ty.as_str());
    r.append(" as ::num_traits::One>::one(), ..Default::default() }\n    }\n}");
}

/// All the impls generated for the field `f` of type `ty` of the struct `s`.
fn number_impls(s: &String, g: &Generics, f: &String, ty: &String) -> (r: String)
    ensures
        r@ == number_impls_text(s@, *g, f@, ty@),
{
    reveal(number_impls_text);
    let mut r = String::new();
    append_neg(&mut r, s, g, f);
    append_binary(&mut r, s, g, f, ty, "Add", "add", "+");
    append_binary(&mut r, s, g, f, ty, "Sub", "sub", "-");
    append_binary(&mut r, s, g, f, ty, "Mul", "mul", "*");
    append_binary(&mut r, s, g, f, ty, "Div", "div", "/");
    append_scalar(&mut r, s, g, f, ty, "Mul", "mul", "*");
    append_scalar(&mut r, s, g, f, ty, "Div", "div", "/");
    append_assign(&mut r, s, g, f, ty, "AddAssign", "add_assign", "+=");
    append_assign(&mut r, s, g, f, ty, "SubAssign", "sub_assign", "-=");
    append_assign(&mut r, s, g, f, ty, "MulAssign", "mul_assign", "*=");
    append_scalar_assign(&mut r, s, g, f, ty, "MulAssign", "mul_assign", "*=");
    append_assign(&mut r, s, g, f, ty, "DivAssign", "div_assign", "/=");
    append_scalar_assign(&mut r, s, g, f, ty, "DivAssign", "div_assign", "/=");
    append_eq(&mut r, s, g, f, ty);
    append_partial_order(&mut r, s, g, f, ty);
    append_fold(&mut r, s, g, f, ty, "Sum", "sum");
    append_fold(&mut r, s, g, f, ty, "Product", "product");
    append_zero(&mut r, s, g, f, ty);
    append_one(&mut r, s, g, f, ty);
    r
}

/// The field that the arguments select.
pub fn select_field(args: &Vec<NumberArg>) -> (r: Result<String, NumberError>)
    ensures
        r == selected_field(args@),
{
    if args.len() != 1 {
        return Err(NumberError::ArgumentCount);
    }
    match &args[0] {
        NumberArg::Path(p) => match &p.ident {
            Some(id) => Ok(id.clone()),
            None => Err(NumberError::ExpectedIdentifier),
        },
        NumberArg::Other => Err(NumberError::ExpectedIdentifier),
    }
}

/// The type of the first field of `fs` named `name`.
fn find_field_type(fs: &Vec<Field>, name: &String) -> (r: Option<String>)
    ensures
        r == field_type(fs@, name@),
{
    let n = fs.len();
    let mut k: usize = 0;
    assert(fs@.skip(0) =~= fs@);
    while k < n
        invariant
            n == fs@.len(),
            k <= n,
            field_type(fs@, name@) == field_type(fs@.skip(k as int), name@),
        decreases n - k,
    {
        let ghost rest = fs@.skip(k as int);
        assert(rest[0] == fs@[k as int]);
        assert(rest.drop_first() =~= fs@.skip(k + 1));
        if let Some(id) = &fs[k].ident {
            if id.eq(name) {
                return Some(fs[k].ty.clone());
            }
        }
        k = k + 1;
    }
    assert(fs@.skip(n as int) =~= Seq::<Field>::empty());
    None
}

/// What `#[extract_number(...)]` with arguments `args` refuses on `input`, if anything.
pub open spec fn number_refusal(args: Seq<NumberArg>, input: DeriveItem) -> Option<NumberError> {
    match selected_field(args) {
        Err(e) => Some(e),
        Ok(f) => match field_type(named_fields_of(input), f@) {
            None => Some(NumberError::NoSuchField(f)),
            Some(_) => None,
        },
    }
}

/// The field that `args` select and its type in `input`.
fn number_target(args: &Vec<NumberArg>, input: &DeriveItem) -> (r: Result<(String, String), NumberError>)
    ensures
        match number_refusal(args@, *input) {
            Some(e) => r == Err::<(String, String), NumberError>(e),
            None => r matches Ok((f, ty)) && selected_field(args@) == Ok::<String, NumberError>(f)
                && field_type(named_fields_of(*input), f@) == Some(ty),
        },
{
    let f = match select_field(args) {
        Ok(f) => f,
        Err(e) => {
            return Err(e);
        },
    };
    let ty = match &input.data {
        Data::Struct(Fields::Named(fs)) => find_field_type(fs, &f),
        _ => None,
    };
    match ty {
        None => Err(NumberError::NoSuchField(f)),
        Some(ty) => Ok((f, ty)),
    }
}

/// Whether `#[extract_number(...)]` with arguments `args` accepts `input`: what it
/// refuses, if anything.
pub fn check_number(args: &Vec<NumberArg>, input: &DeriveItem) -> (r: Result<(), NumberError>)
    ensures
        match number_refusal(args@, *input) {
            Some(e) => r == Err::<(), NumberError>(e),
            None => r is Ok,
        },
{
    match number_target(args, input) {
        Ok(_) => Ok(()),
        Err(e) => Err(e),
    }
}

/// Expands `#[extract_number(field)]` on `input`, which it accepts: the item
/// unchanged, and the numeric impls that act on `field`, whose type is that of
/// the struct's field of that name. The impls name that type, so the item must
/// have a named field `field`: where it has none, `check_number` refuses it with
/// `NumberError::NoSuchField`, and nothing is expanded (code that named a
/// missing field would not compile anyway).
pub fn extract_number(args: &Vec<NumberArg>, input: DeriveItem) -> (r: Expansion)
    requires
        number_refusal(args@, input) is None,
    ensures
        r.item == input,
        selected_field(args@) matches Ok(f) && field_type(named_fields_of(input), f@) matches Some(
            ty,
        ) && r.generated@ == number_impls_text(input.ident@, input.generics, f@, ty@),
{
    let (f, ty) = match number_target(args, &input) {
        Ok(p) => p,
        Err(_) => (String::new(), String::new()),
    };
    let generated = number_impls(&input.ident, &input.generics, &f, &ty);
    Expansion { item: input, generated }
}

} // verus!
