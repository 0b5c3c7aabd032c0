//! A model of the token trees that an attribute macro receives.

use vstd::prelude::*;

verus! {

/// How a group of tokens is delimited.
#[derive(Debug, PartialEq, Eq)]
pub enum Delimiter {
    /// `( ... )`
    Parenthesis,
    /// `{ ... }`
    Brace,
    /// `[ ... ]`
    Bracket,
    /// A group without visible delimiters.
    Invisible,
}

/// One token tree: a delimited group of token trees, an identifier, a punctuation
/// character or a literal, each identifier and literal held by its source text.
#[derive(Debug, PartialEq, Eq)]
pub enum TokenTree {
    Group(Delimiter, Vec<TokenTree>),
    Ident(String),
    Punct(char),
    Literal(String),
}

/// Whether `t` is the identifier spelled `word`.
pub open spec fn is_ident(t: TokenTree, word: Seq<char>) -> bool {
    match t {
        TokenTree::Ident(s) => s@ == word,
        _ => false,
    }
}

} // verus!
