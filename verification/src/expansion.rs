//! The result of an expansion, and the inherent `impl` blocks that expansions generate.

use vstd::prelude::*;
use crate::render::{append_where, item_text, render_item, where_text};
use crate::syntax::{DeriveItem, Generics};

verus! {

/// An inherent `impl` block of the item `ident` with generics `g` holding `body`.
pub open spec fn impl_block_text(g: Generics, ident: Seq<char>, body: Seq<char>) -> Seq<char> {
    "\nimpl"@ + g.impl_generics@ + " "@ + ident + g.ty_generics@ + where_text(g.where_predicates@)
        + " {"@ + body + "\n}"@
}

/// The result of an expansion: the item as re-emitted, and the code generated for it.
#[derive(Debug, PartialEq, Eq)]
pub struct Expansion {
    pub item: DeriveItem,
    pub generated: String,
}

impl Expansion {
    /// The source text of the expansion: the item, then the generated code.
    pub fn source(&self) -> (r: String)
        ensures
            r@ == item_text(self.item) + self.generated@,
    {
        let mut r = render_item(&self.item);
        r.append(self.generated.as_str());
        r
    }
}

/// Appends the inherent `impl` block of the item `ident` with generics `g` holding `body`.
pub fn append_impl_block(r: &mut String, g: &Generics, ident: &String, body: &String)
    ensures
        final(r)@ == old(r)@ + impl_block_text(*g, ident@, body@),
{
    r.append("\nimpl");
    r.append(g.impl_generics.as_str());
    r.append(" ");
    r.append(ident.as_str());
    r.append(g.ty_generics.as_str());
    append_where(r, &g.where_predicates);
    r.append(" {");
    r.append(body.as_str());
    r.append("\n}");
}

} // verus!
