//! Field-driven code generation for Rust items.
//!
//! Each generator takes a model of the annotated item (its fields with their
//! helper attributes and the item's generics, or the token trees of an enum)
//! and produces the source text of the item as it is to be re-emitted, followed
//! by the code generated for it.

pub mod accessors;
pub mod comparators;
pub mod entries;
pub mod expand;
pub mod expansion;
pub mod hashers;
pub mod number;
pub mod parse;
pub mod render;
pub mod syntax;
pub mod text;
pub mod tokens;

pub use accessors::{access, extract_accessors};
pub use comparators::{extract_compare, extract_comparators};
pub use entries::{base_entries, same_entries};
pub use hashers::{extract_hash, extract_hashers};
pub use number::extract_number;
