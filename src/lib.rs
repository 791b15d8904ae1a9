//! Builds what two item-inspecting macros expand to: a `const` declaration that
//! holds an item's source text, and a report that prints it and emits nothing.

pub mod expansion;
pub mod literal;

pub use expansion::{item_const_decl, make_item_const, print_foreign_item, Expansion};
