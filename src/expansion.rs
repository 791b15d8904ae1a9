//! The two expansions, over plain text: what is printed and what is emitted.

use vstd::prelude::*;

use crate::literal::{code_points, literal_value, string_literal};

verus! {

/// What a macro call does while it expands: the text it prints, if any, and
/// the source text that takes the call's place.
#[derive(Clone, Debug, PartialEq, Eq)]
pub struct Expansion {
    pub printed: Option<String>,
    pub emitted: String,
}

/// The start of the declaration, up to its value.
pub open spec fn item_const_head() -> Seq<char> {
    "const ITEM_SRC: &'static str = "@
}

/// The declaration `const ITEM_SRC: &'static str = <literal>;`.
pub open spec fn item_const_text(literal: Seq<char>) -> Seq<char> {
    item_const_head() + literal + seq![';']
}

/// The value that a declaration of the form `item_const_text` gives to
/// `ITEM_SRC`, as code points; `None` for any other text.
pub open spec fn declared_value(decl: Seq<char>) -> Option<Seq<int>> {
    let head = item_const_head();
    if decl.len() >= head.len() + 1 && decl.subrange(0, head.len() as int) == head
        && decl[decl.len() - 1] == ';' {
        literal_value(decl.subrange(head.len() as int, decl.len() - 1))
    } else {
        None
    }
}

/// A declaration built around a string literal declares exactly the value of
/// that literal.
pub proof fn lemma_declared_value(literal: Seq<char>)
    ensures
        declared_value(item_const_text(literal)) == literal_value(literal),
{
    let head = item_const_head();
    let decl = item_const_text(literal);
    assert(decl.subrange(0, head.len() as int) =~= head);
    assert(decl.subrange(head.len() as int, decl.len() - 1) =~= literal);
}

/// Declares `ITEM_SRC` with the given string literal as its value.
pub fn item_const_decl(literal: &str) -> (r: String)
    ensures
        r@ == item_const_text(literal@),
{
    let mut decl = String::from_str("const ITEM_SRC: &'static str = ");
    decl.append(literal);
    decl.append(";");
    proof {
        reveal_strlit(";");
    }
    decl
}

/// The expansion for an item whose source text is `item_src`: nothing is
/// printed, and a constant `ITEM_SRC` is declared whose value is that text.
pub fn make_item_const(item_src: &str) -> (r: Expansion)
    ensures
        r.printed is None,
        declared_value(r.emitted@) == Some(code_points(item_src@)),
{
    let literal = string_literal(item_src);
    let emitted = item_const_decl(literal.as_str());
    proof {
        lemma_declared_value(literal@);
    }
    Expansion { printed: None, emitted }
}

/// The expansion that reports an item: its source text `item_src` is
/// printed, and nothing takes the call's place.
pub fn print_foreign_item(item_src: &str) -> (r: Expansion)
    ensures
        r.printed matches Some(p) && p@ == item_src@,
        r.emitted@.len() == 0,
{
    Expansion { printed: Some(String::from_str(item_src)), emitted: String::new() }
}

} // verus!
