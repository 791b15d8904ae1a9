use macros_crate::{item_const_decl, make_item_const, print_foreign_item, Expansion};

#[test]
fn item_const_decl_wraps_the_literal() {
    assert_eq!(
        item_const_decl("\"fn f () {}\""),
        "const ITEM_SRC: &'static str = \"fn f () {}\";"
    );
}

#[test]
fn item_const_decl_of_empty_literal() {
    assert_eq!(item_const_decl("\"\""), "const ITEM_SRC: &'static str = \"\";");
}

#[test]
fn make_item_const_declares_the_item_text() {
    let e = make_item_const("fn foo () -> u32 { 42 }");
    assert_eq!(e.printed, None);
    assert_eq!(
        e.emitted,
        "const ITEM_SRC: &'static str = \"fn foo () -> u32 { 42 }\";"
    );
}

#[test]
fn make_item_const_quotes_even_plain_text() {
    let e = make_item_const("x");
    assert_ne!(e.emitted, item_const_decl("x"));
    assert_eq!(e.emitted, "const ITEM_SRC: &'static str = \"x\";");
}

#[test]
fn make_item_const_of_empty_text() {
    let e = make_item_const("");
    assert_eq!(e.emitted, "const ITEM_SRC: &'static str = \"\";");
}

#[test]
fn make_item_const_escapes_quotes_and_backslashes() {
    let e = make_item_const("const S : & str = \"a\\b\" ;");
    assert_eq!(
        e.emitted,
        "const ITEM_SRC: &'static str = \"const S : & str = \\\"a\\\\b\\\" ;\";"
    );
}

#[test]
fn make_item_const_escapes_control_characters() {
    let e = make_item_const("a\nb\tc\rd");
    assert_eq!(e.emitted, "const ITEM_SRC: &'static str = \"a\\nb\\tc\\rd\";");
}

#[test]
fn make_item_const_escapes_nul() {
    let e = make_item_const("a\0b\x001");
    assert_eq!(e.emitted, "const ITEM_SRC: &'static str = \"a\\0b\\x001\";");
}

#[test]
fn make_item_const_keeps_single_quotes_and_non_ascii() {
    let e = make_item_const("'a' é");
    assert_eq!(e.emitted, "const ITEM_SRC: &'static str = \"'a' é\";");
}

#[test]
fn print_foreign_item_prints_and_emits_nothing() {
    let e = print_foreign_item("struct Foo { x : u8 }");
    assert_eq!(e.printed, Some(String::from("struct Foo { x : u8 }")));
    assert_eq!(e.emitted, "");
}

#[test]
fn print_foreign_item_of_empty_text() {
    let e = print_foreign_item("");
    assert_eq!(
        e,
        Expansion {
            printed: Some(String::new()),
            emitted: String::new()
        }
    );
}
