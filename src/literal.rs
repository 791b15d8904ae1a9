//! The value of a Rust string literal, read from its text, and the one outside
//! call that writes such a literal.

use vstd::prelude::*;

verus! {

/// The code points of a text, in order.
pub open spec fn code_points(s: Seq<char>) -> Seq<int> {
    s.map_values(|c: char| c as int)
}

/// The value of a hexadecimal digit, in either case.
pub open spec fn hex_digit_value(c: char) -> Option<int> {
    if '0' <= c && c <= '9' {
        Some(c as int - '0' as int)
    } else if 'a' <= c && c <= 'f' {
        Some(c as int - 'a' as int + 10)
    } else if 'A' <= c && c <= 'F' {
        Some(c as int - 'A' as int + 10)
    } else {
        None
    }
}

/// Whether `v` is a Unicode scalar value, the code point of some `char`.
pub open spec fn is_scalar_value(v: int) -> bool {
    (0 <= v < 0xD800) || (0xE000 <= v <= 0x10FFFF)
}

/// Reads hexadecimal digits of `s` from index `i` on, `acc` being the value
/// read so far, up to the first `}`: the value and the index of that brace.
pub open spec fn braced_hex(s: Seq<char>, i: int, acc: int) -> Option<(int, int)>
    decreases s.len() - i,
{
    if i < 0 || i >= s.len() {
        None
    } else if s[i] == '}' {
        Some((acc, i))
    } else {
        match hex_digit_value(s[i]) {
            Some(d) => braced_hex(s, i + 1, acc * 16 + d),
            None => None,
        }
    }
}

/// The code point that the escape at the start of `s` stands for, with the
/// number of characters the escape takes: `\n`, `\r`, `\t`, `\\`, `\'`, `\"`,
/// `\0`, `\x` with two hexadecimal digits up to 7F, or `\u{...}` with one to
/// six hexadecimal digits that make a scalar value.
pub open spec fn escape_value(s: Seq<char>) -> Option<(int, int)> {
    if s.len() < 2 || s[0] != '\\' {
        None
    } else {
        let e = s[1];
        if e == 'n' {
            Some((0x0A, 2))
        } else if e == 'r' {
            Some((0x0D, 2))
        } else if e == 't' {
            Some((0x09, 2))
        } else if e == '\\' || e == '\'' || e == '"' {
            Some((e as int, 2))
        } else if e == '0' {
            Some((0, 2))
        } else if e == 'x' {
            if s.len() >= 4 {
                match (hex_digit_value(s[2]), hex_digit_value(s[3])) {
                    (Some(hi), Some(lo)) => if hi <= 7 {
                        Some((hi * 16 + lo, 4))
                    } else {
                        None
                    },
                    _ => None,
                }
            } else {
                None
            }
        } else if e == 'u' && s.len() >= 3 && s[2] == '{' {
            match braced_hex(s, 3, 0) {
                Some((v, close)) => if 4 <= close <= 9 && is_scalar_value(v) {
                    Some((v, close + 1))
                } else {
                    None
                },
                None => None,
            }
        } else {
            None
        }
    }
}

/// The code points that the inside of a string literal stands for: each
/// character but `\` and `"` stands for itself, each escape for its value.
pub open spec fn unescape(body: Seq<char>) -> Option<Seq<int>>
    decreases body.len(),
{
    if body.len() == 0 {
        Some(Seq::empty())
    } else if body[0] == '"' {
        None
    } else if body[0] == '\\' {
        match escape_value(body) {
            Some((v, n)) => if 1 <= n <= body.len() {
                match unescape(body.skip(n)) {
                    Some(rest) => Some(seq![v] + rest),
                    None => None,
                }
            } else {
                None
            },
            None => None,
        }
    } else {
        match unescape(body.skip(1)) {
            Some(rest) => Some(seq![body[0] as int] + rest),
            None => None,
        }
    }
}

/// The code points that a double-quoted string literal stands for, or `None`
/// where `lit` is no such literal.
pub open spec fn literal_value(lit: Seq<char>) -> Option<Seq<int>> {
    if lit.len() >= 2 && lit[0] == '"' && lit[lit.len() - 1] == '"' {
        unescape(lit.subrange(1, lit.len() - 1))
    } else {
        None
    }
}

/// Relies on quote's `ToTokens` for `str`, which makes the token with
/// `proc_macro2::Literal::string`, and on the token stream's `Display`: the
/// text is a double-quoted string literal whose value is `s`.
#[verifier::external_body]
pub(crate) fn string_literal(s: &str) -> (r: String)
    ensures
        literal_value(r@) == Some(code_points(s@)),
{
    quote::ToTokens::to_token_stream(s).to_string()
}

} // verus!
