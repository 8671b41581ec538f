//! The grammar of a floating-point literal in decimal notation, as the
//! standard library's `FromStr` for `f32` and `f64` documents it:
//!
//! ```text
//! Float  ::= Sign? ( 'inf' | 'infinity' | 'nan' | Number )
//! Number ::= ( Digit+ | Digit+ '.' Digit* | Digit* '.' Digit+ ) Exp?
//! Exp    ::= 'e' Sign? Digit+
//! Sign   ::= [+-]
//! Digit  ::= [0-9]
//! ```
//!
//! Letters are accepted in either case. A text is a literal exactly when the
//! standard library converts it to a number, so a coordinate that this module
//! accepts can be kept as text and converted where an arithmetic value is
//! wanted.

use vstd::prelude::*;
use crate::text::{chars_of, copy_range, find, find_char, find_from};

verus! {

/// One of the ten decimal digits.
pub open spec fn is_digit(c: char) -> bool {
    '0' <= c <= '9'
}

/// Every character is a decimal digit. True of the empty text.
pub open spec fn all_digits(s: Seq<char>) -> bool {
    forall|i: int| 0 <= i < s.len() ==> is_digit(#[trigger] s[i])
}

/// `s` without its first character where that is a sign.
pub open spec fn without_sign(s: Seq<char>) -> Seq<char> {
    if s.len() > 0 && (s[0] == '+' || s[0] == '-') {
        s.skip(1)
    } else {
        s
    }
}

/// Digits with at most one decimal point among them, and at least one digit.
pub open spec fn is_mantissa(s: Seq<char>) -> bool {
    match find(s, '.') {
        None => s.len() > 0 && all_digits(s),
        Some(dot) => s.len() > 1 && all_digits(s.take(dot)) && all_digits(s.skip(dot + 1)),
    }
}

/// What may follow the exponent's letter: an optional sign and at least one
/// digit.
pub open spec fn is_exponent(s: Seq<char>) -> bool {
    without_sign(s).len() > 0 && all_digits(without_sign(s))
}

/// Index of the first `e` or `E`, or the length of `s` where there is none.
pub open spec fn exponent_mark(s: Seq<char>) -> int {
    let lower = find_from(s, 'e', 0);
    let upper = find_from(s, 'E', 0);
    if lower <= upper {
        lower
    } else {
        upper
    }
}

/// A mantissa, alone or followed by an exponent.
pub open spec fn is_number(s: Seq<char>) -> bool {
    let mark = exponent_mark(s);
    if mark < s.len() {
        is_mantissa(s.take(mark)) && is_exponent(s.skip(mark + 1))
    } else {
        is_mantissa(s)
    }
}

/// `s` spells the word given in lower and in upper case, each letter in
/// either case.
pub open spec fn is_word(s: Seq<char>, lower: Seq<char>, upper: Seq<char>) -> bool {
    &&& s.len() == lower.len()
    &&& forall|i: int| 0 <= i < s.len() ==> #[trigger] s[i] == lower[i] || s[i] == upper[i]
}

/// `s` spells `inf`, `infinity` or `nan`, each letter in either case.
pub open spec fn is_special(s: Seq<char>) -> bool {
    ||| is_word(s, "inf"@, "INF"@)
    ||| is_word(s, "infinity"@, "INFINITY"@)
    ||| is_word(s, "nan"@, "NAN"@)
}

/// `s` is a floating-point literal: an optional sign, then a number or one
/// of the three special words.
pub open spec fn is_float_literal(s: Seq<char>) -> bool {
    is_number(without_sign(s)) || is_special(without_sign(s))
}

/// Whether `c` is a decimal digit.
pub fn is_digit_char(c: char) -> (b: bool)
    ensures
        b == is_digit(c),
{
    '0' <= c && c <= '9'
}

/// Whether every character of `s` is a decimal digit.
pub fn check_all_digits(s: &Vec<char>) -> (b: bool)
    ensures
        b == all_digits(s@),
{
    let mut i: usize = 0;
    while i < s.len()
        invariant
            0 <= i <= s.len(),
            forall|j: int| 0 <= j < i ==> is_digit(#[trigger] s@[j]),
        decreases s.len() - i,
    {
        if !is_digit_char(s[i]) {
            return false;
        }
        i = i + 1;
    }
    true
}

/// `s` without its first character where that is a sign.
pub fn strip_sign(s: &Vec<char>) -> (r: Vec<char>)
    ensures
        r@ == without_sign(s@),
{
    if s.len() > 0 && (s[0] == '+' || s[0] == '-') {
        copy_range(s, 1, s.len())
    } else {
        let r = copy_range(s, 0, s.len());
        r
    }
}

/// Whether `s` is a mantissa.
pub fn check_mantissa(s: &Vec<char>) -> (b: bool)
    ensures
        b == is_mantissa(s@),
{
    let dot = find_char(s, '.', 0);
    if dot < s.len() {
        let whole = copy_range(s, 0, dot);
        let fraction = copy_range(s, dot + 1, s.len());
        s.len() > 1 && check_all_digits(&whole) && check_all_digits(&fraction)
    } else {
        s.len() > 0 && check_all_digits(s)
    }
}

/// Whether `s` may follow the exponent's letter.
pub fn check_exponent(s: &Vec<char>) -> (b: bool)
    ensures
        b == is_exponent(s@),
{
    let digits = strip_sign(s);
    digits.len() > 0 && check_all_digits(&digits)
}

/// Whether `s` is a number.
pub fn check_number(s: &Vec<char>) -> (b: bool)
    ensures
        b == is_number(s@),
{
    let lower = find_char(s, 'e', 0);
    let upper = find_char(s, 'E', 0);
    let mark = if lower <= upper {
        lower
    } else {
        upper
    };
    if mark < s.len() {
        let mantissa = copy_range(s, 0, mark);
        let exponent = copy_range(s, mark + 1, s.len());
        check_mantissa(&mantissa) && check_exponent(&exponent)
    } else {
        check_mantissa(s)
    }
}

/// Whether `s` spells the word given in lower and in upper case.
pub fn check_word(s: &Vec<char>, lower: &str, upper: &str) -> (b: bool)
    requires
        lower@.len() == upper@.len(),
    ensures
        b == is_word(s@, lower@, upper@),
{
    let small = chars_of(lower);
    let capital = chars_of(upper);
    if s.len() != small.len() {
        return false;
    }
    let mut i: usize = 0;
    while i < s.len()
        invariant
            0 <= i <= s.len(),
            s.len() == small.len() == capital.len(),
            small@ == lower@,
            capital@ == upper@,
            forall|j: int| 0 <= j < i ==> #[trigger] s@[j] == lower@[j] || s@[j] == upper@[j],
        decreases s.len() - i,
    {
        if s[i] != small[i] && s[i] != capital[i] {
            return false;
        }
        i = i + 1;
    }
    true
}

/// Whether `s` is a floating-point literal.
pub fn check_float_literal(s: &Vec<char>) -> (b: bool)
    ensures
        b == is_float_literal(s@),
{
    let body = strip_sign(s);
    proof {
        reveal_strlit("inf");
        reveal_strlit("INF");
        reveal_strlit("infinity");
        reveal_strlit("INFINITY");
        reveal_strlit("nan");
        reveal_strlit("NAN");
    }
    check_number(&body) || check_word(&body, "inf", "INF") || check_word(
        &body,
        "infinity",
        "INFINITY",
    ) || check_word(&body, "nan", "NAN")
}

} // verus!
