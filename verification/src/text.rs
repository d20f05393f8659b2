//! Character classification and small string-building helpers.
//!
//! The normalizer's boundary rules are stated over two predicates,
//! [`char_alnum`] and [`char_ws`]. On ASCII characters both are defined
//! outright; outside ASCII they delegate to a named, unspecified
//! classification, because the executable code answers the question with
//! `char::is_alphanumeric` and `char::is_whitespace`, whose full Unicode
//! tables are not restated here.

use vstd::prelude::*;

verus! {

/// Whether a character outside the ASCII range counts as alphanumeric.
/// A name for what `char::is_alphanumeric` returns there; never defined.
pub uninterp spec fn char_alnum_ext(c: char) -> bool;

/// Whether a character outside the ASCII range counts as whitespace.
/// A name for what `char::is_whitespace` returns there; never defined.
pub uninterp spec fn char_ws_ext(c: char) -> bool;

/// Alphanumeric: ASCII letters and digits, and outside ASCII whatever
/// `char::is_alphanumeric` says.
pub open spec fn char_alnum(c: char) -> bool {
    if (c as u32) < 128 {
        (97 <= c as u32 && c as u32 <= 122)  // 'a' ..= 'z'
        || (65 <= c as u32 && c as u32 <= 90)  // 'A' ..= 'Z'
        || (48 <= c as u32 && c as u32 <= 57)  // '0' ..= '9'
    } else {
        char_alnum_ext(c)
    }
}

/// Whitespace: the ASCII whitespace characters (tab through carriage
/// return, and space), and outside ASCII whatever `char::is_whitespace`
/// says.
pub open spec fn char_ws(c: char) -> bool {
    if (c as u32) < 128 {
        (9 <= c as u32 && c as u32 <= 13) || c as u32 == 32
    } else {
        char_ws_ext(c)
    }
}

/// Relies on `char::is_alphanumeric`: within ASCII it accepts exactly the
/// letters and digits (documented: the alphabetic and numeric general
/// categories); outside ASCII the result depends on the character alone
/// and is here only given the name `char_alnum_ext`.
pub assume_specification[ char::is_alphanumeric ](c: char) -> (r: bool)
    ensures
        r == char_alnum(c),
        (c as u32) >= 128 ==> r == char_alnum_ext(c),
;

/// Relies on `char::is_whitespace`: within ASCII it accepts exactly tab,
/// line feed, vertical tab, form feed, carriage return and space
/// (documented: the `White_Space` property); outside ASCII the result
/// depends on the character alone and is here only given the name
/// `char_ws_ext`.
pub assume_specification[ char::is_whitespace ](c: char) -> (r: bool)
    ensures
        r == char_ws(c),
        (c as u32) >= 128 ==> r == char_ws_ext(c),
;

/// Relies on `String::push`: appends the given character to the end of
/// the string.
#[verifier::external_body]
pub fn push_char(s: &mut String, c: char)
    ensures
        final(s)@ == old(s)@.push(c),
{
    s.push(c)
}

} // verus!
