//! The character classes of the Unicode standard that the lenient integer
//! parse goes by.

use vstd::prelude::*;

verus! {

/// Whether a character beyond ASCII has the Unicode property `White_Space`.
pub uninterp spec fn has_white_space(c: char) -> bool;

/// Whether a character beyond ASCII has the Unicode property `Alphabetic`.
pub uninterp spec fn has_alphabetic(c: char) -> bool;

/// Whether a character beyond ASCII is alphabetic or numeric in Unicode.
pub uninterp spec fn has_alphanumeric(c: char) -> bool;

/// Whether the character is white space.
pub open spec fn is_space(c: char) -> bool {
    if (c as u32) < 128 {
        c == ' ' || 9 <= (c as u32) <= 13
    } else {
        has_white_space(c)
    }
}

/// Whether the character is a letter.
pub open spec fn is_letter(c: char) -> bool {
    if (c as u32) < 128 {
        'a' <= c <= 'z' || 'A' <= c <= 'Z'
    } else {
        has_alphabetic(c)
    }
}

/// Whether the character is a letter or a number.
pub open spec fn is_letter_or_number(c: char) -> bool {
    if (c as u32) < 128 {
        'a' <= c <= 'z' || 'A' <= c <= 'Z' || '0' <= c <= '9'
    } else {
        has_alphanumeric(c)
    }
}

/// `char::is_whitespace` of the standard library. Within ASCII the white
/// space characters are the space and U+0009 to U+000D; beyond ASCII the
/// result is whatever Unicode's `White_Space` property says.
pub assume_specification[ char::is_whitespace ](c: char) -> (r: bool)
    ensures
        r == is_space(c),
        (c as u32) >= 128 ==> r == has_white_space(c),
;

/// `char::is_alphabetic` of the standard library. Within ASCII the
/// alphabetic characters are the 52 letters; beyond ASCII the result is
/// whatever Unicode's `Alphabetic` property says.
pub assume_specification[ char::is_alphabetic ](c: char) -> (r: bool)
    ensures
        r == is_letter(c),
        (c as u32) >= 128 ==> r == has_alphabetic(c),
;

/// `char::is_alphanumeric` of the standard library. Within ASCII the
/// alphanumeric characters are the letters and the ten digits; beyond ASCII
/// the result is whatever Unicode says of letters and numbers.
pub assume_specification[ char::is_alphanumeric ](c: char) -> (r: bool)
    ensures
        r == is_letter_or_number(c),
        (c as u32) >= 128 ==> r == has_alphanumeric(c),
;

} // verus!
