//! Runs of characters of one class.

use vstd::prelude::*;
use crate::unicode::{is_letter, is_letter_or_number, is_space};

verus! {

/// The classes of characters that texts are cut by.
#[derive(Clone, Copy, Debug, PartialEq, Eq, Structural)]
pub enum CharClass {
    /// White space, as Unicode defines it.
    Space,
    /// Neither white space nor a letter.
    MaybeNumeric,
    /// A letter or a number, as Unicode defines them.
    LetterOrNumber,
    /// A space, a tab, a line feed or a carriage return.
    Blank,
    /// One of the ten ASCII digits.
    Digit,
    /// An ASCII letter, an ASCII digit or an underscore.
    NamePart,
    /// Any character but this one.
    Not(char),
}

/// Whether the character is a space, a tab, a line feed or a carriage
/// return.
pub open spec fn is_blank(c: char) -> bool {
    c == ' ' || c == '\t' || c == '\n' || c == '\r'
}

/// Whether the character is one of the ten ASCII digits.
pub open spec fn is_ascii_digit(c: char) -> bool {
    '0' <= c <= '9'
}

/// Whether the character can start a name: an ASCII letter or an
/// underscore.
pub open spec fn is_name_start(c: char) -> bool {
    'a' <= c <= 'z' || 'A' <= c <= 'Z' || c == '_'
}

/// Whether the character can stand in a name: an ASCII letter, an ASCII
/// digit or an underscore.
pub open spec fn is_name_part(c: char) -> bool {
    is_name_start(c) || is_ascii_digit(c)
}

/// Whether the character belongs to the class.
pub open spec fn in_class(class: CharClass, c: char) -> bool {
    match class {
        CharClass::Space => is_space(c),
        CharClass::MaybeNumeric => !is_space(c) && !is_letter(c),
        CharClass::LetterOrNumber => is_letter_or_number(c),
        CharClass::Blank => is_blank(c),
        CharClass::Digit => is_ascii_digit(c),
        CharClass::NamePart => is_name_part(c),
        CharClass::Not(other) => c != other,
    }
}

/// How many characters at the start of `s` belong to the class.
pub open spec fn prefix_len(s: Seq<char>, class: CharClass) -> nat
    decreases s.len(),
{
    if s.len() > 0 && in_class(class, s[0]) {
        1 + prefix_len(s.drop_first(), class)
    } else {
        0
    }
}

/// [`prefix_len`] is the one length up to which every character belongs to
/// the class and at which the text ends or a character does not.
pub proof fn prefix_len_is(s: Seq<char>, class: CharClass, n: int)
    requires
        0 <= n <= s.len(),
        forall|i: int| 0 <= i < n ==> in_class(class, #[trigger] s[i]),
        n == s.len() || !in_class(class, s[n]),
    ensures
        prefix_len(s, class) == n,
    decreases s.len(),
{
    if n > 0 {
        let rest = s.drop_first();
        assert(in_class(class, s[0]));
        assert forall|i: int| 0 <= i < n - 1 implies in_class(class, #[trigger] rest[i]) by {
            assert(rest[i] == s[i + 1]);
        }
        prefix_len_is(rest, class, n - 1);
    }
}

/// Where the run of characters of the class that starts at `from` ends.
pub open spec fn run(s: Seq<char>, from: int, class: CharClass) -> int {
    if 0 <= from <= s.len() {
        from + prefix_len(s.skip(from), class)
    } else {
        from
    }
}

/// Whether the character belongs to the class.
pub fn belongs(class: CharClass, c: char) -> (r: bool)
    ensures
        r == in_class(class, c),
{
    match class {
        CharClass::Space => c.is_whitespace(),
        CharClass::MaybeNumeric => !c.is_whitespace() && !c.is_alphabetic(),
        CharClass::LetterOrNumber => c.is_alphanumeric(),
        CharClass::Blank => c == ' ' || c == '\t' || c == '\n' || c == '\r',
        CharClass::Digit => '0' <= c && c <= '9',
        CharClass::NamePart => ('a' <= c && c <= 'z') || ('A' <= c && c <= 'Z') || c == '_' || (
        '0' <= c && c <= '9'),
        CharClass::Not(other) => c != other,
    }
}

/// Where the run of characters of the class that starts at `from` ends,
/// within `chars[..to]`.
pub fn run_end(chars: &Vec<char>, from: usize, to: usize, class: CharClass) -> (end: usize)
    requires
        from <= to <= chars.len(),
    ensures
        from <= end <= to,
        end - from == prefix_len(chars@.subrange(from as int, to as int), class),
        to == chars.len() ==> end == run(chars@, from as int, class),
        forall|i: int| from <= i < end ==> in_class(class, #[trigger] chars@[i]),
        end < to ==> !in_class(class, chars@[end as int]),
{
    let ghost s = chars@.subrange(from as int, to as int);
    let mut i: usize = from;
    while i < to
        invariant
            from <= i <= to <= chars.len(),
            s == chars@.subrange(from as int, to as int),
            forall|j: int| 0 <= j < i - from ==> in_class(class, #[trigger] s[j]),
            forall|j: int| from <= j < i ==> in_class(class, #[trigger] chars@[j]),
        decreases to - i,
    {
        let c: char = chars[i];
        assert(s[i - from] == c);
        if !belongs(class, c) {
            proof {
                prefix_len_is(s, class, i - from);
                assert(chars@.skip(from as int) =~= chars@.subrange(
                    from as int,
                    chars@.len() as int,
                ));
            }
            return i;
        }
        i += 1;
    }
    proof {
        prefix_len_is(s, class, to - from);
        assert(chars@.skip(from as int) =~= chars@.subrange(from as int, chars@.len() as int));
    }
    to
}

} // verus!
