//! Integers as decimal text, and decimal text as integers.

use vstd::prelude::*;
use crate::text::{chars_of, text_of};

verus! {

/// Whether the character is one of the ten ASCII digits.
pub open spec fn is_digit(c: char) -> bool {
    '0' <= c <= '9'
}

/// The number that a digit stands for.
pub open spec fn digit_value(c: char) -> int {
    (c as u32) as int - 48
}

/// The digit that stands for a number below ten.
pub open spec fn digit_char(d: int) -> char {
    ((d + 48) as u8) as char
}

/// The decimal digits of a natural number, without leading zeros.
pub open spec fn nat_text(n: nat) -> Seq<char>
    decreases n,
{
    if n < 10 {
        seq![digit_char(n as int)]
    } else {
        nat_text(n / 10).push(digit_char((n % 10) as int))
    }
}

/// The text form of an integer: a minus sign if it is negative, then the
/// decimal digits of its absolute value.
pub open spec fn int_text(n: int) -> Seq<char> {
    if n < 0 {
        seq!['-'] + nat_text((-n) as nat)
    } else {
        nat_text(n as nat)
    }
}

/// How the reading of a text as a 64-bit integer ends.
#[derive(Clone, Copy, Debug, PartialEq, Eq, Structural)]
pub enum IntParse {
    /// The text stands for this number.
    Number(i64),
    /// The text is empty.
    Empty,
    /// The text holds something other than a sign in front and digits.
    InvalidDigit,
    /// The digits go beyond the largest 64-bit integer.
    PosOverflow,
    /// The digits go below the smallest 64-bit integer.
    NegOverflow,
}

/// What one more character makes of the number read so far.
pub open spec fn scan_step(acc: int, negative: bool, c: char) -> IntParse {
    if !is_digit(c) {
        IntParse::InvalidDigit
    } else {
        let next = if negative {
            acc * 10 - digit_value(c)
        } else {
            acc * 10 + digit_value(c)
        };
        if next > i64::MAX {
            IntParse::PosOverflow
        } else if next < i64::MIN {
            IntParse::NegOverflow
        } else {
            IntParse::Number(next as i64)
        }
    }
}

/// Reads digits from left to right, starting from `acc`. The first
/// character that is no digit, or the first digit that takes the number out
/// of the 64-bit range, ends the reading.
pub open spec fn scan_digits(digits: Seq<char>, acc: int, negative: bool) -> IntParse
    decreases digits.len(),
{
    if digits.len() == 0 {
        IntParse::Number(acc as i64)
    } else {
        match scan_step(acc, negative, digits[0]) {
            IntParse::Number(next) => scan_digits(digits.drop_first(), next as int, negative),
            other => other,
        }
    }
}

/// Reads a text as a 64-bit integer: an optional `+` or `-`, then digits
/// and nothing else. This is how Rust reads an `i64`.
pub open spec fn parse_i64(s: Seq<char>) -> IntParse {
    if s.len() == 0 {
        IntParse::Empty
    } else if s.len() == 1 && (s[0] == '+' || s[0] == '-') {
        IntParse::InvalidDigit
    } else if s[0] == '-' {
        scan_digits(s.drop_first(), 0, true)
    } else if s[0] == '+' {
        scan_digits(s.drop_first(), 0, false)
    } else {
        scan_digits(s, 0, false)
    }
}

/// Reading one character more continues from what the reading of the
/// characters before it gave.
pub proof fn scan_digits_of_push(digits: Seq<char>, c: char, acc: int, negative: bool)
    requires
        i64::MIN <= acc <= i64::MAX,
    ensures
        scan_digits(digits.push(c), acc, negative) == match scan_digits(digits, acc, negative) {
            IntParse::Number(v) => scan_step(v as int, negative, c),
            other => other,
        },
    decreases digits.len(),
{
    let longer = digits.push(c);
    if digits.len() == 0 {
        assert(longer.drop_first() =~= Seq::<char>::empty());
        assert(longer[0] == c);
        match scan_step(acc, negative, c) {
            IntParse::Number(next) => {
                assert(scan_digits(longer.drop_first(), next as int, negative)
                    == IntParse::Number(next));
            },
            _ => {},
        }
    } else {
        assert(longer[0] == digits[0]);
        assert(longer.drop_first() =~= digits.drop_first().push(c));
        match scan_step(acc, negative, digits[0]) {
            IntParse::Number(next) => {
                scan_digits_of_push(digits.drop_first(), c, next as int, negative);
            },
            _ => {},
        }
    }
}

/// The digits of a natural number are digits, and there is at least one.
pub proof fn nat_text_is_digits(n: nat)
    ensures
        nat_text(n).len() >= 1,
        forall|i: int| 0 <= i < nat_text(n).len() ==> is_digit(#[trigger] nat_text(n)[i]),
    decreases n,
{
    if n >= 10 {
        nat_text_is_digits(n / 10);
    }
}

/// Reading the digits of a number gives the number back, with the sign
/// asked for, as long as that fits in 64 bits.
pub proof fn scan_reads_nat_text(n: nat, negative: bool)
    requires
        if negative {
            n <= -(i64::MIN as int)
        } else {
            n <= i64::MAX
        },
    ensures
        scan_digits(nat_text(n), 0, negative) == IntParse::Number(
            (if negative {
                -(n as int)
            } else {
                n as int
            }) as i64,
        ),
    decreases n,
{
    if n < 10 {
        let s = nat_text(n);
        assert(s.drop_first() =~= Seq::<char>::empty());
        assert(digit_value(digit_char(n as int)) == n);
        assert(is_digit(digit_char(n as int)));
        let step = scan_step(0, negative, s[0]);
        assert(step is Number);
        assert(scan_digits(s.drop_first(), step->Number_0 as int, negative) == step);
    } else {
        scan_reads_nat_text(n / 10, negative);
        scan_digits_of_push(nat_text(n / 10), digit_char((n % 10) as int), 0, negative);
        assert(digit_value(digit_char((n % 10) as int)) == n % 10);
        assert(is_digit(digit_char((n % 10) as int)));
    }
}

/// An integer is read back from its text form: for every 64-bit `n`,
/// `parse_i64(int_text(n))` is `n`.
pub proof fn parse_reads_int_text(n: i64)
    ensures
        parse_i64(int_text(n as int)) == IntParse::Number(n),
{
    if n < 0 {
        let digits = nat_text((-n) as nat);
        let s = int_text(n as int);
        nat_text_is_digits((-n) as nat);
        assert(s.len() == digits.len() + 1);
        assert(s[0] == '-');
        assert(s.drop_first() =~= digits);
        scan_reads_nat_text((-n) as nat, true);
    } else {
        let s = int_text(n as int);
        nat_text_is_digits(n as nat);
        assert(is_digit(s[0]));
        scan_reads_nat_text(n as nat, false);
    }
}

/// The digits of `n`, as characters.
pub fn nat_digits(n: u64) -> (r: Vec<char>)
    ensures
        r@ == nat_text(n as nat),
{
    let mut low: Vec<char> = Vec::new();
    let mut rest: u64 = n;
    while rest >= 10
        invariant
            nat_text(n as nat) == nat_text(rest as nat) + low@.reverse(),
        decreases rest,
    {
        let d: u8 = (rest % 10) as u8;
        let c: char = (d + 48) as char;
        let ghost before = low@;
        low.push(c);
        assert(c == digit_char((rest % 10) as int));
        assert(low@.reverse() =~= seq![c] + before.reverse());
        assert(nat_text(rest as nat) + before.reverse() =~= nat_text((rest / 10) as nat)
            + low@.reverse());
        rest = rest / 10;
    }
    let d: u8 = rest as u8;
    let first: char = (d + 48) as char;
    assert(first == digit_char(rest as int));
    let mut out: Vec<char> = Vec::new();
    out.push(first);
    let mut i: usize = low.len();
    while i > 0
        invariant
            i <= low.len(),
            out@ == seq![first] + low@.reverse().take(low.len() - i),
        decreases i,
    {
        i -= 1;
        out.push(low[i]);
        assert(low@.reverse()[low.len() - 1 - i] == low@[i as int]);
        assert(low@.reverse().take(low.len() - i) =~= low@.reverse().take(low.len() - 1 - i).push(
            low@[i as int],
        ));
        assert(out@ =~= seq![first] + low@.reverse().take(low.len() - i));
    }
    assert(low@.reverse().take(low.len() as int) =~= low@.reverse());
    out
}

/// The text form of an integer, as characters.
pub fn int_digits(n: i64) -> (r: Vec<char>)
    ensures
        r@ == int_text(n as int),
{
    if n < 0 {
        let magnitude: u64 = (0 - (n as i128)) as u64;
        let digits = nat_digits(magnitude);
        let mut out: Vec<char> = Vec::new();
        out.push('-');
        let mut i: usize = 0;
        while i < digits.len()
            invariant
                i <= digits.len(),
                out@ == seq!['-'] + digits@.take(i as int),
            decreases digits.len() - i,
        {
            out.push(digits[i]);
            assert(digits@.take(i + 1) =~= digits@.take(i as int).push(digits@[i as int]));
            assert(out@ =~= seq!['-'] + digits@.take(i + 1));
            i += 1;
        }
        assert(digits@.take(digits.len() as int) =~= digits@);
        out
    } else {
        nat_digits(n as u64)
    }
}

/// The text form of an integer.
pub fn int_to_text(n: i64) -> (r: String)
    ensures
        r@ == int_text(n as int),
{
    let digits = int_digits(n);
    text_of(&digits)
}

/// Reads the characters `chars[from..to]` as a 64-bit integer.
pub fn parse_int_range(chars: &Vec<char>, from: usize, to: usize) -> (r: IntParse)
    requires
        from <= to <= chars.len(),
    ensures
        r == parse_i64(chars@.subrange(from as int, to as int)),
{
    let ghost s = chars@.subrange(from as int, to as int);
    if from == to {
        return IntParse::Empty;
    }
    let first: char = chars[from];
    assert(s[0] == first);
    if to - from == 1 && (first == '+' || first == '-') {
        return IntParse::InvalidDigit;
    }
    let negative: bool = first == '-';
    let start: usize = if first == '-' || first == '+' {
        from + 1
    } else {
        from
    };
    let ghost digits = chars@.subrange(start as int, to as int);
    assert(digits =~= if first == '-' || first == '+' {
        s.drop_first()
    } else {
        s
    });
    assert(parse_i64(s) == scan_digits(digits, 0, negative));
    let mut acc: i64 = 0;
    let mut i: usize = start;
    while i < to
        invariant
            from <= start <= i <= to <= chars.len(),
            digits == chars@.subrange(start as int, to as int),
            parse_i64(chars@.subrange(from as int, to as int)) == scan_digits(digits, 0, negative),
            scan_digits(digits, 0, negative) == scan_digits(
                chars@.subrange(i as int, to as int),
                acc as int,
                negative,
            ),
        decreases to - i,
    {
        let c: char = chars[i];
        let ghost here = chars@.subrange(i as int, to as int);
        assert(here[0] == c);
        assert(here.drop_first() =~= chars@.subrange(i + 1, to as int));
        if !('0' <= c && c <= '9') {
            return IntParse::InvalidDigit;
        }
        let d: i128 = ((c as u32) - 48) as i128;
        let next: i128 = if negative {
            (acc as i128) * 10 - d
        } else {
            (acc as i128) * 10 + d
        };
        if next > 0x7fff_ffff_ffff_ffff {
            return IntParse::PosOverflow;
        }
        if next < -0x8000_0000_0000_0000 {
            return IntParse::NegOverflow;
        }
        acc = next as i64;
        i += 1;
    }
    assert(chars@.subrange(to as int, to as int) =~= Seq::<char>::empty());
    IntParse::Number(acc)
}

/// Reads a text as a 64-bit integer.
pub fn parse_int(s: &str) -> (r: IntParse)
    ensures
        r == parse_i64(s@),
{
    let chars = chars_of(s);
    assert(chars@.subrange(0, chars@.len() as int) =~= chars@);
    parse_int_range(&chars, 0, chars.len())
}

} // verus!
