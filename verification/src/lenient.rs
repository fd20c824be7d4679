//! The lenient reading of a text as an integer.

use vstd::prelude::*;
use crate::decimal::{int_text, is_digit, nat_text, nat_text_is_digits, parse_i64, parse_int_range, parse_reads_int_text, IntParse};
use crate::float_bits::{bits_round, rounded};
use crate::float_table::{known_parse, FloatQuery, FloatTable, Outcome, OutcomeView, QueryView, ReplyView};
use crate::scan::{in_class, prefix_len, prefix_len_is, run_end, CharClass};
use crate::text::{chars_of, text_of_range};

verus! {

/// The piece of a text that the lenient reading looks at: white space in
/// front is skipped; what follows counts up to the first white space or
/// letter; of that, the first character and the letters and numbers right
/// behind it.
pub open spec fn numeric_token(s: Seq<char>) -> Seq<char> {
    let body = s.skip(prefix_len(s, CharClass::Space) as int);
    let head = body.take(prefix_len(body, CharClass::MaybeNumeric) as int);
    if head.len() == 0 {
        head
    } else {
        head.take(1 + prefix_len(head.skip(1), CharClass::LetterOrNumber) as int)
    }
}

/// What a token is worth that reads as no integer: the double it stands
/// for, rounded to the nearest integer, and 0 if it stands for none.
pub open spec fn fraction_fallback(token: Seq<char>, facts: Map<QueryView, ReplyView>)
    -> OutcomeView<i64> {
    match known_parse(facts, token) {
        None => OutcomeView::Needs(QueryView::Parse(token)),
        Some(None) => OutcomeView::Ready(0i64),
        Some(Some(bits)) => OutcomeView::Ready(rounded(bits) as i64),
    }
}

/// The lenient reading of a text as an integer. The token of
/// [`numeric_token`] is read as a 64-bit integer; digits beyond the range
/// give the nearest bound; a token that holds something else is read as a
/// double and rounded; nothing readable gives 0.
pub open spec fn lenient_int(s: Seq<char>, facts: Map<QueryView, ReplyView>) -> OutcomeView<i64> {
    let token = numeric_token(s);
    match parse_i64(token) {
        IntParse::Number(v) => OutcomeView::Ready(v),
        IntParse::NegOverflow => OutcomeView::Ready(i64::MIN),
        IntParse::PosOverflow => OutcomeView::Ready(i64::MAX),
        IntParse::InvalidDigit => fraction_fallback(token, facts),
        IntParse::Empty => OutcomeView::Ready(0i64),
    }
}

/// The text form of an integer is its own numeric token.
pub proof fn int_text_is_its_token(n: i64)
    ensures
        numeric_token(int_text(n as int)) == int_text(n as int),
{
    let s = int_text(n as int);
    let magnitude: nat = (if n < 0 {
        -n
    } else {
        n as int
    }) as nat;
    nat_text_is_digits(magnitude);
    assert forall|i: int| 0 <= i < s.len() implies (s[i] == '-' && i == 0) || is_digit(
        #[trigger] s[i],
    ) by {
        if n < 0 {
            if i > 0 {
                assert(s[i] == nat_text(magnitude)[i - 1]);
            }
        }
    }
    prefix_len_is(s, CharClass::Space, 0);
    let body = s.skip(0);
    assert(body =~= s);
    prefix_len_is(body, CharClass::MaybeNumeric, s.len() as int);
    let head = body.take(s.len() as int);
    assert(head =~= s);
    let tail = head.skip(1);
    assert forall|i: int| 0 <= i < tail.len() implies in_class(
        CharClass::LetterOrNumber,
        #[trigger] tail[i],
    ) by {
        assert(tail[i] == s[i + 1]);
        assert(is_digit(s[i + 1]));
    }
    prefix_len_is(tail, CharClass::LetterOrNumber, tail.len() as int);
    assert(head.take(1 + tail.len() as int) =~= s);
}

/// The lenient reading gives an integer back from its text form, whatever
/// is known of doubles.
pub proof fn lenient_int_reads_int_text(n: i64, facts: Map<QueryView, ReplyView>)
    ensures
        lenient_int(int_text(n as int), facts) == OutcomeView::Ready(n),
{
    int_text_is_its_token(n);
    parse_reads_int_text(n);
}

/// Reads a text as an integer, leniently: see [`lenient_int`].
pub fn _atoi(s: &str, floats: &FloatTable) -> (r: Outcome<i64>)
    ensures
        r@ == lenient_int(s@, floats@),
{
    let chars = chars_of(s);
    let len: usize = chars.len();
    assert(chars@.subrange(0, len as int) =~= chars@);
    let start: usize = run_end(&chars, 0, len, CharClass::Space);
    let ghost body = chars@.skip(start as int);
    assert(chars@.subrange(start as int, len as int) =~= body);
    let head_end: usize = run_end(&chars, start, len, CharClass::MaybeNumeric);
    let ghost head = body.take(head_end - start);
    assert(head =~= chars@.subrange(start as int, head_end as int));
    let end: usize = if head_end == start {
        start
    } else {
        assert(head.skip(1) =~= chars@.subrange(start + 1, head_end as int));
        run_end(&chars, start + 1, head_end, CharClass::LetterOrNumber)
    };
    let ghost token = chars@.subrange(start as int, end as int);
    assert(token =~= numeric_token(s@)) by {
        if head_end != start {
            assert(head.take(end - start) =~= token);
        }
    }
    match parse_int_range(&chars, start, end) {
        IntParse::Number(v) => Outcome::Ready(v),
        IntParse::NegOverflow => Outcome::Ready(i64::MIN),
        IntParse::PosOverflow => Outcome::Ready(i64::MAX),
        IntParse::Empty => Outcome::Ready(0),
        IntParse::InvalidDigit => {
            let query = FloatQuery::Parse(text_of_range(&chars, start, end));
            match floats.parse_for(&query) {
                None => Outcome::Needs(query),
                Some(None) => Outcome::Ready(0),
                Some(Some(bits)) => Outcome::Ready(bits_round(bits)),
            }
        },
    }
}

} // verus!
