//! The builtin `is_match`: regular expressions on the string form of a
//! value.

use vstd::prelude::*;
use crate::casts::{string_form, string_form_of};
use crate::failure::{EvalError, EvalFault, Failure};
use crate::float_table::{FloatTable, Outcome, OutcomeView, QueryView, ReplyView};
use crate::value::{values_view, Value, ValueView};

verus! {

/// What a pattern says of a text: nothing if the pattern is no regular
/// expression, else whether it matches somewhere in the text.
pub uninterp spec fn pattern_search(pattern: Seq<char>, text: Seq<char>) -> Option<bool>;

/// `regex::Regex::new` and then `Regex::is_match`: compiles the pattern
/// and searches the text for a match. `None` stands for a pattern that
/// does not compile.
#[verifier::external_body]
fn search(pattern: &str, text: &str) -> (r: Option<bool>)
    ensures
        r == pattern_search(pattern@, text@),
{
    regex::Regex::new(pattern).ok().map(|compiled| compiled.is_match(text))
}

/// What follows once the string form of the value is known.
pub open spec fn match_in(pattern: Seq<char>, text: Seq<char>, position: usize) -> OutcomeView<
    ValueView,
> {
    match pattern_search(pattern, text) {
        Some(found) => OutcomeView::Ready(ValueView::Bool(found)),
        None => OutcomeView::Failed(
            Failure::Eval(EvalError { position, fault: EvalFault::InvalidPattern }),
        ),
    }
}

/// `is_match(value, pattern)`: whether the pattern matches somewhere in
/// the string form of the value. With fewer than two arguments the answer
/// is `false`. A pattern that is no string is a type mismatch, one that
/// does not compile an invalid pattern; both fail at `position`.
pub open spec fn is_match_of(
    args: Seq<ValueView>,
    facts: Map<QueryView, ReplyView>,
    position: usize,
) -> OutcomeView<ValueView> {
    if args.len() < 2 {
        OutcomeView::Ready(ValueView::Bool(false))
    } else {
        match args[1] {
            ValueView::String(pattern) => match string_form(args[0], facts) {
                OutcomeView::Ready(text) => match_in(pattern, text, position),
                OutcomeView::Failed(failure) => OutcomeView::Failed(failure),
                OutcomeView::Needs(query) => OutcomeView::Needs(query),
            },
            _ => OutcomeView::Failed(
                Failure::Eval(EvalError { position, fault: EvalFault::TypeMismatch }),
            ),
        }
    }
}

/// Whether the pattern matches somewhere in the text: see [`match_in`].
pub fn match_text(pattern: &str, text: &str, position: usize) -> (r: Outcome<Value>)
    ensures
        r@ == match_in(pattern@, text@, position),
{
    match search(pattern, text) {
        Some(found) => Outcome::Ready(Value::Bool(found)),
        None => Outcome::Failed(
            Failure::Eval(EvalError { position, fault: EvalFault::InvalidPattern }),
        ),
    }
}

/// `is_match(value, pattern)`: see [`is_match_of`].
pub fn is_match(args: &Vec<Value>, floats: &FloatTable, position: usize) -> (r: Outcome<Value>)
    ensures
        r@ == is_match_of(values_view(args@), floats@, position),
{
    if args.len() < 2 {
        return Outcome::Ready(Value::Bool(false));
    }
    assert(values_view(args@)[0] == args@[0]@);
    assert(values_view(args@)[1] == args@[1]@);
    match &args[1] {
        Value::String(pattern) => match string_form_of(&args[0], floats) {
            Outcome::Ready(text) => match_text(pattern.as_str(), text.as_str(), position),
            Outcome::Failed(failure) => Outcome::Failed(failure),
            Outcome::Needs(query) => Outcome::Needs(query),
        },
        _ => Outcome::Failed(Failure::Eval(EvalError { position, fault: EvalFault::TypeMismatch })),
    }
}

} // verus!
