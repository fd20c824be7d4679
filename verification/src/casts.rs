//! The casting functions `int`, `float`, `bool` and `str`.
//!
//! Each takes the list of arguments of a call, looks at the first and
//! ignores the others. None of them fails: an argument that is missing or
//! of an unexpected type gives a default.

use vstd::prelude::*;
use vstd::string::StringExecFns;
use crate::decimal::{int_text, int_to_text};
use crate::float_bits::{bits_is_zero, bits_truncate, is_zero, truncated, NAN_BITS, ONE_BITS, ZERO_BITS};
use crate::float_table::{known_bits, known_parse, known_text, FloatQuery, FloatTable, Outcome, OutcomeView, QueryView, ReplyView};
use crate::json::{json_of, json_text};
use crate::lenient::{_atoi, lenient_int, lenient_int_reads_int_text};
use crate::value::{values_view, Value, ValueView};

verus! {

/// `bool(v)`: whether the first argument is neither zero nor empty.
pub open spec fn cast_bool_of(args: Seq<ValueView>) -> bool {
    if args.len() == 0 {
        false
    } else {
        match args[0] {
            ValueView::Null => false,
            ValueView::Bool(b) => b,
            ValueView::Int64(n) => n != 0,
            ValueView::Float64(bits) => !is_zero(bits),
            ValueView::String(s) => s.len() > 0,
            ValueView::Array(items) => items.len() > 0,
            ValueView::Object(fields) => fields.len() > 0,
        }
    }
}

/// The values that `bool` takes for false.
pub open spec fn is_falsy(v: ValueView) -> bool {
    ||| v == ValueView::Null
    ||| v == ValueView::Bool(false)
    ||| v == ValueView::Int64(0)
    ||| (v is Float64 && is_zero(v->Float64_0))
    ||| v == ValueView::String(Seq::empty())
    ||| v == ValueView::Array(Seq::empty())
    ||| v == ValueView::Object(Seq::empty())
}

/// `bool(v)` is false exactly for null, `false`, the integer 0, the two
/// zeros among the doubles, the empty string, the empty array and the
/// empty object.
pub proof fn bool_is_false_exactly_for_falsy(v: ValueView)
    ensures
        cast_bool_of(seq![v]) == !is_falsy(v),
{
    match v {
        ValueView::String(s) => {
            if s.len() == 0 {
                assert(s =~= Seq::empty());
            }
        },
        ValueView::Array(items) => {
            if items.len() == 0 {
                assert(items =~= Seq::empty());
            }
        },
        ValueView::Object(fields) => {
            if fields.len() == 0 {
                assert(fields =~= Seq::empty());
            }
        },
        _ => {},
    }
}

/// `int(v)`: an integer as it is, a double without its fraction, a
/// boolean as 1 or 0, a string by the lenient reading, anything else and
/// nothing as 0.
pub open spec fn cast_int_of(args: Seq<ValueView>, facts: Map<QueryView, ReplyView>) -> OutcomeView<
    ValueView,
> {
    if args.len() == 0 {
        OutcomeView::Ready(ValueView::Int64(0))
    } else {
        match args[0] {
            ValueView::Int64(n) => OutcomeView::Ready(ValueView::Int64(n)),
            ValueView::Float64(bits) => OutcomeView::Ready(ValueView::Int64(truncated(bits))),
            ValueView::Bool(b) => OutcomeView::Ready(
                ValueView::Int64(
                    if b {
                        1
                    } else {
                        0
                    },
                ),
            ),
            ValueView::String(s) => match lenient_int(s, facts) {
                OutcomeView::Ready(n) => OutcomeView::Ready(ValueView::Int64(n as int)),
                OutcomeView::Failed(failure) => OutcomeView::Failed(failure),
                OutcomeView::Needs(query) => OutcomeView::Needs(query),
            },
            _ => OutcomeView::Ready(ValueView::Int64(0)),
        }
    }
}

/// `float(v)`: a double as it is, an integer as the nearest double, a
/// boolean as 1.0 or 0.0, a string as the double it stands for; a string
/// that stands for none, anything else and nothing as NaN.
pub open spec fn cast_float_of(args: Seq<ValueView>, facts: Map<QueryView, ReplyView>)
    -> OutcomeView<ValueView> {
    if args.len() == 0 {
        OutcomeView::Ready(ValueView::Float64(NAN_BITS))
    } else {
        match args[0] {
            ValueView::Float64(bits) => OutcomeView::Ready(ValueView::Float64(bits)),
            ValueView::Int64(n) => match known_bits(facts, QueryView::FromInt(n)) {
                Some(bits) => OutcomeView::Ready(ValueView::Float64(bits)),
                None => OutcomeView::Needs(QueryView::FromInt(n)),
            },
            ValueView::Bool(b) => OutcomeView::Ready(
                ValueView::Float64(
                    if b {
                        ONE_BITS
                    } else {
                        ZERO_BITS
                    },
                ),
            ),
            ValueView::String(s) => match known_parse(facts, s) {
                None => OutcomeView::Needs(QueryView::Parse(s)),
                Some(None) => OutcomeView::Ready(ValueView::Float64(NAN_BITS)),
                Some(Some(bits)) => OutcomeView::Ready(ValueView::Float64(bits)),
            },
            _ => OutcomeView::Ready(ValueView::Float64(NAN_BITS)),
        }
    }
}

/// The text of a double as the facts give it.
pub open spec fn float_text(bits: u64, facts: Map<QueryView, ReplyView>) -> OutcomeView<Seq<char>> {
    match known_text(facts, QueryView::Show(bits)) {
        Some(text) => OutcomeView::Ready(text),
        None => OutcomeView::Needs(QueryView::Show(bits)),
    }
}

/// The string form of a value: a string as it is, an integer in decimal,
/// a double as the facts give it, a boolean as `true` or `false`, null as
/// `null`, an array or an object as its JSON text.
pub open spec fn string_form(v: ValueView, facts: Map<QueryView, ReplyView>) -> OutcomeView<
    Seq<char>,
> {
    match v {
        ValueView::Null => OutcomeView::Ready("null"@),
        ValueView::Bool(b) => OutcomeView::Ready(
            if b {
                "true"@
            } else {
                "false"@
            },
        ),
        ValueView::Int64(n) => OutcomeView::Ready(int_text(n)),
        ValueView::Float64(bits) => float_text(bits, facts),
        ValueView::String(s) => OutcomeView::Ready(s),
        _ => json_text(v, facts),
    }
}

/// `str(v)`: the string form of the first argument, and the empty string
/// for nothing.
pub open spec fn cast_str_of(args: Seq<ValueView>, facts: Map<QueryView, ReplyView>) -> OutcomeView<
    ValueView,
> {
    if args.len() == 0 {
        OutcomeView::Ready(ValueView::String(Seq::empty()))
    } else {
        match string_form(args[0], facts) {
            OutcomeView::Ready(text) => OutcomeView::Ready(ValueView::String(text)),
            OutcomeView::Failed(failure) => OutcomeView::Failed(failure),
            OutcomeView::Needs(query) => OutcomeView::Needs(query),
        }
    }
}

/// For every 64-bit integer `n`, `str(n)` is the text form of `n`, and
/// `int` of that string is `n` again, whatever is known of doubles.
pub proof fn int_survives_str_and_int(n: i64, facts: Map<QueryView, ReplyView>)
    ensures
        cast_str_of(seq![ValueView::Int64(n as int)], facts) == OutcomeView::Ready(
            ValueView::String(int_text(n as int)),
        ),
        cast_int_of(seq![ValueView::String(int_text(n as int))], facts) == OutcomeView::Ready(
            ValueView::Int64(n as int),
        ),
{
    lenient_int_reads_int_text(n, facts);
}

/// `bool(v)`: see [`cast_bool_of`].
pub fn cast_bool(args: &Vec<Value>) -> (r: Value)
    ensures
        r@ == ValueView::Bool(cast_bool_of(values_view(args@))),
{
    if args.len() == 0 {
        return Value::Bool(false);
    }
    assert(values_view(args@)[0] == args@[0]@);
    let truth: bool = match &args[0] {
        Value::Null => false,
        Value::Bool(b) => *b,
        Value::Int64(n) => *n != 0,
        Value::Float64(bits) => !bits_is_zero(*bits),
        Value::String(s) => {
            let empty = s.as_str().is_empty();
            !empty
        },
        Value::Array(items) => {
            proof {
                crate::value::array_view_is_elementwise(args@[0]);
            }
            items.len() > 0
        },
        Value::Object(fields) => {
            proof {
                crate::value::object_view_is_fieldwise(args@[0]);
            }
            fields.len() > 0
        },
    };
    Value::Bool(truth)
}

/// `int(v)`: see [`cast_int_of`].
pub fn cast_int(args: &Vec<Value>, floats: &FloatTable) -> (r: Outcome<Value>)
    ensures
        r@ == cast_int_of(values_view(args@), floats@),
{
    if args.len() == 0 {
        return Outcome::Ready(Value::Int64(0));
    }
    assert(values_view(args@)[0] == args@[0]@);
    match &args[0] {
        Value::Int64(n) => Outcome::Ready(Value::Int64(*n)),
        Value::Float64(bits) => Outcome::Ready(Value::Int64(bits_truncate(*bits))),
        Value::Bool(b) => Outcome::Ready(
            Value::Int64(
                if *b {
                    1
                } else {
                    0
                },
            ),
        ),
        Value::String(s) => match _atoi(s.as_str(), floats) {
            Outcome::Ready(n) => Outcome::Ready(Value::Int64(n)),
            Outcome::Failed(failure) => Outcome::Failed(failure),
            Outcome::Needs(query) => Outcome::Needs(query),
        },
        _ => Outcome::Ready(Value::Int64(0)),
    }
}

/// `float(v)`: see [`cast_float_of`].
pub fn cast_float(args: &Vec<Value>, floats: &FloatTable) -> (r: Outcome<Value>)
    ensures
        r@ == cast_float_of(values_view(args@), floats@),
{
    if args.len() == 0 {
        return Outcome::Ready(Value::Float64(NAN_BITS));
    }
    assert(values_view(args@)[0] == args@[0]@);
    match &args[0] {
        Value::Float64(bits) => Outcome::Ready(Value::Float64(*bits)),
        Value::Int64(n) => {
            let query = FloatQuery::FromInt(*n);
            match floats.bits_for(&query) {
                Some(bits) => Outcome::Ready(Value::Float64(bits)),
                None => Outcome::Needs(query),
            }
        },
        Value::Bool(b) => Outcome::Ready(
            Value::Float64(
                if *b {
                    ONE_BITS
                } else {
                    ZERO_BITS
                },
            ),
        ),
        Value::String(s) => {
            let query = FloatQuery::Parse(s.clone());
            match floats.parse_for(&query) {
                None => Outcome::Needs(query),
                Some(None) => Outcome::Ready(Value::Float64(NAN_BITS)),
                Some(Some(bits)) => Outcome::Ready(Value::Float64(bits)),
            }
        },
        _ => Outcome::Ready(Value::Float64(NAN_BITS)),
    }
}

/// The string form of a value: see [`string_form`].
pub fn string_form_of(v: &Value, floats: &FloatTable) -> (r: Outcome<String>)
    ensures
        r@ == string_form(v@, floats@),
{
    match v {
        Value::Null => Outcome::Ready(String::from_str("null")),
        Value::Bool(b) => Outcome::Ready(
            if *b {
                String::from_str("true")
            } else {
                String::from_str("false")
            },
        ),
        Value::Int64(n) => Outcome::Ready(int_to_text(*n)),
        Value::Float64(bits) => {
            let query = FloatQuery::Show(*bits);
            match floats.text_for(&query) {
                Some(text) => Outcome::Ready(text),
                None => Outcome::Needs(query),
            }
        },
        Value::String(s) => Outcome::Ready(s.clone()),
        _ => json_of(v, floats),
    }
}

/// `str(v)`: see [`cast_str_of`].
pub fn cast_str(args: &Vec<Value>, floats: &FloatTable) -> (r: Outcome<Value>)
    ensures
        r@ == cast_str_of(values_view(args@), floats@),
{
    if args.len() == 0 {
        return Outcome::Ready(Value::String(String::new()));
    }
    assert(values_view(args@)[0] == args@[0]@);
    match string_form_of(&args[0], floats) {
        Outcome::Ready(text) => Outcome::Ready(Value::String(text)),
        Outcome::Failed(failure) => Outcome::Failed(failure),
        Outcome::Needs(query) => Outcome::Needs(query),
    }
}

} // verus!
