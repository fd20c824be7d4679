//! The numeric constants that expressions can name.

use vstd::prelude::*;
use vstd::string::StringExecFns;
use crate::decimal::{int_text, int_to_text, parse_i64, parse_int, parse_reads_int_text, IntParse};
use crate::float_bits::NAN_BITS;
use crate::float_table::{known_parse, FloatQuery, FloatTable, Outcome, OutcomeView, QueryView, ReplyView};
use crate::value::{Value, ValueView};

verus! {

/// The type of the number that the text of a constant stands for.
#[derive(Debug, Clone, Copy, PartialEq, Eq, Structural)]
pub enum TypeOfString {
    INT64,
    F64,
}

/// The constants: the name of each, the text of its value as Rust
/// displays it, and the type to read the text as. The bounds of the 64-bit
/// integers come first, then those of the doubles, NaN and the infinities,
/// then the constants of analysis.
pub open spec fn constant_texts() -> Seq<(Seq<char>, Seq<char>, TypeOfString)> {
    seq![
        ("MIN_INT"@, int_text(i64::MIN as int), TypeOfString::INT64),
        ("MAX_INT"@, int_text(i64::MAX as int), TypeOfString::INT64),
        ("MAX_FLOAT"@, "179769313486231570000000000000000000000000000000000000000000000000000000000000000000000000000000000000000000000000000000000000000000000000000000000000000000000000000000000000000000000000000000000000000000000000000000000000000000000000000000000000000000000000000000000000000000000000000000000000000000000000000"@, TypeOfString::F64),
        ("MIN_FLOAT"@, "-179769313486231570000000000000000000000000000000000000000000000000000000000000000000000000000000000000000000000000000000000000000000000000000000000000000000000000000000000000000000000000000000000000000000000000000000000000000000000000000000000000000000000000000000000000000000000000000000000000000000000000000"@, TypeOfString::F64),
        ("NAN"@, "NaN"@, TypeOfString::F64),
        ("INFINITY"@, "inf"@, TypeOfString::F64),
        ("NEG_INFINITY"@, "-inf"@, TypeOfString::F64),
        ("E"@, "2.718281828459045"@, TypeOfString::F64),
        ("FRAC_1_SQRT_2"@, "0.7071067811865476"@, TypeOfString::F64),
        ("FRAC_2_SQRT_PI"@, "1.1283791670955126"@, TypeOfString::F64),
        ("FRAC_1_PI"@, "0.3183098861837907"@, TypeOfString::F64),
        ("FRAC_PI_2"@, "1.5707963267948966"@, TypeOfString::F64),
        ("FRAC_PI_3"@, "1.0471975511965979"@, TypeOfString::F64),
        ("FRAC_PI_4"@, "0.7853981633974483"@, TypeOfString::F64),
        ("FRAC_PI_6"@, "0.5235987755982989"@, TypeOfString::F64),
        ("FRAC_PI_8"@, "0.39269908169872414"@, TypeOfString::F64),
        ("LN_2"@, "0.6931471805599453"@, TypeOfString::F64),
        ("LN_10"@, "2.302585092994046"@, TypeOfString::F64),
        ("LOG2_10"@, "3.321928094887362"@, TypeOfString::F64),
        ("LOG2_E"@, "1.4426950408889634"@, TypeOfString::F64),
        ("LOG10_2"@, "0.3010299956639812"@, TypeOfString::F64),
        ("LOG10_E"@, "0.4342944819032518"@, TypeOfString::F64),
        ("PI"@, "3.141592653589793"@, TypeOfString::F64),
        ("SQRT_2"@, "1.4142135623730951"@, TypeOfString::F64),
        ("TAU"@, "6.283185307179586"@, TypeOfString::F64),
    ]
}

/// The content of a list of constants.
pub open spec fn constants_view(list: Seq<(String, (String, TypeOfString))>) -> Seq<
    (Seq<char>, Seq<char>, TypeOfString),
> {
    Seq::new(list.len(), |i: int| (list[i].0@, list[i].1.0@, list[i].1.1))
}

/// The constants: see [`constant_texts`].
pub fn math_consts() -> (r: Vec<(String, (String, TypeOfString))>)
    ensures
        constants_view(r@) == constant_texts(),
{
    let mut out: Vec<(String, (String, TypeOfString))> = Vec::new();
    out.push((String::from_str("MIN_INT"), (int_to_text(i64::MIN), TypeOfString::INT64)));
    out.push((String::from_str("MAX_INT"), (int_to_text(i64::MAX), TypeOfString::INT64)));
    out.push((String::from_str("MAX_FLOAT"), (String::from_str("179769313486231570000000000000000000000000000000000000000000000000000000000000000000000000000000000000000000000000000000000000000000000000000000000000000000000000000000000000000000000000000000000000000000000000000000000000000000000000000000000000000000000000000000000000000000000000000000000000000000000000000"), TypeOfString::F64)));
    out.push((String::from_str("MIN_FLOAT"), (String::from_str("-179769313486231570000000000000000000000000000000000000000000000000000000000000000000000000000000000000000000000000000000000000000000000000000000000000000000000000000000000000000000000000000000000000000000000000000000000000000000000000000000000000000000000000000000000000000000000000000000000000000000000000000"), TypeOfString::F64)));
    out.push((String::from_str("NAN"), (String::from_str("NaN"), TypeOfString::F64)));
    out.push((String::from_str("INFINITY"), (String::from_str("inf"), TypeOfString::F64)));
    out.push((String::from_str("NEG_INFINITY"), (String::from_str("-inf"), TypeOfString::F64)));
    out.push((String::from_str("E"), (String::from_str("2.718281828459045"), TypeOfString::F64)));
    out.push((String::from_str("FRAC_1_SQRT_2"), (String::from_str("0.7071067811865476"), TypeOfString::F64)));
    out.push((String::from_str("FRAC_2_SQRT_PI"), (String::from_str("1.1283791670955126"), TypeOfString::F64)));
    out.push((String::from_str("FRAC_1_PI"), (String::from_str("0.3183098861837907"), TypeOfString::F64)));
    out.push((String::from_str("FRAC_PI_2"), (String::from_str("1.5707963267948966"), TypeOfString::F64)));
    out.push((String::from_str("FRAC_PI_3"), (String::from_str("1.0471975511965979"), TypeOfString::F64)));
    out.push((String::from_str("FRAC_PI_4"), (String::from_str("0.7853981633974483"), TypeOfString::F64)));
    out.push((String::from_str("FRAC_PI_6"), (String::from_str("0.5235987755982989"), TypeOfString::F64)));
    out.push((String::from_str("FRAC_PI_8"), (String::from_str("0.39269908169872414"), TypeOfString::F64)));
    out.push((String::from_str("LN_2"), (String::from_str("0.6931471805599453"), TypeOfString::F64)));
    out.push((String::from_str("LN_10"), (String::from_str("2.302585092994046"), TypeOfString::F64)));
    out.push((String::from_str("LOG2_10"), (String::from_str("3.321928094887362"), TypeOfString::F64)));
    out.push((String::from_str("LOG2_E"), (String::from_str("1.4426950408889634"), TypeOfString::F64)));
    out.push((String::from_str("LOG10_2"), (String::from_str("0.3010299956639812"), TypeOfString::F64)));
    out.push((String::from_str("LOG10_E"), (String::from_str("0.4342944819032518"), TypeOfString::F64)));
    out.push((String::from_str("PI"), (String::from_str("3.141592653589793"), TypeOfString::F64)));
    out.push((String::from_str("SQRT_2"), (String::from_str("1.4142135623730951"), TypeOfString::F64)));
    out.push((String::from_str("TAU"), (String::from_str("6.283185307179586"), TypeOfString::F64)));
    assert(constants_view(out@) =~= constant_texts());
    out
}

/// The first entry of the list from `from` on that has the name.
pub open spec fn entry_named(
    list: Seq<(Seq<char>, Seq<char>, TypeOfString)>,
    name: Seq<char>,
    from: int,
) -> Option<(Seq<char>, TypeOfString)>
    decreases list.len() - from,
{
    if from < 0 || from >= list.len() {
        None
    } else if list[from].0 == name {
        Some((list[from].1, list[from].2))
    } else {
        entry_named(list, name, from + 1)
    }
}

/// The text and the type of the constant of that name, if there is one.
pub open spec fn constant_named(name: Seq<char>) -> Option<(Seq<char>, TypeOfString)> {
    entry_named(constant_texts(), name, 0)
}

/// The number that a text stands for when read as the type: an integer
/// that does not read is 0, a double that does not read is NaN.
pub open spec fn number_of(text: Seq<char>, kind: TypeOfString, facts: Map<QueryView, ReplyView>)
    -> OutcomeView<ValueView> {
    match kind {
        TypeOfString::INT64 => OutcomeView::Ready(
            ValueView::Int64(
                match parse_i64(text) {
                    IntParse::Number(n) => n as int,
                    _ => 0,
                },
            ),
        ),
        TypeOfString::F64 => match known_parse(facts, text) {
            None => OutcomeView::Needs(QueryView::Parse(text)),
            Some(None) => OutcomeView::Ready(ValueView::Float64(NAN_BITS)),
            Some(Some(bits)) => OutcomeView::Ready(ValueView::Float64(bits)),
        },
    }
}

/// The value of the constant of that name, if there is one.
pub open spec fn constant_value(name: Seq<char>, facts: Map<QueryView, ReplyView>) -> Option<
    OutcomeView<ValueView>,
> {
    match constant_named(name) {
        Some((text, kind)) => Some(number_of(text, kind, facts)),
        None => None,
    }
}

/// `MIN_INT` and `MAX_INT` are the least and the greatest 64-bit integer,
/// whatever is known of doubles.
pub proof fn integer_bounds_are_exact(facts: Map<QueryView, ReplyView>)
    ensures
        constant_value("MIN_INT"@, facts) == Some(
            OutcomeView::Ready(ValueView::Int64(i64::MIN as int)),
        ),
        constant_value("MAX_INT"@, facts) == Some(
            OutcomeView::Ready(ValueView::Int64(i64::MAX as int)),
        ),
{
    reveal_strlit("MIN_INT");
    reveal_strlit("MAX_INT");
    parse_reads_int_text(i64::MIN);
    parse_reads_int_text(i64::MAX);
    let list = constant_texts();
    assert(list[0].0 == "MIN_INT"@);
    assert(list[1].0 == "MAX_INT"@);
    assert("MAX_INT"@[1] != "MIN_INT"@[1]);
    assert(entry_named(list, "MAX_INT"@, 1) == Some((list[1].1, list[1].2)));
}

/// The text and the type of the constant of that name: see
/// [`constant_named`].
pub fn find_constant(name: &str) -> (r: Option<(String, TypeOfString)>)
    ensures
        r is Some == constant_named(name@) is Some,
        r is Some ==> (r->Some_0.0@, r->Some_0.1) == constant_named(name@)->Some_0,
{
    let list = math_consts();
    let ghost table = constant_texts();
    let mut i: usize = 0;
    assert(list@.len() == table.len());
    while i < list.len()
        invariant
            i <= list.len(),
            table == constant_texts(),
            constants_view(list@) == table,
            constant_named(name@) == entry_named(table, name@, i as int),
        decreases list.len() - i,
    {
        assert(constants_view(list@)[i as int] == (list@[i as int].0@, list@[i as int].1.0@, list@[i as int].1.1));
        if crate::text::same_text(list[i].0.as_str(), name) {
            return Some((list[i].1.0.clone(), list[i].1.1));
        }
        i += 1;
    }
    None
}

/// The number that a text stands for: see [`number_of`].
pub fn number_from(text: &str, kind: TypeOfString, floats: &FloatTable) -> (r: Outcome<Value>)
    ensures
        r@ == number_of(text@, kind, floats@),
{
    match kind {
        TypeOfString::INT64 => Outcome::Ready(
            Value::Int64(
                match parse_int(text) {
                    IntParse::Number(n) => n,
                    _ => 0,
                },
            ),
        ),
        TypeOfString::F64 => {
            let query = FloatQuery::Parse(String::from_str(text));
            match floats.parse_for(&query) {
                None => Outcome::Needs(query),
                Some(None) => Outcome::Ready(Value::Float64(NAN_BITS)),
                Some(Some(bits)) => Outcome::Ready(Value::Float64(bits)),
            }
        },
    }
}

} // verus!
