//! The JSON text of a value.

use vstd::prelude::*;
use vstd::string::StringExecFns;
use crate::decimal::{int_text, int_to_text};
use crate::float_bits::{bits_is_finite, is_finite};
use crate::float_table::{known_text, FloatQuery, FloatTable, Outcome, OutcomeView, QueryView, ReplyView};
use crate::value::{array_view_is_elementwise, object_view_is_fieldwise, Value, ValueView};

verus! {

/// The JSON string literal for a text: the text between double quotes,
/// with the characters escaped that JSON does not take as they are.
pub uninterp spec fn json_string(s: Seq<char>) -> Seq<char>;

/// `serde_json::to_string` on a string slice: the JSON string literal for
/// it. On a string slice the call does not fail.
#[verifier::external_body]
fn json_quote(s: &str) -> (r: String)
    ensures
        r@ == json_string(s@),
{
    serde_json::to_string(s).unwrap_or_default()
}

/// The parts joined by commas, if all of them are ready; else the first
/// part that is not.
pub open spec fn join_parts(parts: Seq<OutcomeView<Seq<char>>>) -> OutcomeView<Seq<char>>
    decreases parts.len(),
{
    if parts.len() == 0 {
        OutcomeView::Ready(Seq::empty())
    } else {
        match join_parts(parts.drop_last()) {
            OutcomeView::Ready(front) => match parts.last() {
                OutcomeView::Ready(x) => OutcomeView::Ready(
                    if parts.len() == 1 {
                        x
                    } else {
                        front + seq![','] + x
                    },
                ),
                other => other,
            },
            other => other,
        }
    }
}

/// A part that is not ready, with ready parts before it, is what the
/// joining gives.
pub proof fn join_stops_at(parts: Seq<OutcomeView<Seq<char>>>, at: int)
    requires
        0 <= at < parts.len(),
        join_parts(parts.take(at)) is Ready,
        !(parts[at] is Ready),
    ensures
        join_parts(parts) == parts[at],
    decreases parts.len(),
{
    if at == parts.len() - 1 {
        assert(parts.drop_last() =~= parts.take(at));
    } else {
        let front = parts.drop_last();
        assert(front.take(at) =~= parts.take(at));
        join_stops_at(front, at);
    }
}

/// The text between an opening and a closing character.
pub open spec fn enclosed(open: char, inner: OutcomeView<Seq<char>>, close: char) -> OutcomeView<
    Seq<char>,
> {
    match inner {
        OutcomeView::Ready(text) => OutcomeView::Ready(seq![open] + text + seq![close]),
        other => other,
    }
}

/// One field of an object: the name as a JSON string, a colon, the value.
pub open spec fn json_field(name: Seq<char>, value: OutcomeView<Seq<char>>) -> OutcomeView<
    Seq<char>,
> {
    match value {
        OutcomeView::Ready(text) => OutcomeView::Ready(json_string(name) + seq![':'] + text),
        other => other,
    }
}

/// The JSON text of a double: `null` for an infinity or a NaN, else what
/// the facts give for it.
pub open spec fn json_float(bits: u64, facts: Map<QueryView, ReplyView>) -> OutcomeView<Seq<char>> {
    if !is_finite(bits) {
        OutcomeView::Ready("null"@)
    } else {
        match known_text(facts, QueryView::JsonShow(bits)) {
            Some(text) => OutcomeView::Ready(text),
            None => OutcomeView::Needs(QueryView::JsonShow(bits)),
        }
    }
}

/// The JSON text of each element.
pub open spec fn json_elements(items: Seq<ValueView>, facts: Map<QueryView, ReplyView>) -> Seq<
    OutcomeView<Seq<char>>,
>
    decreases items, 0nat,
{
    Seq::new(
        items.len(),
        |i: int|
            if 0 <= i < items.len() {
                json_text(items[i], facts)
            } else {
                OutcomeView::Ready(Seq::empty())
            },
    )
}

/// The JSON text of each field.
pub open spec fn json_fields(
    fields: Seq<(Seq<char>, ValueView)>,
    facts: Map<QueryView, ReplyView>,
) -> Seq<OutcomeView<Seq<char>>>
    decreases fields, 0nat,
{
    Seq::new(
        fields.len(),
        |i: int|
            if 0 <= i < fields.len() {
                json_field(fields[i].0, json_text(fields[i].1, facts))
            } else {
                OutcomeView::Ready(Seq::empty())
            },
    )
}

/// The JSON text of a value, without any white space: arrays in square
/// brackets, objects in braces with their fields in the order in which the
/// value holds them.
pub open spec fn json_text(v: ValueView, facts: Map<QueryView, ReplyView>) -> OutcomeView<Seq<char>>
    decreases v, 1nat,
{
    match v {
        ValueView::Null => OutcomeView::Ready("null"@),
        ValueView::Bool(b) => OutcomeView::Ready(
            if b {
                "true"@
            } else {
                "false"@
            },
        ),
        ValueView::Int64(n) => OutcomeView::Ready(int_text(n)),
        ValueView::Float64(bits) => json_float(bits, facts),
        ValueView::String(s) => OutcomeView::Ready(json_string(s)),
        ValueView::Array(items) => enclosed('[', join_parts(json_elements(items, facts)), ']'),
        ValueView::Object(fields) => enclosed('{', join_parts(json_fields(fields, facts)), '}'),
    }
}

/// The JSON text of a value: see [`json_text`].
pub fn json_of(v: &Value, floats: &FloatTable) -> (r: Outcome<String>)
    ensures
        r@ == json_text(v@, floats@),
    decreases v,
{
    match v {
        Value::Null => Outcome::Ready(String::from_str("null")),
        Value::Bool(b) => Outcome::Ready(
            if *b {
                String::from_str("true")
            } else {
                String::from_str("false")
            },
        ),
        Value::Int64(n) => Outcome::Ready(int_to_text(*n)),
        Value::Float64(bits) => {
            if !bits_is_finite(*bits) {
                Outcome::Ready(String::from_str("null"))
            } else {
                let query = FloatQuery::JsonShow(*bits);
                match floats.text_for(&query) {
                    Some(text) => Outcome::Ready(text),
                    None => Outcome::Needs(query),
                }
            }
        },
        Value::String(s) => Outcome::Ready(json_quote(s.as_str())),
        Value::Array(items) => {
            proof {
                array_view_is_elementwise(*v);
            }
            let ghost parts = json_elements(v@->Array_0, floats@);
            let mut out = String::new();
            out.push('[');
            let ghost mut joined: Seq<char> = Seq::empty();
            let mut i: usize = 0;
            assert(parts.take(0) =~= Seq::empty());
            assert(out@ =~= seq![out@[0]] + joined);
            while i < items.len()
                invariant
                    i <= items.len(),
                    v is Array,
                    v->Array_0 == *items,
                    v@ is Array,
                    v@->Array_0.len() == items.len(),
                    forall|j: int| 0 <= j < items.len() ==> (#[trigger] v@->Array_0[j]) == items@[j]@,
                    parts == json_elements(v@->Array_0, floats@),
                    join_parts(parts.take(i as int)) == OutcomeView::Ready(joined),
                    out@ == seq!['['] + joined,
                decreases items.len() - i,
            {
                assert(decreases_to!(*v => v->Array_0));
                assert(decreases_to!(*items => items[i as int]));
                let part = json_of(&items[i], floats);
                assert(part@ == parts[i as int]);
                assert(parts.take(i + 1).drop_last() =~= parts.take(i as int));
                assert(parts.take(i + 1).last() == parts[i as int]);
                match part {
                    Outcome::Ready(text) => {
                        if i > 0 {
                            out.push(',');
                        }
                        out.append(text.as_str());
                        proof {
                            joined = if i == 0 {
                                text@
                            } else {
                                joined + seq![','] + text@
                            };
                            assert(out@ =~= seq!['['] + joined);
                        }
                    },
                    Outcome::Failed(failure) => {
                        proof {
                            join_stops_at(parts, i as int);
                        }
                        return Outcome::Failed(failure);
                    },
                    Outcome::Needs(query) => {
                        proof {
                            join_stops_at(parts, i as int);
                        }
                        return Outcome::Needs(query);
                    },
                }
                i += 1;
            }
            assert(parts.take(items.len() as int) =~= parts);
            out.push(']');
            assert(out@ =~= seq!['['] + joined + seq![']']);
            Outcome::Ready(out)
        },
        Value::Object(fields) => {
            proof {
                object_view_is_fieldwise(*v);
            }
            let ghost parts = json_fields(v@->Object_0, floats@);
            let mut out = String::new();
            out.push('{');
            let ghost mut joined: Seq<char> = Seq::empty();
            let mut i: usize = 0;
            assert(parts.take(0) =~= Seq::empty());
            assert(out@ =~= seq![out@[0]] + joined);
            while i < fields.len()
                invariant
                    i <= fields.len(),
                    v is Object,
                    v->Object_0 == *fields,
                    v@ is Object,
                    v@->Object_0.len() == fields.len(),
                    forall|j: int|
                        0 <= j < fields.len() ==> (#[trigger] v@->Object_0[j]) == (
                            fields@[j].0@,
                            fields@[j].1@,
                        ),
                    parts == json_fields(v@->Object_0, floats@),
                    join_parts(parts.take(i as int)) == OutcomeView::Ready(joined),
                    out@ == seq!['{'] + joined,
                decreases fields.len() - i,
            {
                assert(decreases_to!(*v => v->Object_0));
                assert(decreases_to!(*fields => fields[i as int]));
                assert(decreases_to!(fields[i as int] => fields[i as int].1));
                let part = json_of(&fields[i].1, floats);
                assert(json_field(fields@[i as int].0@, part@) == parts[i as int]);
                assert(parts.take(i + 1).drop_last() =~= parts.take(i as int));
                assert(parts.take(i + 1).last() == parts[i as int]);
                match part {
                    Outcome::Ready(text) => {
                        if i > 0 {
                            out.push(',');
                        }
                        let name = json_quote(fields[i].0.as_str());
                        out.append(name.as_str());
                        out.push(':');
                        out.append(text.as_str());
                        proof {
                            let field = name@ + seq![':'] + text@;
                            joined = if i == 0 {
                                field
                            } else {
                                joined + seq![','] + field
                            };
                            assert(out@ =~= seq!['{'] + joined);
                        }
                    },
                    Outcome::Failed(failure) => {
                        proof {
                            join_stops_at(parts, i as int);
                        }
                        return Outcome::Failed(failure);
                    },
                    Outcome::Needs(query) => {
                        proof {
                            join_stops_at(parts, i as int);
                        }
                        return Outcome::Needs(query);
                    },
                }
                i += 1;
            }
            assert(parts.take(fields.len() as int) =~= parts);
            out.push('}');
            assert(out@ =~= seq!['{'] + joined + seq!['}']);
            Outcome::Ready(out)
        },
    }
}

} // verus!
