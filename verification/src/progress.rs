//! How evaluations and the table of answers about doubles go together.
//!
//! An evaluation that stops for an answer asks for one that the table
//! lacks, so the answer can be recorded. And an evaluation that does not
//! stop is not changed by answers that are recorded later: what it gave,
//! it gives for every table that holds the same answers and more.

use vstd::prelude::*;
use crate::ast::NodeView;
use crate::calendar::{date_field_of, time_of};
use crate::casts::{cast_float_of, cast_int_of, cast_str_of, string_form};
use crate::config::Builtin;
use crate::consts::{constant_value, number_of, TypeOfString};
use crate::dialog::evaluation;
use crate::evaluator::{apply_arith, apply_binary, apply_builtin, apply_equality, apply_relation, both_promoted, constant_member, eval_each, eval_node, gather, promoted, resolve, ScopeView};
use crate::float_table::{shaped, FloatOp, OutcomeView, QueryView, ReplyView};
use crate::json::{enclosed, join_parts, json_elements, json_field, json_fields, json_text};
use crate::lenient::{fraction_fallback, lenient_int};
use crate::pattern::is_match_of;
use crate::value::ValueView;

verus! {

/// If the outcome is a question, the facts hold no answer to it.
pub open spec fn asks_anew<T>(outcome: OutcomeView<T>, facts: Map<QueryView, ReplyView>) -> bool {
    outcome is Needs ==> !facts.contains_key(outcome->Needs_0)
}

/// The parts joined ask anew if each part does.
pub proof fn joined_parts_ask_anew(
    parts: Seq<OutcomeView<Seq<char>>>,
    facts: Map<QueryView, ReplyView>,
)
    requires
        forall|i: int| 0 <= i < parts.len() ==> asks_anew(#[trigger] parts[i], facts),
    ensures
        asks_anew(join_parts(parts), facts),
    decreases parts.len(),
{
    if parts.len() > 0 {
        let front = parts.drop_last();
        assert forall|i: int| 0 <= i < front.len() implies asks_anew(#[trigger] front[i], facts) by {
            assert(front[i] == parts[i]);
        }
        joined_parts_ask_anew(front, facts);
        assert(asks_anew(parts[parts.len() - 1], facts));
    }
}

/// The parts gathered ask anew if each part does.
pub proof fn gathered_parts_ask_anew(
    parts: Seq<OutcomeView<ValueView>>,
    facts: Map<QueryView, ReplyView>,
)
    requires
        forall|i: int| 0 <= i < parts.len() ==> asks_anew(#[trigger] parts[i], facts),
    ensures
        asks_anew(gather(parts), facts),
    decreases parts.len(),
{
    if parts.len() > 0 {
        let front = parts.drop_last();
        assert forall|i: int| 0 <= i < front.len() implies asks_anew(#[trigger] front[i], facts) by {
            assert(front[i] == parts[i]);
        }
        gathered_parts_ask_anew(front, facts);
        assert(asks_anew(parts[parts.len() - 1], facts));
    }
}

/// The JSON text of a value asks anew.
pub proof fn json_text_asks_anew(v: ValueView, facts: Map<QueryView, ReplyView>)
    requires
        shaped(facts),
    ensures
        asks_anew(json_text(v, facts), facts),
    decreases v,
{
    match v {
        ValueView::Array(items) => {
            let parts = json_elements(items, facts);
            assert forall|i: int| 0 <= i < parts.len() implies asks_anew(
                #[trigger] parts[i],
                facts,
            ) by {
                json_text_asks_anew(items[i], facts);
            }
            joined_parts_ask_anew(parts, facts);
        },
        ValueView::Object(fields) => {
            let parts = json_fields(fields, facts);
            assert forall|i: int| 0 <= i < parts.len() implies asks_anew(
                #[trigger] parts[i],
                facts,
            ) by {
                json_text_asks_anew(fields[i].1, facts);
            }
            joined_parts_ask_anew(parts, facts);
        },
        _ => {},
    }
}

/// The casts, the pattern match and the conversions of numbers ask anew.
pub proof fn builtins_ask_anew(
    builtin: Builtin,
    args: Seq<ValueView>,
    scope: ScopeView,
    facts: Map<QueryView, ReplyView>,
    position: usize,
)
    requires
        shaped(facts),
    ensures
        asks_anew(apply_builtin(builtin, args, scope, facts, position), facts),
{
    if args.len() > 0 {
        json_text_asks_anew(args[0], facts);
        match args[0] {
            ValueView::String(s) => {
                assert(asks_anew(lenient_int(s, facts), facts));
            },
            _ => {},
        }
        assert(asks_anew(string_form(args[0], facts), facts));
    }
    assert(asks_anew(cast_int_of(args, facts), facts));
    assert(asks_anew(cast_float_of(args, facts), facts));
    assert(asks_anew(cast_str_of(args, facts), facts));
    assert(asks_anew(is_match_of(args, facts, position), facts));
    assert(asks_anew(date_field_of(crate::calendar::DateField::Day, args, scope.now, position), facts));
    assert(asks_anew(time_of(args, scope.now, position), facts));
}

/// The operators ask anew.
pub proof fn operators_ask_anew(
    op: crate::ast::BinaryOp,
    a: ValueView,
    b: ValueView,
    facts: Map<QueryView, ReplyView>,
    position: usize,
)
    requires
        shaped(facts),
    ensures
        asks_anew(apply_binary(op, a, b, facts, position), facts),
{
    assert(asks_anew(promoted(a, facts), facts));
    assert(asks_anew(promoted(b, facts), facts));
    assert(asks_anew(both_promoted(a, b, facts), facts));
    assert(asks_anew(apply_arith(op, a, b, facts, position), facts));
    assert(asks_anew(apply_relation(op, a, b, facts, position), facts));
    assert(asks_anew(apply_equality(op, a, b, facts), facts));
}

/// The value of a constant asks anew.
pub proof fn constants_ask_anew(name: Seq<char>, facts: Map<QueryView, ReplyView>)
    requires
        shaped(facts),
    ensures
        constant_value(name, facts) is Some ==> asks_anew(constant_value(name, facts)->Some_0, facts),
        asks_anew(constant_member(name, facts), facts),
{
}

/// An evaluation of a tree asks anew.
pub proof fn eval_node_asks_anew(node: NodeView, scope: ScopeView, facts: Map<QueryView, ReplyView>)
    requires
        shaped(facts),
    ensures
        asks_anew(eval_node(node, scope, facts), facts),
    decreases node,
{
    match node {
        NodeView::Literal(v) => {},
        NodeView::FloatLiteral(text) => {
            assert(asks_anew(number_of(text, TypeOfString::F64, facts), facts));
        },
        NodeView::Identifier(name, position) => {
            constants_ask_anew(name, facts);
            assert(asks_anew(resolve(name, scope, facts, position), facts));
        },
        NodeView::Member(base, field, position) => {
            constants_ask_anew(field, facts);
            eval_node_asks_anew(*base, scope, facts);
        },
        NodeView::Array(items) => {
            let parts = eval_each(items, scope, facts);
            assert forall|i: int| 0 <= i < parts.len() implies asks_anew(
                #[trigger] parts[i],
                facts,
            ) by {
                eval_node_asks_anew(items[i], scope, facts);
            }
            gathered_parts_ask_anew(parts, facts);
        },
        NodeView::Range(start, end, position) => {
            eval_node_asks_anew(*start, scope, facts);
            eval_node_asks_anew(*end, scope, facts);
        },
        NodeView::Unary(op, operand, position) => {
            eval_node_asks_anew(*operand, scope, facts);
        },
        NodeView::Binary(op, left, right, position) => {
            eval_node_asks_anew(*left, scope, facts);
            eval_node_asks_anew(*right, scope, facts);
            match (eval_node(*left, scope, facts), eval_node(*right, scope, facts)) {
                (OutcomeView::Ready(a), OutcomeView::Ready(b)) => {
                    operators_ask_anew(op, a, b, facts, position);
                },
                _ => {},
            }
        },
        NodeView::Call(name, args, position) => {
            let parts = eval_each(args, scope, facts);
            assert forall|i: int| 0 <= i < parts.len() implies asks_anew(
                #[trigger] parts[i],
                facts,
            ) by {
                eval_node_asks_anew(args[i], scope, facts);
            }
            gathered_parts_ask_anew(parts, facts);
            match (crate::config::builtin_named(name, scope.config), gather(parts)) {
                (Some(builtin), OutcomeView::Ready(values)) => {
                    builtins_ask_anew(builtin, values, scope, facts, position);
                },
                _ => {},
            }
        },
    }
}

/// For every expression, context, system and instant: where the facts are
/// well-shaped, an evaluation that stops with a question stops with one
/// that the facts do not answer.
pub proof fn an_evaluation_asks_anew(
    source: Seq<char>,
    context: Seq<(Seq<char>, Seq<char>)>,
    system: Seq<(Seq<char>, Seq<char>)>,
    now: i64,
    facts: Map<QueryView, ReplyView>,
)
    requires
        shaped(facts),
    ensures
        asks_anew(evaluation(source, context, system, now, facts), facts),
{
    match crate::parser::parse_expression(source) {
        Ok(node) => {
            eval_node_asks_anew(node, crate::laws::full_scope(context, system, now), facts);
        },
        Err(_) => {},
    }
}

/// The facts `more` hold every answer that `facts` hold, and maybe others.
pub open spec fn extends(more: Map<QueryView, ReplyView>, facts: Map<QueryView, ReplyView>) -> bool {
    forall|query: QueryView| #[trigger]
        facts.contains_key(query) ==> more.contains_key(query) && more[query] == facts[query]
}

/// Unless the first outcome is a question, the second is the same.
pub open spec fn settled<T>(before: OutcomeView<T>, after: OutcomeView<T>) -> bool {
    !(before is Needs) ==> after == before
}

/// The parts joined are settled if each part is.
pub proof fn joined_parts_are_settled(
    before: Seq<OutcomeView<Seq<char>>>,
    after: Seq<OutcomeView<Seq<char>>>,
)
    requires
        before.len() == after.len(),
        forall|i: int| 0 <= i < before.len() ==> settled(#[trigger] before[i], after[i]),
    ensures
        settled(join_parts(before), join_parts(after)),
    decreases before.len(),
{
    if before.len() > 0 {
        let last = before.len() - 1;
        assert forall|i: int| 0 <= i < last implies settled(
            #[trigger] before.drop_last()[i],
            after.drop_last()[i],
        ) by {
            assert(before.drop_last()[i] == before[i]);
            assert(after.drop_last()[i] == after[i]);
        }
        joined_parts_are_settled(before.drop_last(), after.drop_last());
        assert(settled(before[last], after[last]));
    }
}

/// The parts gathered are settled if each part is.
pub proof fn gathered_parts_are_settled(
    before: Seq<OutcomeView<ValueView>>,
    after: Seq<OutcomeView<ValueView>>,
)
    requires
        before.len() == after.len(),
        forall|i: int| 0 <= i < before.len() ==> settled(#[trigger] before[i], after[i]),
    ensures
        settled(gather(before), gather(after)),
    decreases before.len(),
{
    if before.len() > 0 {
        let last = before.len() - 1;
        assert forall|i: int| 0 <= i < last implies settled(
            #[trigger] before.drop_last()[i],
            after.drop_last()[i],
        ) by {
            assert(before.drop_last()[i] == before[i]);
            assert(after.drop_last()[i] == after[i]);
        }
        gathered_parts_are_settled(before.drop_last(), after.drop_last());
        assert(settled(before[last], after[last]));
    }
}

/// The JSON text of a value is settled.
pub proof fn json_text_is_settled(
    v: ValueView,
    facts: Map<QueryView, ReplyView>,
    more: Map<QueryView, ReplyView>,
)
    requires
        extends(more, facts),
    ensures
        settled(json_text(v, facts), json_text(v, more)),
    decreases v,
{
    match v {
        ValueView::Array(items) => {
            let before = json_elements(items, facts);
            let after = json_elements(items, more);
            assert forall|i: int| 0 <= i < before.len() implies settled(
                #[trigger] before[i],
                after[i],
            ) by {
                json_text_is_settled(items[i], facts, more);
            }
            joined_parts_are_settled(before, after);
        },
        ValueView::Object(fields) => {
            let before = json_fields(fields, facts);
            let after = json_fields(fields, more);
            assert forall|i: int| 0 <= i < before.len() implies settled(
                #[trigger] before[i],
                after[i],
            ) by {
                json_text_is_settled(fields[i].1, facts, more);
            }
            joined_parts_are_settled(before, after);
        },
        ValueView::Float64(bits) => {
            assert(facts.contains_key(QueryView::JsonShow(bits)) ==> more.contains_key(
                QueryView::JsonShow(bits),
            ));
        },
        _ => {},
    }
}

/// What the facts say of a query, the larger facts say too.
pub proof fn answers_are_kept(
    query: QueryView,
    facts: Map<QueryView, ReplyView>,
    more: Map<QueryView, ReplyView>,
)
    requires
        extends(more, facts),
    ensures
        facts.contains_key(query) ==> more.contains_key(query) && more[query] == facts[query],
{
}

/// The builtin functions are settled.
pub proof fn builtins_are_settled(
    builtin: Builtin,
    args: Seq<ValueView>,
    scope: ScopeView,
    facts: Map<QueryView, ReplyView>,
    more: Map<QueryView, ReplyView>,
    position: usize,
)
    requires
        extends(more, facts),
    ensures
        settled(
            apply_builtin(builtin, args, scope, facts, position),
            apply_builtin(builtin, args, scope, more, position),
        ),
{
    if args.len() > 0 {
        json_text_is_settled(args[0], facts, more);
        match args[0] {
            ValueView::String(s) => {
                answers_are_kept(QueryView::Parse(s), facts, more);
                answers_are_kept(QueryView::Parse(crate::lenient::numeric_token(s)), facts, more);
                assert(settled(lenient_int(s, facts), lenient_int(s, more)));
            },
            ValueView::Int64(n) => {
                answers_are_kept(QueryView::FromInt(n), facts, more);
            },
            ValueView::Float64(bits) => {
                answers_are_kept(QueryView::Show(bits), facts, more);
            },
            _ => {},
        }
        assert(settled(string_form(args[0], facts), string_form(args[0], more)));
    }
    assert(settled(cast_int_of(args, facts), cast_int_of(args, more)));
    assert(settled(cast_float_of(args, facts), cast_float_of(args, more)));
    assert(settled(cast_str_of(args, facts), cast_str_of(args, more)));
    assert(settled(is_match_of(args, facts, position), is_match_of(args, more, position)));
}

/// A number as a double is settled.
pub proof fn promotion_is_settled(
    v: ValueView,
    facts: Map<QueryView, ReplyView>,
    more: Map<QueryView, ReplyView>,
)
    requires
        extends(more, facts),
    ensures
        settled(promoted(v, facts), promoted(v, more)),
{
    match v {
        ValueView::Int64(n) => {
            answers_are_kept(QueryView::FromInt(n), facts, more);
        },
        _ => {},
    }
}

/// The operators are settled.
pub proof fn operators_are_settled(
    op: crate::ast::BinaryOp,
    a: ValueView,
    b: ValueView,
    facts: Map<QueryView, ReplyView>,
    more: Map<QueryView, ReplyView>,
    position: usize,
)
    requires
        extends(more, facts),
    ensures
        settled(apply_binary(op, a, b, facts, position), apply_binary(op, a, b, more, position)),
{
    promotion_is_settled(a, facts, more);
    promotion_is_settled(b, facts, more);
    assert(settled(both_promoted(a, b, facts), both_promoted(a, b, more)));
    match both_promoted(a, b, facts) {
        OutcomeView::Ready((x, y)) => {
            answers_are_kept(QueryView::Arith(crate::evaluator::float_op(op), x, y), facts, more);
        },
        _ => {},
    }
    assert(settled(apply_arith(op, a, b, facts, position), apply_arith(op, a, b, more, position)));
    assert(settled(
        apply_relation(op, a, b, facts, position),
        apply_relation(op, a, b, more, position),
    ));
    assert(settled(apply_equality(op, a, b, facts), apply_equality(op, a, b, more)));
}

/// The number that a text stands for is settled.
pub proof fn numbers_are_settled(
    text: Seq<char>,
    kind: TypeOfString,
    facts: Map<QueryView, ReplyView>,
    more: Map<QueryView, ReplyView>,
)
    requires
        extends(more, facts),
    ensures
        settled(number_of(text, kind, facts), number_of(text, kind, more)),
{
    answers_are_kept(QueryView::Parse(text), facts, more);
}

/// The value of a constant is settled.
pub proof fn constants_are_settled(
    name: Seq<char>,
    facts: Map<QueryView, ReplyView>,
    more: Map<QueryView, ReplyView>,
)
    requires
        extends(more, facts),
    ensures
        constant_value(name, facts) is Some == constant_value(name, more) is Some,
        constant_value(name, facts) is Some ==> settled(
            constant_value(name, facts)->Some_0,
            constant_value(name, more)->Some_0,
        ),
        settled(constant_member(name, facts), constant_member(name, more)),
{
    match crate::consts::constant_named(name) {
        Some((text, kind)) => {
            numbers_are_settled(text, kind, facts, more);
        },
        None => {},
    }
}

/// An evaluation of a tree is settled.
pub proof fn eval_node_is_settled(
    node: NodeView,
    scope: ScopeView,
    facts: Map<QueryView, ReplyView>,
    more: Map<QueryView, ReplyView>,
)
    requires
        extends(more, facts),
    ensures
        settled(eval_node(node, scope, facts), eval_node(node, scope, more)),
    decreases node,
{
    match node {
        NodeView::Literal(v) => {},
        NodeView::FloatLiteral(text) => {
            numbers_are_settled(text, TypeOfString::F64, facts, more);
        },
        NodeView::Identifier(name, position) => {
            constants_are_settled(name, facts, more);
        },
        NodeView::Member(base, field, position) => {
            constants_are_settled(field, facts, more);
            eval_node_is_settled(*base, scope, facts, more);
        },
        NodeView::Array(items) => {
            let before = eval_each(items, scope, facts);
            let after = eval_each(items, scope, more);
            assert forall|i: int| 0 <= i < before.len() implies settled(
                #[trigger] before[i],
                after[i],
            ) by {
                eval_node_is_settled(items[i], scope, facts, more);
            }
            gathered_parts_are_settled(before, after);
        },
        NodeView::Range(start, end, position) => {
            eval_node_is_settled(*start, scope, facts, more);
            eval_node_is_settled(*end, scope, facts, more);
        },
        NodeView::Unary(op, operand, position) => {
            eval_node_is_settled(*operand, scope, facts, more);
        },
        NodeView::Binary(op, left, right, position) => {
            eval_node_is_settled(*left, scope, facts, more);
            eval_node_is_settled(*right, scope, facts, more);
            match (eval_node(*left, scope, facts), eval_node(*right, scope, facts)) {
                (OutcomeView::Ready(a), OutcomeView::Ready(b)) => {
                    operators_are_settled(op, a, b, facts, more, position);
                },
                _ => {},
            }
        },
        NodeView::Call(name, args, position) => {
            let before = eval_each(args, scope, facts);
            let after = eval_each(args, scope, more);
            assert forall|i: int| 0 <= i < before.len() implies settled(
                #[trigger] before[i],
                after[i],
            ) by {
                eval_node_is_settled(args[i], scope, facts, more);
            }
            gathered_parts_are_settled(before, after);
            match (crate::config::builtin_named(name, scope.config), gather(before)) {
                (Some(builtin), OutcomeView::Ready(values)) => {
                    builtins_are_settled(builtin, values, scope, facts, more, position);
                },
                _ => {},
            }
        },
    }
}

/// For every expression, context, system and instant: an evaluation that
/// has given a value or has failed gives the same for every table that
/// holds the same answers and more.
pub proof fn a_finished_evaluation_stays(
    source: Seq<char>,
    context: Seq<(Seq<char>, Seq<char>)>,
    system: Seq<(Seq<char>, Seq<char>)>,
    now: i64,
    facts: Map<QueryView, ReplyView>,
    more: Map<QueryView, ReplyView>,
)
    requires
        extends(more, facts),
    ensures
        settled(
            evaluation(source, context, system, now, facts),
            evaluation(source, context, system, now, more),
        ),
{
    match crate::parser::parse_expression(source) {
        Ok(node) => {
            eval_node_is_settled(node, crate::laws::full_scope(context, system, now), facts, more);
        },
        Err(_) => {},
    }
}

} // verus!
