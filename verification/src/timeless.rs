//! Expressions that do not read the clock: their value is the same at
//! every instant.

use vstd::prelude::*;
use crate::ast::NodeView;
use crate::config::{builtin_named, Builtin, EvalConfig};
use crate::dialog::evaluation;
use crate::evaluator::{eval_each, eval_node, ScopeView};
use crate::float_table::{QueryView, ReplyView};
use crate::parser::parse_expression;

verus! {

/// Whether a call of that name is a call of a date or time function.
pub open spec fn is_clock_call(name: Seq<char>, config: EvalConfig) -> bool {
    match builtin_named(name, config) {
        Some(Builtin::Date(_)) => true,
        Some(Builtin::Time) => true,
        _ => false,
    }
}

/// Whether one of the nodes reads the clock.
pub open spec fn any_reads_clock(nodes: Seq<NodeView>, config: EvalConfig) -> bool
    decreases nodes, 0nat,
{
    exists|i: int| 0 <= i < nodes.len() && reads_clock(#[trigger] nodes[i], config)
}

/// Whether the expression holds a call of a date or time function.
pub open spec fn reads_clock(node: NodeView, config: EvalConfig) -> bool
    decreases node, 1nat,
{
    match node {
        NodeView::Literal(_) => false,
        NodeView::FloatLiteral(_) => false,
        NodeView::Identifier(_, _) => false,
        NodeView::Member(base, _, _) => reads_clock(*base, config),
        NodeView::Array(items) => any_reads_clock(items, config),
        NodeView::Range(start, end, _) => reads_clock(*start, config) || reads_clock(*end, config),
        NodeView::Unary(_, operand, _) => reads_clock(*operand, config),
        NodeView::Binary(_, left, right, _) => reads_clock(*left, config) || reads_clock(
            *right,
            config,
        ),
        NodeView::Call(name, args, _) => is_clock_call(name, config) || any_reads_clock(
            args,
            config,
        ),
    }
}

/// Whether the source, with every builtin on offer, is an expression that
/// does not read the clock, or is no expression at all.
pub open spec fn is_timeless(source: Seq<char>) -> bool {
    match parse_expression(source) {
        Ok(node) => !reads_clock(
            node,
            EvalConfig {
                include_maths: true,
                include_datetime: true,
                include_cast: true,
                include_regex: true,
            },
        ),
        Err(_) => true,
    }
}

/// The scope at another instant.
pub open spec fn at_instant(scope: ScopeView, now: i64) -> ScopeView {
    ScopeView { context: scope.context, system: scope.system, config: scope.config, now }
}

/// An expression that does not read the clock has the same value at every
/// instant.
pub proof fn the_value_does_not_depend_on_the_instant(
    node: NodeView,
    scope: ScopeView,
    other: i64,
    facts: Map<QueryView, ReplyView>,
)
    requires
        !reads_clock(node, scope.config),
    ensures
        eval_node(node, at_instant(scope, other), facts) == eval_node(node, scope, facts),
    decreases node,
{
    let moved = at_instant(scope, other);
    match node {
        NodeView::Literal(_) => {},
        NodeView::FloatLiteral(_) => {},
        NodeView::Identifier(_, _) => {},
        NodeView::Member(base, _, _) => {
            the_value_does_not_depend_on_the_instant(*base, scope, other, facts);
        },
        NodeView::Array(items) => {
            assert(!any_reads_clock(items, scope.config));
            assert forall|i: int| 0 <= i < items.len() implies eval_node(items[i], moved, facts)
                == eval_node(#[trigger] items[i], scope, facts) by {
                assert(!reads_clock(items[i], scope.config));
                the_value_does_not_depend_on_the_instant(items[i], scope, other, facts);
            }
            assert(eval_each(items, moved, facts) =~= eval_each(items, scope, facts));
        },
        NodeView::Range(start, end, _) => {
            the_value_does_not_depend_on_the_instant(*start, scope, other, facts);
            the_value_does_not_depend_on_the_instant(*end, scope, other, facts);
        },
        NodeView::Unary(_, operand, _) => {
            the_value_does_not_depend_on_the_instant(*operand, scope, other, facts);
        },
        NodeView::Binary(_, left, right, _) => {
            the_value_does_not_depend_on_the_instant(*left, scope, other, facts);
            the_value_does_not_depend_on_the_instant(*right, scope, other, facts);
        },
        NodeView::Call(name, args, _) => {
            assert(!any_reads_clock(args, scope.config));
            assert forall|i: int| 0 <= i < args.len() implies eval_node(args[i], moved, facts)
                == eval_node(#[trigger] args[i], scope, facts) by {
                assert(!reads_clock(args[i], scope.config));
                the_value_does_not_depend_on_the_instant(args[i], scope, other, facts);
            }
            assert(eval_each(args, moved, facts) =~= eval_each(args, scope, facts));
        },
    }
}

/// For every source that does not read the clock, every context and
/// system and whatever is known of doubles: the evaluation gives the same
/// at any two instants.
pub proof fn a_timeless_evaluation_is_the_same_at_every_instant(
    source: Seq<char>,
    context: Seq<(Seq<char>, Seq<char>)>,
    system: Seq<(Seq<char>, Seq<char>)>,
    now: i64,
    other: i64,
    facts: Map<QueryView, ReplyView>,
)
    requires
        is_timeless(source),
    ensures
        evaluation(source, context, system, other, facts) == evaluation(
            source,
            context,
            system,
            now,
            facts,
        ),
{
    match parse_expression(source) {
        Ok(node) => {
            let scope = crate::laws::full_scope(context, system, now);
            the_value_does_not_depend_on_the_instant(node, scope, other, facts);
            assert(at_instant(scope, other) == crate::laws::full_scope(context, system, other));
        },
        Err(_) => {},
    }
}

} // verus!
