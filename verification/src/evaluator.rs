//! The evaluation of a syntax tree.
//!
//! Operands are evaluated from left to right, and the first that fails or
//! that needs an answer about doubles ends the evaluation with its outcome.

use vstd::prelude::*;
use crate::ast::{array_node_view, call_node_view, nodes_view, BinaryOp, Node, NodeView, UnaryOp};
use crate::bindings::{as_object, Bindings};
use crate::calendar::{date_field_of, date_function, time_function, time_of};
use crate::casts::{cast_bool, cast_bool_of, cast_float, cast_float_of, cast_int, cast_int_of, cast_str, cast_str_of};
use crate::config::{builtin_named, find_builtin, Builtin, EvalConfig};
use crate::consts::{constant_value, find_constant, number_from, number_of, TypeOfString};
use crate::failure::{EvalError, EvalFault, Failure};
use crate::float_bits::{bits_eq, bits_le, bits_lt, bits_negate, float_eq, float_le, float_lt, NAN_BITS, SIGN_BIT};
use crate::float_table::{known_bits, FloatOp, FloatQuery, FloatTable, Outcome, OutcomeView, QueryView, ReplyView};
use crate::pattern::{is_match, is_match_of};
use crate::text::same_text;
use crate::value::{array_view_is_elementwise, object_view_is_fieldwise, same_value, values_view, Value, ValueView};

verus! {

/// What an expression is evaluated against: the context and the system
/// facts, which of the builtins are on offer, and the instant that counts
/// as now, in seconds since the start of 1970 in UTC.
pub struct Scope<'a> {
    pub context: &'a Bindings,
    pub system: &'a Bindings,
    pub config: EvalConfig,
    pub now: i64,
}

/// The content of a [`Scope`].
pub struct ScopeView {
    pub context: Seq<(Seq<char>, Seq<char>)>,
    pub system: Seq<(Seq<char>, Seq<char>)>,
    pub config: EvalConfig,
    pub now: i64,
}

impl<'a> View for Scope<'a> {
    type V = ScopeView;

    open spec fn view(&self) -> ScopeView {
        ScopeView {
            context: self.context@,
            system: self.system@,
            config: self.config,
            now: self.now,
        }
    }
}

/// The failure of that kind at that position.
pub open spec fn failed(fault: EvalFault, position: usize) -> OutcomeView<ValueView> {
    OutcomeView::Failed(Failure::Eval(EvalError { position, fault }))
}

/// The values of the parts, if all of them are ready; else the outcome of
/// the first part that is not.
pub open spec fn gather(parts: Seq<OutcomeView<ValueView>>) -> OutcomeView<Seq<ValueView>>
    decreases parts.len(),
{
    if parts.len() == 0 {
        OutcomeView::Ready(Seq::empty())
    } else {
        match gather(parts.drop_last()) {
            OutcomeView::Ready(front) => match parts.last() {
                OutcomeView::Ready(v) => OutcomeView::Ready(front.push(v)),
                OutcomeView::Failed(failure) => OutcomeView::Failed(failure),
                OutcomeView::Needs(query) => OutcomeView::Needs(query),
            },
            other => other,
        }
    }
}

/// A part that is not ready, with ready parts before it, decides what the
/// gathering gives.
pub proof fn gather_stops_at(parts: Seq<OutcomeView<ValueView>>, at: int)
    requires
        0 <= at < parts.len(),
        gather(parts.take(at)) is Ready,
        !(parts[at] is Ready),
    ensures
        parts[at] is Failed ==> gather(parts) == OutcomeView::<Seq<ValueView>>::Failed(
            parts[at]->Failed_0,
        ),
        parts[at] is Needs ==> gather(parts) == OutcomeView::<Seq<ValueView>>::Needs(
            parts[at]->Needs_0,
        ),
    decreases parts.len(),
{
    if at == parts.len() - 1 {
        assert(parts.drop_last() =~= parts.take(at));
    } else {
        let front = parts.drop_last();
        assert(front.take(at) =~= parts.take(at));
        gather_stops_at(front, at);
    }
}

/// The value of the first field of that name, and null if there is none.
pub open spec fn field_named(fields: Seq<(Seq<char>, ValueView)>, name: Seq<char>) -> ValueView
    decreases fields.len(),
{
    if fields.len() == 0 {
        ValueView::Null
    } else if fields[0].0 == name {
        fields[0].1
    } else {
        field_named(fields.drop_first(), name)
    }
}

/// `value.field`: the field of an object, null for a field that the object
/// lacks and for any field of null. Anything else has no fields.
pub open spec fn member_of(v: ValueView, field: Seq<char>, position: usize) -> OutcomeView<
    ValueView,
> {
    match v {
        ValueView::Object(fields) => OutcomeView::Ready(field_named(fields, field)),
        ValueView::Null => OutcomeView::Ready(ValueView::Null),
        _ => failed(EvalFault::TypeMismatch, position),
    }
}

/// What a name stands for: `ctx` and `sys` for the context and the system
/// facts as objects, the name of a constant for its value where constants
/// are on offer, anything else for nothing.
pub open spec fn resolve(
    name: Seq<char>,
    scope: ScopeView,
    facts: Map<QueryView, ReplyView>,
    position: usize,
) -> OutcomeView<ValueView> {
    if name == "ctx"@ {
        OutcomeView::Ready(as_object(scope.context))
    } else if name == "sys"@ {
        OutcomeView::Ready(as_object(scope.system))
    } else if scope.config.include_maths && constant_value(name, facts) is Some {
        constant_value(name, facts)->Some_0
    } else {
        failed(EvalFault::UnresolvedReference, position)
    }
}

/// Whether the node is the name `maths`, under which the constants are
/// fields, and constants are on offer.
pub open spec fn is_constants_root(node: NodeView, scope: ScopeView) -> bool {
    scope.config.include_maths && node is Identifier && node->Identifier_0 == "maths"@
}

/// `maths.field`: the constant of that name, and null if there is none.
pub open spec fn constant_member(field: Seq<char>, facts: Map<QueryView, ReplyView>)
    -> OutcomeView<ValueView> {
    match constant_value(field, facts) {
        Some(outcome) => outcome,
        None => OutcomeView::Ready(ValueView::Null),
    }
}

/// The integers from `from` up to, not including, `to`.
pub open spec fn counting(from: int, to: int) -> Seq<ValueView> {
    Seq::new(
        (if to > from {
            to - from
        } else {
            0
        }) as nat,
        |i: int| ValueView::Int64(from + i),
    )
}

/// `start..end`: the array of the integers from `start` up to, not
/// including, `end`; empty if `end` is not beyond `start`.
pub open spec fn range_of(a: ValueView, b: ValueView, position: usize) -> OutcomeView<ValueView> {
    match (a, b) {
        (ValueView::Int64(from), ValueView::Int64(to)) => OutcomeView::Ready(
            ValueView::Array(counting(from, to)),
        ),
        _ => failed(EvalFault::TypeMismatch, position),
    }
}

/// `!v` for a boolean and `-v` for a number; the negative of the least
/// integer is itself.
pub open spec fn apply_unary(op: UnaryOp, v: ValueView, position: usize) -> OutcomeView<ValueView> {
    match (op, v) {
        (UnaryOp::Not, ValueView::Bool(b)) => OutcomeView::Ready(ValueView::Bool(!b)),
        (UnaryOp::Neg, ValueView::Int64(n)) => OutcomeView::Ready(
            ValueView::Int64(0i64.wrapping_sub(n as i64) as int),
        ),
        (UnaryOp::Neg, ValueView::Float64(bits)) => OutcomeView::Ready(
            ValueView::Float64(bits ^ SIGN_BIT),
        ),
        _ => failed(EvalFault::TypeMismatch, position),
    }
}

/// Whether the value is an integer or a double.
pub open spec fn is_number(v: ValueView) -> bool {
    v is Int64 || v is Float64
}

/// A number as a double: a double as it is, an integer as the facts give
/// it.
pub open spec fn promoted(v: ValueView, facts: Map<QueryView, ReplyView>) -> OutcomeView<u64> {
    match v {
        ValueView::Float64(bits) => OutcomeView::Ready(bits),
        ValueView::Int64(n) => match known_bits(facts, QueryView::FromInt(n)) {
            Some(bits) => OutcomeView::Ready(bits),
            None => OutcomeView::Needs(QueryView::FromInt(n)),
        },
        _ => OutcomeView::Ready(NAN_BITS),
    }
}

/// Two numbers as doubles, the left one first.
pub open spec fn both_promoted(a: ValueView, b: ValueView, facts: Map<QueryView, ReplyView>)
    -> OutcomeView<(u64, u64)> {
    match promoted(a, facts) {
        OutcomeView::Ready(x) => match promoted(b, facts) {
            OutcomeView::Ready(y) => OutcomeView::Ready((x, y)),
            OutcomeView::Failed(failure) => OutcomeView::Failed(failure),
            OutcomeView::Needs(query) => OutcomeView::Needs(query),
        },
        OutcomeView::Failed(failure) => OutcomeView::Failed(failure),
        OutcomeView::Needs(query) => OutcomeView::Needs(query),
    }
}

/// The operation on doubles that an arithmetic operator stands for.
pub open spec fn float_op(op: BinaryOp) -> FloatOp {
    match op {
        BinaryOp::Sub => FloatOp::Sub,
        BinaryOp::Mul => FloatOp::Mul,
        BinaryOp::Div => FloatOp::Div,
        BinaryOp::Rem => FloatOp::Rem,
        _ => FloatOp::Add,
    }
}

/// What the facts give for an operation on two doubles.
pub open spec fn float_arith(op: FloatOp, x: u64, y: u64, facts: Map<QueryView, ReplyView>)
    -> OutcomeView<ValueView> {
    match known_bits(facts, QueryView::Arith(op, x, y)) {
        Some(bits) => OutcomeView::Ready(ValueView::Float64(bits)),
        None => OutcomeView::Needs(QueryView::Arith(op, x, y)),
    }
}

/// `+`, `-`, `*` and `%` on two integers. Sums, differences and products
/// wrap around at the bounds of the 64-bit integers. A remainder has the
/// sign of the dividend; by zero it is NaN.
pub open spec fn int_arith(op: BinaryOp, x: i64, y: i64) -> ValueView {
    match op {
        BinaryOp::Sub => ValueView::Int64(x.wrapping_sub(y) as int),
        BinaryOp::Mul => ValueView::Int64(x.wrapping_mul(y) as int),
        BinaryOp::Rem => match x.checked_rem(y) {
            Some(r) => ValueView::Int64(r as int),
            None => if y == 0 {
                ValueView::Float64(NAN_BITS)
            } else {
                ValueView::Int64(0)
            },
        },
        _ => ValueView::Int64(x.wrapping_add(y) as int),
    }
}

/// `+`, `-`, `*`, `/` and `%`: on two integers an integer, but for `/`;
/// on two numbers of which one is a double, and for `/`, what the doubles
/// give. Anything but a number is a type mismatch.
pub open spec fn apply_arith(
    op: BinaryOp,
    a: ValueView,
    b: ValueView,
    facts: Map<QueryView, ReplyView>,
    position: usize,
) -> OutcomeView<ValueView> {
    if !is_number(a) || !is_number(b) {
        failed(EvalFault::TypeMismatch, position)
    } else if a is Int64 && b is Int64 && op != BinaryOp::Div {
        OutcomeView::Ready(int_arith(op, a->Int64_0 as i64, b->Int64_0 as i64))
    } else {
        match both_promoted(a, b, facts) {
            OutcomeView::Ready((x, y)) => float_arith(float_op(op), x, y, facts),
            OutcomeView::Failed(failure) => OutcomeView::Failed(failure),
            OutcomeView::Needs(query) => OutcomeView::Needs(query),
        }
    }
}

/// A relation between two integers.
pub open spec fn int_relation(op: BinaryOp, x: int, y: int) -> bool {
    match op {
        BinaryOp::Le => x <= y,
        BinaryOp::Gt => x > y,
        BinaryOp::Ge => x >= y,
        _ => x < y,
    }
}

/// A relation between two doubles, as IEEE defines it.
pub open spec fn float_relation(op: BinaryOp, x: u64, y: u64) -> bool {
    match op {
        BinaryOp::Le => float_le(x, y),
        BinaryOp::Gt => float_lt(y, x),
        BinaryOp::Ge => float_le(y, x),
        _ => float_lt(x, y),
    }
}

/// `<`, `<=`, `>` and `>=`: false if an operand is null; between two
/// numbers the relation, with an integer next to a double taken as a
/// double. Anything else is a type mismatch.
pub open spec fn apply_relation(
    op: BinaryOp,
    a: ValueView,
    b: ValueView,
    facts: Map<QueryView, ReplyView>,
    position: usize,
) -> OutcomeView<ValueView> {
    if a is Null || b is Null {
        OutcomeView::Ready(ValueView::Bool(false))
    } else if !is_number(a) || !is_number(b) {
        failed(EvalFault::TypeMismatch, position)
    } else if a is Int64 && b is Int64 {
        OutcomeView::Ready(ValueView::Bool(int_relation(op, a->Int64_0, b->Int64_0)))
    } else {
        match both_promoted(a, b, facts) {
            OutcomeView::Ready((x, y)) => OutcomeView::Ready(
                ValueView::Bool(float_relation(op, x, y)),
            ),
            OutcomeView::Failed(failure) => OutcomeView::Failed(failure),
            OutcomeView::Needs(query) => OutcomeView::Needs(query),
        }
    }
}

/// `==` and `!=`: between two numbers by their values, with an integer
/// next to a double taken as a double; between other values by
/// [`same_value`].
pub open spec fn apply_equality(
    op: BinaryOp,
    a: ValueView,
    b: ValueView,
    facts: Map<QueryView, ReplyView>,
) -> OutcomeView<ValueView> {
    let wanted = op == BinaryOp::Eq;
    if a is Int64 && b is Int64 {
        OutcomeView::Ready(ValueView::Bool((a->Int64_0 == b->Int64_0) == wanted))
    } else if is_number(a) && is_number(b) {
        match both_promoted(a, b, facts) {
            OutcomeView::Ready((x, y)) => OutcomeView::Ready(
                ValueView::Bool(float_eq(x, y) == wanted),
            ),
            OutcomeView::Failed(failure) => OutcomeView::Failed(failure),
            OutcomeView::Needs(query) => OutcomeView::Needs(query),
        }
    } else {
        OutcomeView::Ready(ValueView::Bool(same_value(a, b) == wanted))
    }
}

/// An operator other than `&&` and `||` on the values of its operands.
pub open spec fn apply_binary(
    op: BinaryOp,
    a: ValueView,
    b: ValueView,
    facts: Map<QueryView, ReplyView>,
    position: usize,
) -> OutcomeView<ValueView> {
    match op {
        BinaryOp::Eq | BinaryOp::Ne => apply_equality(op, a, b, facts),
        BinaryOp::Lt | BinaryOp::Le | BinaryOp::Gt | BinaryOp::Ge => apply_relation(
            op,
            a,
            b,
            facts,
            position,
        ),
        _ => apply_arith(op, a, b, facts, position),
    }
}

/// A builtin function on the values of its arguments.
pub open spec fn apply_builtin(
    builtin: Builtin,
    args: Seq<ValueView>,
    scope: ScopeView,
    facts: Map<QueryView, ReplyView>,
    position: usize,
) -> OutcomeView<ValueView> {
    match builtin {
        Builtin::Int => cast_int_of(args, facts),
        Builtin::Float => cast_float_of(args, facts),
        Builtin::Bool => OutcomeView::Ready(ValueView::Bool(cast_bool_of(args))),
        Builtin::Str => cast_str_of(args, facts),
        Builtin::IsMatch => is_match_of(args, facts, position),
        Builtin::Date(field) => date_field_of(field, args, scope.now, position),
        Builtin::Time => time_of(args, scope.now, position),
    }
}

/// The right operand of `&&` and `||` once the left one did not decide.
pub open spec fn logical_right(right: OutcomeView<ValueView>, position: usize) -> OutcomeView<
    ValueView,
> {
    match right {
        OutcomeView::Ready(ValueView::Bool(y)) => OutcomeView::Ready(ValueView::Bool(y)),
        OutcomeView::Ready(_) => failed(EvalFault::TypeMismatch, position),
        other => other,
    }
}

/// The outcome of each node of a list.
pub open spec fn eval_each(nodes: Seq<NodeView>, scope: ScopeView, facts: Map<QueryView, ReplyView>)
    -> Seq<OutcomeView<ValueView>>
    decreases nodes, 0nat,
{
    Seq::new(
        nodes.len(),
        |i: int|
            if 0 <= i < nodes.len() {
                eval_node(nodes[i], scope, facts)
            } else {
                OutcomeView::Ready(ValueView::Null)
            },
    )
}

/// The value of an expression in a scope, for what is known of doubles.
///
/// `&&` and `||` take booleans and leave their right operand alone where
/// the left one decides. A call of a name that is no builtin on offer is
/// an unknown function, whatever its arguments.
pub open spec fn eval_node(node: NodeView, scope: ScopeView, facts: Map<QueryView, ReplyView>)
    -> OutcomeView<ValueView>
    decreases node, 1nat,
{
    match node {
        NodeView::Literal(v) => OutcomeView::Ready(v),
        NodeView::FloatLiteral(text) => number_of(text, TypeOfString::F64, facts),
        NodeView::Identifier(name, position) => resolve(name, scope, facts, position),
        NodeView::Member(base, field, position) => {
            if is_constants_root(*base, scope) {
                constant_member(field, facts)
            } else {
                match eval_node(*base, scope, facts) {
                    OutcomeView::Ready(v) => member_of(v, field, position),
                    other => other,
                }
            }
        },
        NodeView::Array(items) => match gather(eval_each(items, scope, facts)) {
            OutcomeView::Ready(values) => OutcomeView::Ready(ValueView::Array(values)),
            OutcomeView::Failed(failure) => OutcomeView::Failed(failure),
            OutcomeView::Needs(query) => OutcomeView::Needs(query),
        },
        NodeView::Range(start, end, position) => match eval_node(*start, scope, facts) {
            OutcomeView::Ready(a) => match eval_node(*end, scope, facts) {
                OutcomeView::Ready(b) => range_of(a, b, position),
                other => other,
            },
            other => other,
        },
        NodeView::Unary(op, operand, position) => match eval_node(*operand, scope, facts) {
            OutcomeView::Ready(v) => apply_unary(op, v, position),
            other => other,
        },
        NodeView::Binary(op, left, right, position) => {
            if op == BinaryOp::And || op == BinaryOp::Or {
                match eval_node(*left, scope, facts) {
                    OutcomeView::Ready(ValueView::Bool(x)) => {
                        if x == (op == BinaryOp::Or) {
                            OutcomeView::Ready(ValueView::Bool(x))
                        } else {
                            logical_right(eval_node(*right, scope, facts), position)
                        }
                    },
                    OutcomeView::Ready(_) => failed(EvalFault::TypeMismatch, position),
                    other => other,
                }
            } else {
                match eval_node(*left, scope, facts) {
                    OutcomeView::Ready(a) => match eval_node(*right, scope, facts) {
                        OutcomeView::Ready(b) => apply_binary(op, a, b, facts, position),
                        other => other,
                    },
                    other => other,
                }
            }
        },
        NodeView::Call(name, args, position) => match builtin_named(name, scope.config) {
            None => failed(EvalFault::UnknownFunction, position),
            Some(builtin) => match gather(eval_each(args, scope, facts)) {
                OutcomeView::Ready(values) => apply_builtin(builtin, values, scope, facts, position),
                OutcomeView::Failed(failure) => OutcomeView::Failed(failure),
                OutcomeView::Needs(query) => OutcomeView::Needs(query),
            },
        },
    }
}

fn fails(fault: EvalFault, position: usize) -> (r: Outcome<Value>)
    ensures
        r@ == failed(fault, position),
{
    Outcome::Failed(Failure::Eval(EvalError { position, fault }))
}

/// The field of an object: see [`member_of`].
pub fn member(v: &Value, field: &str, position: usize) -> (r: Outcome<Value>)
    ensures
        r@ == member_of(v@, field@, position),
{
    match v {
        Value::Object(fields) => {
            proof {
                object_view_is_fieldwise(*v);
            }
            let ghost all = v@->Object_0;
            let mut i: usize = 0;
            assert(all.skip(0) =~= all);
            while i < fields.len()
                invariant
                    i <= fields.len(),
                    v@ == ValueView::Object(all),
                    all.len() == fields.len(),
                    forall|j: int|
                        0 <= j < fields.len() ==> (#[trigger] all[j]) == (
                            fields@[j].0@,
                            fields@[j].1@,
                        ),
                    field_named(all, field@) == field_named(all.skip(i as int), field@),
                decreases fields.len() - i,
            {
                let ghost rest = all.skip(i as int);
                assert(rest[0] == all[i as int]);
                assert(rest.drop_first() =~= all.skip(i + 1));
                if same_text(fields[i].0.as_str(), field) {
                    return Outcome::Ready(fields[i].1.duplicate());
                }
                i += 1;
            }
            assert(all.skip(i as int).len() == 0);
            Outcome::Ready(Value::Null)
        },
        Value::Null => Outcome::Ready(Value::Null),
        _ => fails(EvalFault::TypeMismatch, position),
    }
}

/// What a name stands for: see [`resolve`].
pub fn resolve_name(name: &str, scope: &Scope, floats: &FloatTable, position: usize) -> (r: Outcome<
    Value,
>)
    ensures
        r@ == resolve(name@, scope@, floats@, position),
{
    if same_text(name, "ctx") {
        return Outcome::Ready(scope.context.to_object());
    }
    if same_text(name, "sys") {
        return Outcome::Ready(scope.system.to_object());
    }
    if scope.config.include_maths {
        match find_constant(name) {
            Some((text, kind)) => {
                return number_from(text.as_str(), kind, floats);
            },
            None => {},
        }
    }
    fails(EvalFault::UnresolvedReference, position)
}

/// The constant that is a field of `maths`: see [`constant_member`].
pub fn constant_field(field: &str, floats: &FloatTable) -> (r: Outcome<Value>)
    ensures
        r@ == constant_member(field@, floats@),
{
    match find_constant(field) {
        Some((text, kind)) => number_from(text.as_str(), kind, floats),
        None => Outcome::Ready(Value::Null),
    }
}

/// The array of a range: see [`range_of`].
pub fn range(a: &Value, b: &Value, position: usize) -> (r: Outcome<Value>)
    ensures
        r@ == range_of(a@, b@, position),
{
    match (a, b) {
        (Value::Int64(from), Value::Int64(to)) => {
            let mut items: Vec<Value> = Vec::new();
            let first: i64 = *from;
            let last: i64 = if *to > *from {
                *to
            } else {
                *from
            };
            let mut next: i64 = first;
            while next < last
                invariant
                    first <= next <= last,
                    items@.len() == next - first,
                    forall|j: int|
                        0 <= j < items@.len() ==> (#[trigger] items@[j])@ == ValueView::Int64(
                            first + j,
                        ),
                decreases last - next,
            {
                items.push(Value::Int64(next));
                next = next + 1;
            }
            let r = Value::Array(items);
            proof {
                array_view_is_elementwise(r);
                assert(r@->Array_0 =~= counting(*from as int, *to as int));
            }
            Outcome::Ready(r)
        },
        _ => fails(EvalFault::TypeMismatch, position),
    }
}

/// A prefix operator on a value: see [`apply_unary`].
pub fn unary(op: UnaryOp, v: &Value, position: usize) -> (r: Outcome<Value>)
    ensures
        r@ == apply_unary(op, v@, position),
{
    match (op, v) {
        (UnaryOp::Not, Value::Bool(b)) => Outcome::Ready(Value::Bool(!*b)),
        (UnaryOp::Neg, Value::Int64(n)) => {
            let zero: i64 = 0;
            Outcome::Ready(Value::Int64(zero.wrapping_sub(*n)))
        },
        (UnaryOp::Neg, Value::Float64(bits)) => Outcome::Ready(Value::Float64(bits_negate(*bits))),
        _ => fails(EvalFault::TypeMismatch, position),
    }
}

fn number_kind(v: &Value) -> (r: bool)
    ensures
        r == is_number(v@),
{
    match v {
        Value::Int64(_) => true,
        Value::Float64(_) => true,
        _ => false,
    }
}

fn promote(v: &Value, floats: &FloatTable) -> (r: Outcome<u64>)
    ensures
        r@ == promoted(v@, floats@),
{
    match v {
        Value::Float64(bits) => Outcome::Ready(*bits),
        Value::Int64(n) => {
            let query = FloatQuery::FromInt(*n);
            match floats.bits_for(&query) {
                Some(bits) => Outcome::Ready(bits),
                None => Outcome::Needs(query),
            }
        },
        _ => Outcome::Ready(NAN_BITS),
    }
}

fn promote_both(a: &Value, b: &Value, floats: &FloatTable) -> (r: Outcome<(u64, u64)>)
    ensures
        r@ == both_promoted(a@, b@, floats@),
{
    match promote(a, floats) {
        Outcome::Ready(x) => match promote(b, floats) {
            Outcome::Ready(y) => Outcome::Ready((x, y)),
            Outcome::Failed(failure) => Outcome::Failed(failure),
            Outcome::Needs(query) => Outcome::Needs(query),
        },
        Outcome::Failed(failure) => Outcome::Failed(failure),
        Outcome::Needs(query) => Outcome::Needs(query),
    }
}

fn float_operation(op: BinaryOp) -> (r: FloatOp)
    ensures
        r == float_op(op),
{
    match op {
        BinaryOp::Sub => FloatOp::Sub,
        BinaryOp::Mul => FloatOp::Mul,
        BinaryOp::Div => FloatOp::Div,
        BinaryOp::Rem => FloatOp::Rem,
        _ => FloatOp::Add,
    }
}

fn integer_arithmetic(op: BinaryOp, x: i64, y: i64) -> (r: Value)
    ensures
        r@ == int_arith(op, x, y),
{
    match op {
        BinaryOp::Sub => Value::Int64(x.wrapping_sub(y)),
        BinaryOp::Mul => Value::Int64(x.wrapping_mul(y)),
        BinaryOp::Rem => match x.checked_rem(y) {
            Some(r) => Value::Int64(r),
            None => if y == 0 {
                Value::Float64(NAN_BITS)
            } else {
                Value::Int64(0)
            },
        },
        _ => Value::Int64(x.wrapping_add(y)),
    }
}

/// An arithmetic operator on two values: see [`apply_arith`].
pub fn arithmetic(op: BinaryOp, a: &Value, b: &Value, floats: &FloatTable, position: usize) -> (r:
    Outcome<Value>)
    ensures
        r@ == apply_arith(op, a@, b@, floats@, position),
{
    if !number_kind(a) || !number_kind(b) {
        return fails(EvalFault::TypeMismatch, position);
    }
    match (a, b) {
        (Value::Int64(x), Value::Int64(y)) => {
            if op != BinaryOp::Div {
                return Outcome::Ready(integer_arithmetic(op, *x, *y));
            }
        },
        _ => {},
    }
    match promote_both(a, b, floats) {
        Outcome::Ready((x, y)) => {
            let query = FloatQuery::Arith(float_operation(op), x, y);
            match floats.bits_for(&query) {
                Some(bits) => Outcome::Ready(Value::Float64(bits)),
                None => Outcome::Needs(query),
            }
        },
        Outcome::Failed(failure) => Outcome::Failed(failure),
        Outcome::Needs(query) => Outcome::Needs(query),
    }
}

/// A relation between two values: see [`apply_relation`].
pub fn relation(op: BinaryOp, a: &Value, b: &Value, floats: &FloatTable, position: usize) -> (r:
    Outcome<Value>)
    ensures
        r@ == apply_relation(op, a@, b@, floats@, position),
{
    match (a, b) {
        (Value::Null, _) => {
            return Outcome::Ready(Value::Bool(false));
        },
        (_, Value::Null) => {
            return Outcome::Ready(Value::Bool(false));
        },
        _ => {},
    }
    if !number_kind(a) || !number_kind(b) {
        return fails(EvalFault::TypeMismatch, position);
    }
    match (a, b) {
        (Value::Int64(x), Value::Int64(y)) => {
            let holds: bool = match op {
                BinaryOp::Le => *x <= *y,
                BinaryOp::Gt => *x > *y,
                BinaryOp::Ge => *x >= *y,
                _ => *x < *y,
            };
            return Outcome::Ready(Value::Bool(holds));
        },
        _ => {},
    }
    match promote_both(a, b, floats) {
        Outcome::Ready((x, y)) => {
            let holds: bool = match op {
                BinaryOp::Le => bits_le(x, y),
                BinaryOp::Gt => bits_lt(y, x),
                BinaryOp::Ge => bits_le(y, x),
                _ => bits_lt(x, y),
            };
            Outcome::Ready(Value::Bool(holds))
        },
        Outcome::Failed(failure) => Outcome::Failed(failure),
        Outcome::Needs(query) => Outcome::Needs(query),
    }
}

/// `==` and `!=` on two values: see [`apply_equality`].
pub fn equality(op: BinaryOp, a: &Value, b: &Value, floats: &FloatTable) -> (r: Outcome<Value>)
    ensures
        r@ == apply_equality(op, a@, b@, floats@),
{
    let wanted: bool = op == BinaryOp::Eq;
    match (a, b) {
        (Value::Int64(x), Value::Int64(y)) => {
            return Outcome::Ready(Value::Bool((*x == *y) == wanted));
        },
        _ => {},
    }
    if number_kind(a) && number_kind(b) {
        match promote_both(a, b, floats) {
            Outcome::Ready((x, y)) => Outcome::Ready(Value::Bool(bits_eq(x, y) == wanted)),
            Outcome::Failed(failure) => Outcome::Failed(failure),
            Outcome::Needs(query) => Outcome::Needs(query),
        }
    } else {
        Outcome::Ready(Value::Bool(a.same_as(b) == wanted))
    }
}

/// An operator other than `&&` and `||` on two values: see
/// [`apply_binary`].
pub fn binary(op: BinaryOp, a: &Value, b: &Value, floats: &FloatTable, position: usize) -> (r:
    Outcome<Value>)
    ensures
        r@ == apply_binary(op, a@, b@, floats@, position),
{
    match op {
        BinaryOp::Eq | BinaryOp::Ne => equality(op, a, b, floats),
        BinaryOp::Lt | BinaryOp::Le | BinaryOp::Gt | BinaryOp::Ge => relation(
            op,
            a,
            b,
            floats,
            position,
        ),
        _ => arithmetic(op, a, b, floats, position),
    }
}

/// A builtin function on its arguments: see [`apply_builtin`].
pub fn call_builtin(
    builtin: Builtin,
    args: &Vec<Value>,
    scope: &Scope,
    floats: &FloatTable,
    position: usize,
) -> (r: Outcome<Value>)
    ensures
        r@ == apply_builtin(builtin, values_view(args@), scope@, floats@, position),
{
    match builtin {
        Builtin::Int => cast_int(args, floats),
        Builtin::Float => cast_float(args, floats),
        Builtin::Bool => Outcome::Ready(cast_bool(args)),
        Builtin::Str => cast_str(args, floats),
        Builtin::IsMatch => is_match(args, floats, position),
        Builtin::Date(field) => date_function(field, args, scope.now, position),
        Builtin::Time => time_function(args, scope.now, position),
    }
}

/// The values of the nodes of a list, from left to right.
pub fn evaluate_all(nodes: &Vec<Node>, scope: &Scope, floats: &FloatTable) -> (r: Outcome<
    Vec<Value>,
>)
    ensures
        match r {
            Outcome::Ready(values) => gather(eval_each(nodes_view(nodes@), scope@, floats@))
                == OutcomeView::Ready(values_view(values@)),
            Outcome::Failed(failure) => gather(eval_each(nodes_view(nodes@), scope@, floats@))
                == OutcomeView::<Seq<ValueView>>::Failed(failure),
            Outcome::Needs(query) => gather(eval_each(nodes_view(nodes@), scope@, floats@))
                == OutcomeView::<Seq<ValueView>>::Needs(query@),
        },
    decreases nodes, 0nat,
{
    let ghost parts = eval_each(nodes_view(nodes@), scope@, floats@);
    let mut values: Vec<Value> = Vec::new();
    let mut i: usize = 0;
    assert(parts.take(0) =~= Seq::empty());
    assert(values_view(values@) =~= Seq::empty());
    while i < nodes.len()
        invariant
            i <= nodes.len(),
            parts == eval_each(nodes_view(nodes@), scope@, floats@),
            parts.len() == nodes.len(),
            gather(parts.take(i as int)) == OutcomeView::Ready(values_view(values@)),
        decreases nodes.len() - i,
    {
        assert(decreases_to!(*nodes => nodes[i as int]));
        let part = evaluate(&nodes[i], scope, floats);
        assert(part@ == parts[i as int]);
        assert(parts.take(i + 1).drop_last() =~= parts.take(i as int));
        assert(parts.take(i + 1).last() == parts[i as int]);
        match part {
            Outcome::Ready(v) => {
                let ghost before = values@;
                let ghost added = v@;
                values.push(v);
                assert(values_view(values@) =~= values_view(before).push(added));
            },
            Outcome::Failed(failure) => {
                proof {
                    gather_stops_at(parts, i as int);
                }
                return Outcome::Failed(failure);
            },
            Outcome::Needs(query) => {
                proof {
                    gather_stops_at(parts, i as int);
                }
                return Outcome::Needs(query);
            },
        }
        i += 1;
    }
    assert(parts.take(nodes.len() as int) =~= parts);
    Outcome::Ready(values)
}

/// The value of an expression: see [`eval_node`].
pub fn evaluate(node: &Node, scope: &Scope, floats: &FloatTable) -> (r: Outcome<Value>)
    ensures
        r@ == eval_node(node@, scope@, floats@),
    decreases node, 1nat,
{
    match node {
        Node::Literal(v) => Outcome::Ready(v.duplicate()),
        Node::FloatLiteral(text) => number_from(text.as_str(), TypeOfString::F64, floats),
        Node::Identifier(name, position) => resolve_name(name.as_str(), scope, floats, *position),
        Node::Member(base, field, position) => {
            let constants: bool = scope.config.include_maths && match &**base {
                Node::Identifier(name, _) => same_text(name.as_str(), "maths"),
                _ => false,
            };
            if constants {
                constant_field(field.as_str(), floats)
            } else {
                match evaluate(base, scope, floats) {
                    Outcome::Ready(v) => member(&v, field.as_str(), *position),
                    other => other,
                }
            }
        },
        Node::Array(items) => {
            proof {
                array_node_view(*node);
            }
            match evaluate_all(items, scope, floats) {
                Outcome::Ready(values) => {
                    let r = Value::Array(values);
                    proof {
                        array_view_is_elementwise(r);
                    }
                    Outcome::Ready(r)
                },
                Outcome::Failed(failure) => Outcome::Failed(failure),
                Outcome::Needs(query) => Outcome::Needs(query),
            }
        },
        Node::Range(start, end, position) => match evaluate(start, scope, floats) {
            Outcome::Ready(a) => match evaluate(end, scope, floats) {
                Outcome::Ready(b) => range(&a, &b, *position),
                other => other,
            },
            other => other,
        },
        Node::Unary(op, operand, position) => match evaluate(operand, scope, floats) {
            Outcome::Ready(v) => unary(*op, &v, *position),
            other => other,
        },
        Node::Binary(op, left, right, position) => {
            if *op == BinaryOp::And || *op == BinaryOp::Or {
                match evaluate(left, scope, floats) {
                    Outcome::Ready(Value::Bool(x)) => {
                        if x == (*op == BinaryOp::Or) {
                            Outcome::Ready(Value::Bool(x))
                        } else {
                            match evaluate(right, scope, floats) {
                                Outcome::Ready(Value::Bool(y)) => Outcome::Ready(Value::Bool(y)),
                                Outcome::Ready(_) => fails(EvalFault::TypeMismatch, *position),
                                other => other,
                            }
                        }
                    },
                    Outcome::Ready(_) => fails(EvalFault::TypeMismatch, *position),
                    other => other,
                }
            } else {
                match evaluate(left, scope, floats) {
                    Outcome::Ready(a) => match evaluate(right, scope, floats) {
                        Outcome::Ready(b) => binary(*op, &a, &b, floats, *position),
                        other => other,
                    },
                    other => other,
                }
            }
        },
        Node::Call(name, args, position) => {
            proof {
                call_node_view(*node);
            }
            match find_builtin(name.as_str(), &scope.config) {
                None => fails(EvalFault::UnknownFunction, *position),
                Some(builtin) => match evaluate_all(args, scope, floats) {
                    Outcome::Ready(values) => call_builtin(
                        builtin,
                        &values,
                        scope,
                        floats,
                        *position,
                    ),
                    Outcome::Failed(failure) => Outcome::Failed(failure),
                    Outcome::Needs(query) => Outcome::Needs(query),
                },
            }
        },
    }
}

} // verus!
