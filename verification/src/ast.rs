//! The syntax tree of an expression.

use vstd::prelude::*;
use crate::value::{Value, ValueView};

verus! {

/// The operators with one operand.
#[derive(Clone, Copy, Debug, PartialEq, Eq, Structural)]
pub enum UnaryOp {
    /// `!`
    Not,
    /// `-`
    Neg,
}

/// The operators with two operands.
#[derive(Clone, Copy, Debug, PartialEq, Eq, Structural)]
pub enum BinaryOp {
    /// `||`
    Or,
    /// `&&`
    And,
    /// `==`
    Eq,
    /// `!=`
    Ne,
    /// `<`
    Lt,
    /// `<=`
    Le,
    /// `>`
    Gt,
    /// `>=`
    Ge,
    /// `+`
    Add,
    /// `-`
    Sub,
    /// `*`
    Mul,
    /// `/`
    Div,
    /// `%`
    Rem,
}

/// An expression. Where a node holds a position, it is the index of the
/// character at which the name or the operator stands in the source.
#[derive(Debug, PartialEq)]
pub enum Node {
    /// A literal other than a double: null, a boolean, an integer or a
    /// string.
    Literal(Value),
    /// A literal double, as it is written.
    FloatLiteral(String),
    /// A name.
    Identifier(String, usize),
    /// `base.field`.
    Member(Box<Node>, String, usize),
    /// `array(a, b, ...)`.
    Array(Vec<Node>),
    /// `start..end`.
    Range(Box<Node>, Box<Node>, usize),
    /// An operator and its operand.
    Unary(UnaryOp, Box<Node>, usize),
    /// An operator and its two operands.
    Binary(BinaryOp, Box<Node>, Box<Node>, usize),
    /// `name(a, b, ...)`.
    Call(String, Vec<Node>, usize),
}

/// The content of a [`Node`].
pub enum NodeView {
    Literal(ValueView),
    FloatLiteral(Seq<char>),
    Identifier(Seq<char>, usize),
    Member(Box<NodeView>, Seq<char>, usize),
    Array(Seq<NodeView>),
    Range(Box<NodeView>, Box<NodeView>, usize),
    Unary(UnaryOp, Box<NodeView>, usize),
    Binary(BinaryOp, Box<NodeView>, Box<NodeView>, usize),
    Call(Seq<char>, Seq<NodeView>, usize),
}

/// The content of a node.
pub open spec fn node_view(n: Node) -> NodeView
    decreases n,
{
    match n {
        Node::Literal(v) => NodeView::Literal(v@),
        Node::FloatLiteral(text) => NodeView::FloatLiteral(text@),
        Node::Identifier(name, position) => NodeView::Identifier(name@, position),
        Node::Member(base, field, position) => NodeView::Member(
            Box::new(node_view(*base)),
            field@,
            position,
        ),
        Node::Array(items) => NodeView::Array(
            Seq::new(
                items@.len(),
                |i: int|
                    if 0 <= i < items@.len() {
                        node_view(items@[i])
                    } else {
                        NodeView::Literal(ValueView::Null)
                    },
            ),
        ),
        Node::Range(start, end, position) => NodeView::Range(
            Box::new(node_view(*start)),
            Box::new(node_view(*end)),
            position,
        ),
        Node::Unary(op, operand, position) => NodeView::Unary(
            op,
            Box::new(node_view(*operand)),
            position,
        ),
        Node::Binary(op, left, right, position) => NodeView::Binary(
            op,
            Box::new(node_view(*left)),
            Box::new(node_view(*right)),
            position,
        ),
        Node::Call(name, args, position) => NodeView::Call(
            name@,
            Seq::new(
                args@.len(),
                |i: int|
                    if 0 <= i < args@.len() {
                        node_view(args@[i])
                    } else {
                        NodeView::Literal(ValueView::Null)
                    },
            ),
            position,
        ),
    }
}

impl View for Node {
    type V = NodeView;

    open spec fn view(&self) -> NodeView {
        node_view(*self)
    }
}

/// The contents of a list of nodes.
pub open spec fn nodes_view(nodes: Seq<Node>) -> Seq<NodeView> {
    Seq::new(nodes.len(), |i: int| nodes[i]@)
}

/// The view of an array node, element by element.
pub proof fn array_node_view(n: Node)
    requires
        n is Array,
    ensures
        n@ == NodeView::Array(nodes_view(n->Array_0@)),
{
    match n {
        Node::Array(items) => {
            assert(n@->Array_0 =~= nodes_view(items@));
        },
        _ => {},
    }
}

/// The view of a call node, argument by argument.
pub proof fn call_node_view(n: Node)
    requires
        n is Call,
    ensures
        n@ == NodeView::Call(n->Call_0@, nodes_view(n->Call_1@), n->Call_2),
{
    match n {
        Node::Call(name, args, position) => {
            assert(n@->Call_1 =~= nodes_view(args@));
        },
        _ => {},
    }
}

} // verus!
