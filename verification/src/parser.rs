//! The grammar of expressions.
//!
//! From the loosest to the tightest binding: `||`, `&&`, `==` and `!=`,
//! `<` `<=` `>` `>=`, `..`, `+` and `-`, `*` `/` `%`, the prefixes `!` and
//! `-`, and the primaries: integer and double literals, `true`, `false`,
//! `null`, strings between single or double quotes, names with `.field`
//! accesses, `array(...)`, calls `name(...)` and expressions in
//! parentheses. Operators of one level group to the left; `..` does not
//! chain. Blanks between tokens do not count.

use vstd::prelude::*;
use crate::ast::{array_node_view, call_node_view, nodes_view, BinaryOp, Node, NodeView, UnaryOp};
use crate::decimal::{parse_i64, parse_int_range, IntParse};
use crate::failure::{ParseError, ParseFault};
use crate::scan::{in_class, is_ascii_digit, is_name_start, run, run_end, CharClass};
use crate::text::{chars_of, same_text, text_of_range};
use crate::value::{Value, ValueView};

verus! {

/// How the reading of one expression ends: with its tree and the index
/// behind it, or with an error.
pub enum Parse {
    Read(NodeView, int),
    Fault(ParseError),
}

/// How the reading of a list of arguments ends.
pub enum ParseList {
    Read(Seq<NodeView>, int),
    Fault(ParseError),
}

/// An operator between two operands.
#[derive(Clone, Copy, Debug, PartialEq, Eq, Structural)]
pub enum Infix {
    Op(BinaryOp),
    Range,
}

/// The error of that kind at that index.
pub open spec fn fail(at: int, fault: ParseFault) -> Parse {
    Parse::Fault(ParseError { position: at as usize, fault })
}

/// Whether the character at the index is `c`.
pub open spec fn shows(s: Seq<char>, at: int, c: char) -> bool {
    0 <= at < s.len() && s[at] == c
}

/// Where the blanks that start at the index end.
pub open spec fn skip_blank(s: Seq<char>, from: int) -> int {
    run(s, from, CharClass::Blank)
}

/// The operator of the level that stands at the index, with its width.
/// The levels: 0 for `||`, 1 for `&&`, 2 for `==` and `!=`, 3 for the
/// relations, 4 for `..`, 5 for `+` and `-`, 6 for `*`, `/` and `%`.
pub open spec fn infix_at(s: Seq<char>, at: int, level: u8) -> Option<(Infix, int)> {
    if level == 0 {
        if shows(s, at, '|') && shows(s, at + 1, '|') {
            Some((Infix::Op(BinaryOp::Or), 2))
        } else {
            None
        }
    } else if level == 1 {
        if shows(s, at, '&') && shows(s, at + 1, '&') {
            Some((Infix::Op(BinaryOp::And), 2))
        } else {
            None
        }
    } else if level == 2 {
        if shows(s, at, '=') && shows(s, at + 1, '=') {
            Some((Infix::Op(BinaryOp::Eq), 2))
        } else if shows(s, at, '!') && shows(s, at + 1, '=') {
            Some((Infix::Op(BinaryOp::Ne), 2))
        } else {
            None
        }
    } else if level == 3 {
        if shows(s, at, '<') && shows(s, at + 1, '=') {
            Some((Infix::Op(BinaryOp::Le), 2))
        } else if shows(s, at, '>') && shows(s, at + 1, '=') {
            Some((Infix::Op(BinaryOp::Ge), 2))
        } else if shows(s, at, '<') {
            Some((Infix::Op(BinaryOp::Lt), 1))
        } else if shows(s, at, '>') {
            Some((Infix::Op(BinaryOp::Gt), 1))
        } else {
            None
        }
    } else if level == 4 {
        if shows(s, at, '.') && shows(s, at + 1, '.') {
            Some((Infix::Range, 2))
        } else {
            None
        }
    } else if level == 5 {
        if shows(s, at, '+') {
            Some((Infix::Op(BinaryOp::Add), 1))
        } else if shows(s, at, '-') {
            Some((Infix::Op(BinaryOp::Sub), 1))
        } else {
            None
        }
    } else if level == 6 {
        if shows(s, at, '*') {
            Some((Infix::Op(BinaryOp::Mul), 1))
        } else if shows(s, at, '/') {
            Some((Infix::Op(BinaryOp::Div), 1))
        } else if shows(s, at, '%') {
            Some((Infix::Op(BinaryOp::Rem), 1))
        } else {
            None
        }
    } else {
        None
    }
}

/// The tree of two operands with an operator between them.
pub open spec fn joined(infix: Infix, left: NodeView, right: NodeView, at: int) -> NodeView {
    match infix {
        Infix::Op(op) => NodeView::Binary(op, Box::new(left), Box::new(right), at as usize),
        Infix::Range => NodeView::Range(Box::new(left), Box::new(right), at as usize),
    }
}

/// The tree of a name with arguments in parentheses: an array for the name
/// `array`, else a call.
pub open spec fn applied(name: Seq<char>, args: Seq<NodeView>, at: int) -> NodeView {
    if name == "array"@ {
        NodeView::Array(args)
    } else {
        NodeView::Call(name, args, at as usize)
    }
}

/// Whether the character belongs to an operator or to the punctuation of
/// calls.
pub open spec fn is_operator_char(c: char) -> bool {
    c == ')' || c == ',' || c == '+' || c == '*' || c == '/' || c == '%' || c == '<' || c == '>'
        || c == '=' || c == '&' || c == '|' || c == '.'
}

/// A number that starts at `start`, with its first digit at `digits`: a
/// double if a point and a digit follow the digits, else an integer, which
/// has to fit in 64 bits.
pub open spec fn parse_number(s: Seq<char>, start: int, digits: int) -> Parse {
    let whole_end = run(s, digits, CharClass::Digit);
    if shows(s, whole_end, '.') && whole_end + 1 < s.len() && is_ascii_digit(s[whole_end + 1]) {
        let end = run(s, whole_end + 1, CharClass::Digit);
        Parse::Read(NodeView::FloatLiteral(s.subrange(start, end)), end)
    } else {
        match parse_i64(s.subrange(start, whole_end)) {
            IntParse::Number(n) => Parse::Read(NodeView::Literal(ValueView::Int64(n as int)), whole_end),
            _ => fail(start, ParseFault::NumberOutOfRange),
        }
    }
}

/// The `.field` accesses that follow a name.
pub open spec fn parse_members(s: Seq<char>, pos: int, base: NodeView) -> Parse
    decreases s.len() - pos,
{
    let end = run(s, pos + 1, CharClass::NamePart);
    if shows(s, pos, '.') && pos + 1 < s.len() && is_name_start(s[pos + 1]) && pos < end
        <= s.len() {
        parse_members(
            s,
            end,
            NodeView::Member(Box::new(base), s.subrange(pos + 1, end), pos as usize),
        )
    } else {
        Parse::Read(base, pos)
    }
}

/// A primary expression.
pub open spec fn parse_primary(s: Seq<char>, pos: int) -> Parse
    decreases s.len() - pos, 10nat,
{
    let p = skip_blank(s, pos);
    if pos < 0 || p >= s.len() {
        fail(p, ParseFault::UnexpectedEnd)
    } else if is_ascii_digit(s[p]) {
        parse_number(s, p, p)
    } else if s[p] == '\'' || s[p] == '"' {
        let close = run(s, p + 1, CharClass::Not(s[p]));
        if close >= s.len() {
            fail(p, ParseFault::UnterminatedString)
        } else {
            Parse::Read(NodeView::Literal(ValueView::String(s.subrange(p + 1, close))), close + 1)
        }
    } else if is_name_start(s[p]) {
        let end = run(s, p, CharClass::NamePart);
        let name = s.subrange(p, end);
        if name == "true"@ {
            Parse::Read(NodeView::Literal(ValueView::Bool(true)), end)
        } else if name == "false"@ {
            Parse::Read(NodeView::Literal(ValueView::Bool(false)), end)
        } else if name == "null"@ {
            Parse::Read(NodeView::Literal(ValueView::Null), end)
        } else {
            let open = skip_blank(s, end);
            if shows(s, open, '(') {
                let first = skip_blank(s, open + 1);
                if shows(s, first, ')') {
                    Parse::Read(applied(name, Seq::empty(), p), first + 1)
                } else {
                    match parse_args(s, open + 1, Seq::empty()) {
                        ParseList::Read(args, next) => Parse::Read(applied(name, args, p), next),
                        ParseList::Fault(e) => Parse::Fault(e),
                    }
                }
            } else {
                parse_members(s, end, NodeView::Identifier(name, p as usize))
            }
        }
    } else if s[p] == '(' {
        match parse_binary(s, p + 1, 0) {
            Parse::Read(inner, next) => {
                let close = skip_blank(s, next);
                if shows(s, close, ')') {
                    Parse::Read(inner, close + 1)
                } else if close >= s.len() {
                    fail(p, ParseFault::UnbalancedParenthesis)
                } else {
                    fail(close, ParseFault::UnexpectedToken)
                }
            },
            Parse::Fault(e) => Parse::Fault(e),
        }
    } else if is_operator_char(s[p]) {
        fail(p, ParseFault::UnexpectedToken)
    } else {
        fail(p, ParseFault::UnexpectedCharacter)
    }
}

/// The arguments of a call, from behind the opening parenthesis to behind
/// the closing one; `done` holds the arguments read so far.
pub open spec fn parse_args(s: Seq<char>, pos: int, done: Seq<NodeView>) -> ParseList
    decreases s.len() - pos, 200nat,
{
    if pos < 0 || pos > s.len() {
        ParseList::Fault(ParseError { position: 0, fault: ParseFault::UnexpectedEnd })
    } else {
        match parse_binary(s, pos, 0) {
            Parse::Read(arg, next) => {
                let after = skip_blank(s, next);
                if shows(s, after, ')') {
                    ParseList::Read(done.push(arg), after + 1)
                } else if shows(s, after, ',') {
                    if next >= pos {
                        parse_args(s, after + 1, done.push(arg))
                    } else {
                        ParseList::Fault(
                            ParseError { position: after as usize, fault: ParseFault::UnexpectedEnd },
                        )
                    }
                } else if after >= s.len() {
                    ParseList::Fault(
                        ParseError {
                            position: after as usize,
                            fault: ParseFault::UnbalancedParenthesis,
                        },
                    )
                } else {
                    ParseList::Fault(
                        ParseError { position: after as usize, fault: ParseFault::UnexpectedToken },
                    )
                }
            },
            Parse::Fault(e) => ParseList::Fault(e),
        }
    }
}

/// An expression with the prefixes `!` and `-`. A `-` right in front of a
/// digit belongs to the number.
pub open spec fn parse_unary(s: Seq<char>, pos: int) -> Parse
    decreases s.len() - pos, 20nat,
{
    let p = skip_blank(s, pos);
    if pos < 0 {
        fail(p, ParseFault::UnexpectedEnd)
    } else if shows(s, p, '!') {
        match parse_unary(s, p + 1) {
            Parse::Read(operand, next) => Parse::Read(
                NodeView::Unary(UnaryOp::Not, Box::new(operand), p as usize),
                next,
            ),
            Parse::Fault(e) => Parse::Fault(e),
        }
    } else if shows(s, p, '-') {
        if p + 1 < s.len() && is_ascii_digit(s[p + 1]) {
            parse_number(s, p, p + 1)
        } else {
            match parse_unary(s, p + 1) {
                Parse::Read(operand, next) => Parse::Read(
                    NodeView::Unary(UnaryOp::Neg, Box::new(operand), p as usize),
                    next,
                ),
                Parse::Fault(e) => Parse::Fault(e),
            }
        }
    } else {
        parse_primary(s, pos)
    }
}

/// An expression of the level: operands of the next level with operators
/// of this one between them. Level 7 is that of the prefixes.
pub open spec fn parse_binary(s: Seq<char>, pos: int, level: u8) -> Parse
    decreases s.len() - pos, 100 - 10 * level,
{
    if pos < 0 || pos > s.len() || level > 7 {
        fail(0, ParseFault::UnexpectedEnd)
    } else if level == 7 {
        parse_unary(s, pos)
    } else {
        match parse_binary(s, pos, (level + 1) as u8) {
            Parse::Read(left, next) => {
                if pos <= next <= s.len() {
                    parse_tail(s, next, level, left)
                } else {
                    fail(pos, ParseFault::UnexpectedEnd)
                }
            },
            Parse::Fault(e) => Parse::Fault(e),
        }
    }
}

/// What follows an operand of the level: operators of the level, each
/// with its right operand, grouped to the left; for `..` at most one.
pub open spec fn parse_tail(s: Seq<char>, pos: int, level: u8, left: NodeView) -> Parse
    decreases s.len() - pos, 95 - 10 * level,
{
    if pos < 0 || pos > s.len() || level >= 7 {
        fail(0, ParseFault::UnexpectedEnd)
    } else {
        let at = skip_blank(s, pos);
        match infix_at(s, at, level) {
            None => Parse::Read(left, pos),
            Some((infix, width)) => match parse_binary(s, at + width, (level + 1) as u8) {
                Parse::Read(right, next) => {
                    let node = joined(infix, left, right, at);
                    if level == 4 {
                        Parse::Read(node, next)
                    } else if pos < next <= s.len() {
                        parse_tail(s, next, level, node)
                    } else {
                        fail(pos, ParseFault::UnexpectedEnd)
                    }
                },
                Parse::Fault(e) => Parse::Fault(e),
            },
        }
    }
}

/// How the reading of a whole text as one expression ends.
pub open spec fn parse_expression(s: Seq<char>) -> Result<NodeView, ParseError> {
    match parse_binary(s, 0, 0) {
        Parse::Read(node, next) => {
            let end = skip_blank(s, next);
            if end >= s.len() {
                Ok(node)
            } else {
                Err(ParseError { position: end as usize, fault: ParseFault::TrailingInput })
            }
        },
        Parse::Fault(e) => Err(e),
    }
}

/// The content of the result of reading one expression.
pub open spec fn parse_view(r: Result<(Node, usize), ParseError>) -> Parse {
    match r {
        Ok((node, next)) => Parse::Read(node@, next as int),
        Err(e) => Parse::Fault(e),
    }
}

/// The content of the result of reading a list of arguments.
pub open spec fn list_view(r: Result<(Vec<Node>, usize), ParseError>) -> ParseList {
    match r {
        Ok((nodes, next)) => ParseList::Read(nodes_view(nodes@), next as int),
        Err(e) => ParseList::Fault(e),
    }
}

fn skip_blanks(chars: &Vec<char>, from: usize) -> (end: usize)
    requires
        from <= chars.len(),
    ensures
        from <= end <= chars.len(),
        end == skip_blank(chars@, from as int),
{
    run_end(chars, from, chars.len(), CharClass::Blank)
}

fn char_is(chars: &Vec<char>, at: usize, c: char) -> (r: bool)
    ensures
        r == shows(chars@, at as int, c),
{
    at < chars.len() && chars[at] == c
}

fn find_infix(chars: &Vec<char>, at: usize, level: u8) -> (r: Option<(Infix, usize)>)
    requires
        at <= chars.len(),
    ensures
        match r {
            Some((infix, width)) => infix_at(chars@, at as int, level) == Some((infix, width as int))
                && 1 <= width && at + width <= chars.len(),
            None => infix_at(chars@, at as int, level) is None,
        },
{
    let next: usize = if at < chars.len() {
        at + 1
    } else {
        at
    };
    assert(at >= chars.len() ==> !shows(chars@, at as int, '|'));
    if level == 0 {
        if char_is(chars, at, '|') && char_is(chars, next, '|') {
            Some((Infix::Op(BinaryOp::Or), 2))
        } else {
            None
        }
    } else if level == 1 {
        if char_is(chars, at, '&') && char_is(chars, next, '&') {
            Some((Infix::Op(BinaryOp::And), 2))
        } else {
            None
        }
    } else if level == 2 {
        if char_is(chars, at, '=') && char_is(chars, next, '=') {
            Some((Infix::Op(BinaryOp::Eq), 2))
        } else if char_is(chars, at, '!') && char_is(chars, next, '=') {
            Some((Infix::Op(BinaryOp::Ne), 2))
        } else {
            None
        }
    } else if level == 3 {
        if char_is(chars, at, '<') && char_is(chars, next, '=') {
            Some((Infix::Op(BinaryOp::Le), 2))
        } else if char_is(chars, at, '>') && char_is(chars, next, '=') {
            Some((Infix::Op(BinaryOp::Ge), 2))
        } else if char_is(chars, at, '<') {
            Some((Infix::Op(BinaryOp::Lt), 1))
        } else if char_is(chars, at, '>') {
            Some((Infix::Op(BinaryOp::Gt), 1))
        } else {
            None
        }
    } else if level == 4 {
        if char_is(chars, at, '.') && char_is(chars, next, '.') {
            Some((Infix::Range, 2))
        } else {
            None
        }
    } else if level == 5 {
        if char_is(chars, at, '+') {
            Some((Infix::Op(BinaryOp::Add), 1))
        } else if char_is(chars, at, '-') {
            Some((Infix::Op(BinaryOp::Sub), 1))
        } else {
            None
        }
    } else if level == 6 {
        if char_is(chars, at, '*') {
            Some((Infix::Op(BinaryOp::Mul), 1))
        } else if char_is(chars, at, '/') {
            Some((Infix::Op(BinaryOp::Div), 1))
        } else if char_is(chars, at, '%') {
            Some((Infix::Op(BinaryOp::Rem), 1))
        } else {
            None
        }
    } else {
        None
    }
}

fn join(infix: Infix, left: Node, right: Node, at: usize) -> (r: Node)
    ensures
        r@ == joined(infix, left@, right@, at as int),
{
    match infix {
        Infix::Op(op) => Node::Binary(op, Box::new(left), Box::new(right), at),
        Infix::Range => Node::Range(Box::new(left), Box::new(right), at),
    }
}

fn apply(name: String, args: Vec<Node>, at: usize) -> (r: Node)
    ensures
        r@ == applied(name@, nodes_view(args@), at as int),
{
    if same_text(name.as_str(), "array") {
        let r = Node::Array(args);
        proof {
            array_node_view(r);
        }
        r
    } else {
        let r = Node::Call(name, args, at);
        proof {
            call_node_view(r);
        }
        r
    }
}

fn number(chars: &Vec<char>, start: usize, digits: usize) -> (r: Result<(Node, usize), ParseError>)
    requires
        start <= digits < chars.len(),
        is_ascii_digit(chars@[digits as int]),
    ensures
        parse_view(r) == parse_number(chars@, start as int, digits as int),
        r is Ok ==> digits < r->Ok_0.1 <= chars.len(),
{
    let len: usize = chars.len();
    let whole_end: usize = run_end(chars, digits, len, CharClass::Digit);
    if whole_end < len && chars[whole_end] == '.' && whole_end + 1 < len && '0' <= chars[whole_end
        + 1] && chars[whole_end + 1] <= '9' {
        let end: usize = run_end(chars, whole_end + 1, len, CharClass::Digit);
        let text = text_of_range(chars, start, end);
        Ok((Node::FloatLiteral(text), end))
    } else {
        match parse_int_range(chars, start, whole_end) {
            IntParse::Number(n) => Ok((Node::Literal(Value::Int64(n)), whole_end)),
            _ => Err(ParseError { position: start, fault: ParseFault::NumberOutOfRange }),
        }
    }
}

fn members(chars: &Vec<char>, pos: usize, base: Node) -> (r: Result<(Node, usize), ParseError>)
    requires
        pos <= chars.len(),
    ensures
        parse_view(r) == parse_members(chars@, pos as int, base@),
        r is Ok ==> pos <= r->Ok_0.1 <= chars.len(),
    decreases chars.len() - pos,
{
    let len: usize = chars.len();
    if pos < len && chars[pos] == '.' && pos + 1 < len && belongs_to_name_start(chars[pos + 1]) {
        let end: usize = run_end(chars, pos + 1, len, CharClass::NamePart);
        let field = text_of_range(chars, pos + 1, end);
        members(chars, end, Node::Member(Box::new(base), field, pos))
    } else {
        Ok((base, pos))
    }
}

fn belongs_to_name_start(c: char) -> (r: bool)
    ensures
        r == is_name_start(c),
{
    ('a' <= c && c <= 'z') || ('A' <= c && c <= 'Z') || c == '_'
}

fn operator_char(c: char) -> (r: bool)
    ensures
        r == is_operator_char(c),
{
    c == ')' || c == ',' || c == '+' || c == '*' || c == '/' || c == '%' || c == '<' || c == '>'
        || c == '=' || c == '&' || c == '|' || c == '.'
}

fn primary(chars: &Vec<char>, pos: usize) -> (r: Result<(Node, usize), ParseError>)
    requires
        pos <= chars.len(),
    ensures
        parse_view(r) == parse_primary(chars@, pos as int),
        r is Ok ==> pos < r->Ok_0.1 <= chars.len(),
    decreases chars.len() - pos, 10nat,
{
    let len: usize = chars.len();
    let p: usize = skip_blanks(chars, pos);
    if p >= len {
        return Err(ParseError { position: p, fault: ParseFault::UnexpectedEnd });
    }
    let c: char = chars[p];
    if '0' <= c && c <= '9' {
        return number(chars, p, p);
    }
    if c == '\'' || c == '"' {
        let close: usize = run_end(chars, p + 1, len, CharClass::Not(c));
        if close >= len {
            return Err(ParseError { position: p, fault: ParseFault::UnterminatedString });
        }
        let text = text_of_range(chars, p + 1, close);
        return Ok((Node::Literal(Value::String(text)), close + 1));
    }
    if belongs_to_name_start(c) {
        let end: usize = run_end(chars, p, len, CharClass::NamePart);
        assert(end > p) by {
            assert(in_class(CharClass::NamePart, chars@[p as int]));
        }
        let name = text_of_range(chars, p, end);
        if same_text(name.as_str(), "true") {
            return Ok((Node::Literal(Value::Bool(true)), end));
        }
        if same_text(name.as_str(), "false") {
            return Ok((Node::Literal(Value::Bool(false)), end));
        }
        if same_text(name.as_str(), "null") {
            return Ok((Node::Literal(Value::Null), end));
        }
        let open: usize = skip_blanks(chars, end);
        if char_is(chars, open, '(') {
            let first: usize = skip_blanks(chars, open + 1);
            if char_is(chars, first, ')') {
                let none: Vec<Node> = Vec::new();
                assert(nodes_view(none@) =~= Seq::<NodeView>::empty());
                return Ok((apply(name, none, p), first + 1));
            }
            let none: Vec<Node> = Vec::new();
            assert(nodes_view(none@) =~= Seq::<NodeView>::empty());
            return match arguments(chars, open + 1, none) {
                Ok((args, next)) => Ok((apply(name, args, p), next)),
                Err(e) => Err(e),
            };
        }
        return members(chars, end, Node::Identifier(name, p));
    }
    if c == '(' {
        return match binary(chars, p + 1, 0) {
            Ok((inner, next)) => {
                let close: usize = skip_blanks(chars, next);
                if char_is(chars, close, ')') {
                    Ok((inner, close + 1))
                } else if close >= len {
                    Err(ParseError { position: p, fault: ParseFault::UnbalancedParenthesis })
                } else {
                    Err(ParseError { position: close, fault: ParseFault::UnexpectedToken })
                }
            },
            Err(e) => Err(e),
        };
    }
    if operator_char(c) {
        Err(ParseError { position: p, fault: ParseFault::UnexpectedToken })
    } else {
        Err(ParseError { position: p, fault: ParseFault::UnexpectedCharacter })
    }
}

fn arguments(chars: &Vec<char>, pos: usize, done: Vec<Node>) -> (r: Result<
    (Vec<Node>, usize),
    ParseError,
>)
    requires
        pos <= chars.len(),
    ensures
        list_view(r) == parse_args(chars@, pos as int, nodes_view(done@)),
        r is Ok ==> pos < r->Ok_0.1 <= chars.len(),
    decreases chars.len() - pos, 200nat,
{
    let len: usize = chars.len();
    match binary(chars, pos, 0) {
        Ok((arg, next)) => {
            let after: usize = skip_blanks(chars, next);
            let mut done = done;
            let ghost before = done@;
            let ghost arg_view = arg@;
            if char_is(chars, after, ')') {
                done.push(arg);
                assert(nodes_view(done@) =~= nodes_view(before).push(arg_view));
                Ok((done, after + 1))
            } else if char_is(chars, after, ',') {
                done.push(arg);
                assert(nodes_view(done@) =~= nodes_view(before).push(arg_view));
                arguments(chars, after + 1, done)
            } else if after >= len {
                Err(ParseError { position: after, fault: ParseFault::UnbalancedParenthesis })
            } else {
                Err(ParseError { position: after, fault: ParseFault::UnexpectedToken })
            }
        },
        Err(e) => Err(e),
    }
}

fn unary(chars: &Vec<char>, pos: usize) -> (r: Result<(Node, usize), ParseError>)
    requires
        pos <= chars.len(),
    ensures
        parse_view(r) == parse_unary(chars@, pos as int),
        r is Ok ==> pos < r->Ok_0.1 <= chars.len(),
    decreases chars.len() - pos, 20nat,
{
    let len: usize = chars.len();
    let p: usize = skip_blanks(chars, pos);
    if char_is(chars, p, '!') {
        match unary(chars, p + 1) {
            Ok((operand, next)) => Ok((Node::Unary(UnaryOp::Not, Box::new(operand), p), next)),
            Err(e) => Err(e),
        }
    } else if char_is(chars, p, '-') {
        if p + 1 < len && '0' <= chars[p + 1] && chars[p + 1] <= '9' {
            number(chars, p, p + 1)
        } else {
            match unary(chars, p + 1) {
                Ok((operand, next)) => Ok((Node::Unary(UnaryOp::Neg, Box::new(operand), p), next)),
                Err(e) => Err(e),
            }
        }
    } else {
        primary(chars, pos)
    }
}

fn binary(chars: &Vec<char>, pos: usize, level: u8) -> (r: Result<(Node, usize), ParseError>)
    requires
        pos <= chars.len(),
        level <= 7,
    ensures
        parse_view(r) == parse_binary(chars@, pos as int, level),
        r is Ok ==> pos < r->Ok_0.1 <= chars.len(),
    decreases chars.len() - pos, 100 - 10 * level,
{
    if level >= 7 {
        unary(chars, pos)
    } else {
        match binary(chars, pos, level + 1) {
            Ok((left, next)) => tail(chars, next, level, left),
            Err(e) => Err(e),
        }
    }
}

fn tail(chars: &Vec<char>, pos: usize, level: u8, left: Node) -> (r: Result<
    (Node, usize),
    ParseError,
>)
    requires
        pos <= chars.len(),
        level < 7,
    ensures
        parse_view(r) == parse_tail(chars@, pos as int, level, left@),
        r is Ok ==> pos <= r->Ok_0.1 <= chars.len(),
    decreases chars.len() - pos, 95 - 10 * level,
{
    let at: usize = skip_blanks(chars, pos);
    match find_infix(chars, at, level) {
        None => Ok((left, pos)),
        Some((infix, width)) => match binary(chars, at + width, level + 1) {
            Ok((right, next)) => {
                let node = join(infix, left, right, at);
                if level == 4 {
                    Ok((node, next))
                } else {
                    tail(chars, next, level, node)
                }
            },
            Err(e) => Err(e),
        },
    }
}

/// Reads a whole text as one expression: see [`parse_expression`].
pub fn parse(source: &str) -> (r: Result<Node, ParseError>)
    ensures
        match r {
            Ok(node) => parse_expression(source@) == Ok::<NodeView, ParseError>(node@),
            Err(e) => parse_expression(source@) == Err::<NodeView, ParseError>(e),
        },
{
    let chars = chars_of(source);
    match binary(&chars, 0, 0) {
        Ok((node, next)) => {
            let end: usize = skip_blanks(&chars, next);
            if end >= chars.len() {
                Ok(node)
            } else {
                Err(ParseError { position: end, fault: ParseFault::TrailingInput })
            }
        },
        Err(e) => Err(e),
    }
}

} // verus!
