//! What holds of whole evaluations, from the source of an expression to
//! its value: an integer that is written out and handed to `str` and `int`
//! comes back as it went in, and a fact of the context or of the system is
//! its string, or null where there is none.

use vstd::prelude::*;
use crate::ast::NodeView;
use crate::bindings::{as_object, lookup};
use crate::casts::int_survives_str_and_int;
use crate::config::{builtin_named, cast_named, Builtin, EvalConfig};
use crate::decimal::{int_text, is_digit, nat_text, nat_text_is_digits, parse_reads_int_text};
use crate::dialog::evaluation;
use crate::evaluator::{apply_builtin, eval_each, eval_node, field_named, gather, is_constants_root, member_of, ScopeView};
use crate::float_table::{OutcomeView, QueryView, ReplyView};
use crate::parser::{applied, infix_at, parse_args, parse_binary, parse_expression, parse_members, parse_number, parse_primary, parse_tail, parse_unary, skip_blank, Parse, ParseList};
use crate::scan::{in_class, is_ascii_digit, is_blank, is_name_part, is_name_start, prefix_len_is, run, CharClass};
use crate::value::ValueView;

verus! {

/// A run ends where the first character outside the class stands.
pub proof fn run_ends_at(s: Seq<char>, from: int, class: CharClass, end: int)
    requires
        0 <= from <= end <= s.len(),
        forall|i: int| from <= i < end ==> in_class(class, #[trigger] s[i]),
        end == s.len() || !in_class(class, s[end]),
    ensures
        run(s, from, class) == end,
{
    let rest = s.skip(from);
    assert forall|i: int| 0 <= i < end - from implies in_class(class, #[trigger] rest[i]) by {
        assert(rest[i] == s[from + i]);
    }
    if end < s.len() {
        assert(rest[end - from] == s[end]);
    }
    prefix_len_is(rest, class, end - from);
}

/// Behind an expression stands no operator if the text ends there or goes
/// on with a closing parenthesis.
pub open spec fn closes(s: Seq<char>, at: int) -> bool {
    0 <= at <= s.len() && (at == s.len() || s[at] == ')')
}

/// Where the text closes there is no blank to skip and no operator of any
/// level.
pub proof fn nothing_follows_where_it_closes(s: Seq<char>, at: int)
    requires
        closes(s, at),
    ensures
        skip_blank(s, at) == at,
        forall|level: u8| (#[trigger] infix_at(s, at, level)) is None,
{
    run_ends_at(s, at, CharClass::Blank, at);
}

/// An expression with prefixes behind which the text closes is an
/// expression of every level.
pub proof fn unary_is_binary_where_it_closes(
    s: Seq<char>,
    pos: int,
    level: u8,
    node: NodeView,
    next: int,
)
    requires
        0 <= pos <= next,
        level <= 7,
        parse_unary(s, pos) == Parse::Read(node, next),
        closes(s, next),
    ensures
        parse_binary(s, pos, level) == Parse::Read(node, next),
    decreases 7 - level,
{
    if level < 7 {
        unary_is_binary_where_it_closes(s, pos, (level + 1) as u8, node, next);
        nothing_follows_where_it_closes(s, next);
        assert(infix_at(s, next, level) is None);
        assert(parse_tail(s, next, level, node) == Parse::Read(node, next));
    }
}

/// The text form of an integer, where the text closes behind it, is read
/// as the literal of that integer.
pub proof fn int_text_is_read_as_a_literal(s: Seq<char>, at: int, n: i64)
    requires
        0 <= at,
        at + int_text(n as int).len() < s.len(),
        s.subrange(at, at + int_text(n as int).len()) == int_text(n as int),
        s[at + int_text(n as int).len()] == ')',
    ensures
        parse_binary(s, at, 0) == Parse::Read(
            NodeView::Literal(ValueView::Int64(n as int)),
            at + int_text(n as int).len(),
        ),
{
    let text = int_text(n as int);
    let end = at + text.len();
    let magnitude: nat = (if n < 0 {
        -n
    } else {
        n as int
    }) as nat;
    nat_text_is_digits(magnitude);
    parse_reads_int_text(n);
    assert forall|i: int| 0 <= i < text.len() implies s[at + i] == #[trigger] text[i] by {
        assert(s.subrange(at, end)[i] == s[at + i]);
    }
    let first_digit: int = if n < 0 {
        at + 1
    } else {
        at
    };
    assert forall|i: int| first_digit <= i < end implies in_class(
        CharClass::Digit,
        #[trigger] s[i],
    ) by {
        assert(s[i] == text[i - at]);
        if n < 0 {
            assert(text[i - at] == nat_text(magnitude)[i - at - 1]);
        }
    }
    assert(s[at] == text[0]);
    run_ends_at(s, at, CharClass::Blank, at);
    run_ends_at(s, first_digit, CharClass::Digit, end);
    let literal = NodeView::Literal(ValueView::Int64(n as int));
    assert(parse_number(s, at, first_digit) == Parse::Read(literal, end));
    if n < 0 {
        assert(s[at] == '-');
        assert(is_ascii_digit(s[at + 1]));
        assert(parse_unary(s, at) == Parse::Read(literal, end));
    } else {
        assert(is_ascii_digit(s[at]));
        assert(parse_primary(s, at) == Parse::Read(literal, end));
        assert(parse_unary(s, at) == Parse::Read(literal, end));
    }
    unary_is_binary_where_it_closes(s, at, 0, literal, end);
}

/// Whether the text can be the name of a function: a name that is none of
/// the words of the grammar.
pub open spec fn is_function_name(name: Seq<char>) -> bool {
    &&& name.len() >= 1
    &&& is_name_start(name[0])
    &&& forall|i: int| 0 <= i < name.len() ==> is_name_part(#[trigger] name[i])
    &&& name != "true"@
    &&& name != "false"@
    &&& name != "null"@
    &&& name != "array"@
}

/// A function name, an opening parenthesis, one argument and a closing
/// parenthesis, where the text closes behind them, are read as the call of
/// the function with the argument.
pub proof fn a_call_with_one_argument_is_read(
    s: Seq<char>,
    at: int,
    name: Seq<char>,
    arg: NodeView,
    close: int,
)
    requires
        0 <= at,
        is_function_name(name),
        at + name.len() + 1 < close < s.len(),
        s.subrange(at, at + name.len()) == name,
        s[at + name.len()] == '(',
        !is_blank(s[at + name.len() + 1]),
        s[at + name.len() + 1] != ')',
        parse_binary(s, at + name.len() + 1, 0) == Parse::Read(arg, close),
        s[close] == ')',
        closes(s, close + 1),
    ensures
        parse_binary(s, at, 0) == Parse::Read(
            NodeView::Call(name, seq![arg], at as usize),
            close + 1,
        ),
{
    let open = at + name.len();
    assert forall|i: int| at <= i < open implies in_class(CharClass::NamePart, #[trigger] s[i]) by {
        assert(s.subrange(at, open)[i - at] == s[i]);
    }
    assert(s[at] == name[0]) by {
        assert(s.subrange(at, open)[0] == s[at]);
    }
    run_ends_at(s, at, CharClass::Blank, at);
    run_ends_at(s, at, CharClass::NamePart, open);
    run_ends_at(s, open, CharClass::Blank, open);
    run_ends_at(s, open + 1, CharClass::Blank, open + 1);
    run_ends_at(s, close, CharClass::Blank, close);
    let call = NodeView::Call(name, seq![arg], at as usize);
    assert(Seq::<NodeView>::empty().push(arg) =~= seq![arg]);
    assert(parse_args(s, open + 1, Seq::empty()) == ParseList::Read(seq![arg], close + 1));
    assert(applied(name, seq![arg], at) == call);
    assert(parse_primary(s, at) == Parse::Read(call, close + 1));
    assert(parse_unary(s, at) == Parse::Read(call, close + 1));
    unary_is_binary_where_it_closes(s, at, 0, call, close + 1);
}

/// The scope in which every builtin is on offer.
pub open spec fn full_scope(
    context: Seq<(Seq<char>, Seq<char>)>,
    system: Seq<(Seq<char>, Seq<char>)>,
    now: i64,
) -> ScopeView {
    ScopeView {
        context,
        system,
        config: EvalConfig {
            include_maths: true,
            include_datetime: true,
            include_cast: true,
            include_regex: true,
        },
        now,
    }
}

/// The value of a call with one argument is that of the function on the
/// value of the argument.
pub proof fn a_call_applies_the_builtin(
    name: Seq<char>,
    builtin: Builtin,
    arg: NodeView,
    position: usize,
    value: ValueView,
    scope: ScopeView,
    facts: Map<QueryView, ReplyView>,
)
    requires
        builtin_named(name, scope.config) == Some(builtin),
        eval_node(arg, scope, facts) == OutcomeView::Ready(value),
    ensures
        eval_node(NodeView::Call(name, seq![arg], position), scope, facts) == apply_builtin(
            builtin,
            seq![value],
            scope,
            facts,
            position,
        ),
{
    let parts = eval_each(seq![arg], scope, facts);
    assert(parts =~= seq![OutcomeView::Ready(value)]);
    assert(parts.drop_last() =~= Seq::empty());
    assert(gather(parts.drop_last()) == OutcomeView::Ready(Seq::<ValueView>::empty()));
    assert(Seq::<ValueView>::empty().push(value) =~= seq![value]);
    assert(gather(parts) == OutcomeView::Ready(seq![value]));
}

/// For every 64-bit integer `n`, in every context and at every instant,
/// whatever is known of doubles: the expression `str(n)`, with `n` written
/// out in decimal, evaluates to the text form of `n`.
pub proof fn str_of_an_integer_is_its_text(
    n: i64,
    context: Seq<(Seq<char>, Seq<char>)>,
    system: Seq<(Seq<char>, Seq<char>)>,
    now: i64,
    facts: Map<QueryView, ReplyView>,
)
    ensures
        evaluation("str("@ + int_text(n as int) + ")"@, context, system, now, facts)
            == OutcomeView::Ready(ValueView::String(int_text(n as int))),
{
    reveal_strlit("str(");
    reveal_strlit(")");
    names_are_function_names();
    let text = int_text(n as int);
    let s = "str("@ + text + ")"@;
    let name = "str"@;
    reveal_strlit("str");
    let magnitude: nat = (if n < 0 {
        -n
    } else {
        n as int
    }) as nat;
    nat_text_is_digits(magnitude);
    let close: int = 4 + text.len() as int;
    assert(s.len() == close + 1);
    assert(s.subrange(4, close) =~= text);
    assert(s.subrange(0, 3) =~= name);
    assert(s[4] == text[0]);
    assert(text[0] == '-' || is_digit(text[0]));
    int_text_is_read_as_a_literal(s, 4, n);
    let literal = NodeView::Literal(ValueView::Int64(n as int));
    a_call_with_one_argument_is_read(s, 0, name, literal, close);
    let call = NodeView::Call(name, seq![literal], 0);
    nothing_follows_where_it_closes(s, s.len() as int);
    assert(parse_expression(s) == Ok::<NodeView, crate::failure::ParseError>(call));
    let scope = full_scope(context, system, now);
    a_call_applies_the_builtin(
        name,
        Builtin::Str,
        literal,
        0,
        ValueView::Int64(n as int),
        scope,
        facts,
    );
    int_survives_str_and_int(n, facts);
}

/// For every 64-bit integer `n`, in every context and at every instant,
/// whatever is known of doubles: the expression `int(str(n))`, with `n`
/// written out in decimal, evaluates to `n`.
pub proof fn int_of_str_of_an_integer_is_the_integer(
    n: i64,
    context: Seq<(Seq<char>, Seq<char>)>,
    system: Seq<(Seq<char>, Seq<char>)>,
    now: i64,
    facts: Map<QueryView, ReplyView>,
)
    ensures
        evaluation("int(str("@ + int_text(n as int) + "))"@, context, system, now, facts)
            == OutcomeView::Ready(ValueView::Int64(n as int)),
{
    reveal_strlit("int(str(");
    reveal_strlit("))");
    names_are_function_names();
    let text = int_text(n as int);
    let s = "int(str("@ + text + "))"@;
    let outer = "int"@;
    let inner = "str"@;
    reveal_strlit("str");
    reveal_strlit("int");
    let magnitude: nat = (if n < 0 {
        -n
    } else {
        n as int
    }) as nat;
    nat_text_is_digits(magnitude);
    let close: int = 8 + text.len() as int;
    assert(s.len() == close + 2);
    assert(s.subrange(8, close) =~= text);
    assert(s.subrange(4, 7) =~= inner);
    assert(s.subrange(0, 3) =~= outer);
    assert(s[8] == text[0]);
    assert(text[0] == '-' || is_digit(text[0]));
    int_text_is_read_as_a_literal(s, 8, n);
    let literal = NodeView::Literal(ValueView::Int64(n as int));
    a_call_with_one_argument_is_read(s, 4, inner, literal, close);
    let shown = NodeView::Call(inner, seq![literal], 4);
    a_call_with_one_argument_is_read(s, 0, outer, shown, close + 1);
    let call = NodeView::Call(outer, seq![shown], 0);
    nothing_follows_where_it_closes(s, s.len() as int);
    assert(parse_expression(s) == Ok::<NodeView, crate::failure::ParseError>(call));
    let scope = full_scope(context, system, now);
    a_call_applies_the_builtin(
        inner,
        Builtin::Str,
        literal,
        4,
        ValueView::Int64(n as int),
        scope,
        facts,
    );
    int_survives_str_and_int(n, facts);
    a_call_applies_the_builtin(
        outer,
        Builtin::Int,
        shown,
        0,
        ValueView::String(text),
        scope,
        facts,
    );
}

/// Whether the text is a name: an ASCII letter or an underscore, and then
/// ASCII letters, ASCII digits and underscores.
pub open spec fn is_name(name: Seq<char>) -> bool {
    &&& name.len() >= 1
    &&& is_name_start(name[0])
    &&& forall|i: int| 0 <= i < name.len() ==> is_name_part(#[trigger] name[i])
}

/// What a fact is worth in an expression: its string if it is bound, else
/// null.
pub open spec fn fact_value(entries: Seq<(Seq<char>, Seq<char>)>, key: Seq<char>) -> ValueView {
    match lookup(entries, key) {
        Some(text) => ValueView::String(text),
        None => ValueView::Null,
    }
}

/// The field of the object of some bindings is the fact of that name.
pub proof fn the_field_of_bindings_is_the_fact(entries: Seq<(Seq<char>, Seq<char>)>, key: Seq<char>)
    ensures
        field_named(as_object(entries)->Object_0, key) == fact_value(entries, key),
    decreases entries.len(),
{
    if entries.len() > 0 {
        let fields = as_object(entries)->Object_0;
        assert(fields[0] == (entries[0].0, ValueView::String(entries[0].1)));
        assert(fields.drop_first() =~= as_object(entries.drop_first())->Object_0);
        the_field_of_bindings_is_the_fact(entries.drop_first(), key);
    }
}

/// A root name of three letters, a point and a name are read as the field
/// of that name of the root.
proof fn a_field_of_a_root_is_read(s: Seq<char>, root: Seq<char>, key: Seq<char>)
    requires
        is_function_name(root),
        root.len() == 3,
        is_name(key),
        s == root + seq!['.'] + key,
    ensures
        parse_expression(s) == Ok::<NodeView, crate::failure::ParseError>(
            NodeView::Member(Box::new(NodeView::Identifier(root, 0)), key, 3),
        ),
{
    let end = s.len() as int;
    assert(s.subrange(0, 3) =~= root);
    assert(s.subrange(4, end) =~= key);
    assert forall|i: int| 0 <= i < 3 implies in_class(CharClass::NamePart, #[trigger] s[i]) by {
        assert(s[i] == root[i]);
    }
    assert forall|i: int| 4 <= i < end implies in_class(CharClass::NamePart, #[trigger] s[i]) by {
        assert(s[i] == key[i - 4]);
    }
    assert(s[0] == root[0]);
    assert(s[3] == '.');
    assert(s[4] == key[0]);
    run_ends_at(s, 0, CharClass::Blank, 0);
    run_ends_at(s, 0, CharClass::NamePart, 3);
    run_ends_at(s, 3, CharClass::Blank, 3);
    run_ends_at(s, 4, CharClass::NamePart, end);
    let base = NodeView::Identifier(root, 0);
    let member = NodeView::Member(Box::new(base), key, 3);
    assert(parse_members(s, end, member) == Parse::Read(member, end));
    assert(parse_members(s, 3, base) == Parse::Read(member, end));
    assert(parse_primary(s, 0) == Parse::Read(member, end));
    assert(parse_unary(s, 0) == Parse::Read(member, end));
    unary_is_binary_where_it_closes(s, 0, 0, member, end);
    nothing_follows_where_it_closes(s, end);
}

/// For every name `key`, in every context, at every instant and whatever
/// is known of doubles: the expression `ctx.key` evaluates to the string
/// that the context binds the name to, and to null if it binds it to
/// none; it never fails. The same holds of `sys.key` and the system.
pub proof fn a_fact_is_its_string_or_null(
    key: Seq<char>,
    context: Seq<(Seq<char>, Seq<char>)>,
    system: Seq<(Seq<char>, Seq<char>)>,
    now: i64,
    facts: Map<QueryView, ReplyView>,
)
    requires
        is_name(key),
    ensures
        evaluation("ctx."@ + key, context, system, now, facts) == OutcomeView::Ready(
            fact_value(context, key),
        ),
        evaluation("sys."@ + key, context, system, now, facts) == OutcomeView::Ready(
            fact_value(system, key),
        ),
{
    reveal_strlit("ctx.");
    reveal_strlit("sys.");
    reveal_strlit("ctx");
    reveal_strlit("sys");
    reveal_strlit("maths");
    reveal_strlit("true");
    reveal_strlit("false");
    reveal_strlit("null");
    reveal_strlit("array");
    assert("ctx"@[0] != "sys"@[0]);
    assert("ctx."@ + key =~= "ctx"@ + seq!['.'] + key);
    assert("sys."@ + key =~= "sys"@ + seq!['.'] + key);
    a_field_of_a_root_is_read("ctx."@ + key, "ctx"@, key);
    a_field_of_a_root_is_read("sys."@ + key, "sys"@, key);
    the_field_of_bindings_is_the_fact(context, key);
    the_field_of_bindings_is_the_fact(system, key);
    let scope = full_scope(context, system, now);
    let of_context = NodeView::Identifier("ctx"@, 0);
    let of_system = NodeView::Identifier("sys"@, 0);
    assert(!is_constants_root(of_context, scope));
    assert(!is_constants_root(of_system, scope));
    assert(eval_node(of_context, scope, facts) == OutcomeView::Ready(as_object(context)));
    assert(eval_node(of_system, scope, facts) == OutcomeView::Ready(as_object(system)));
    assert(eval_node(NodeView::Member(Box::new(of_context), key, 3), scope, facts)
        == member_of(as_object(context), key, 3));
    assert(eval_node(NodeView::Member(Box::new(of_system), key, 3), scope, facts) == member_of(
        as_object(system),
        key,
        3,
    ));
}

/// `str` and `int` are names of functions, and the names of the two casts.
proof fn names_are_function_names()
    ensures
        is_function_name("str"@),
        is_function_name("int"@),
        "str"@.len() == 3,
        "int"@.len() == 3,
        cast_named("str"@) == Some(Builtin::Str),
        cast_named("int"@) == Some(Builtin::Int),
{
    reveal_strlit("true");
    reveal_strlit("false");
    reveal_strlit("null");
    reveal_strlit("array");
    reveal_strlit("int");
    reveal_strlit("float");
    reveal_strlit("bool");
    reveal_strlit("str");
    assert("str"@[0] != "int"@[0]);
}

} // verus!
