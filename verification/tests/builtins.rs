use dialog_engine::calendar::{
    civil_of, date_function, eval_tz_parse_args, time_function, unit_for, Civil, DateField,
    TimeUnit, _now,
};
use dialog_engine::casts::{cast_bool, cast_float, cast_int, cast_str, string_form_of};
use dialog_engine::config::{find_builtin, Builtin, EvalConfig};
use dialog_engine::consts::{find_constant, math_consts, number_from, TypeOfString};
use dialog_engine::decimal::{int_to_text, parse_int, IntParse};
use dialog_engine::failure::{EvalError, EvalFault, Failure};
use dialog_engine::float_table::{FloatOp, FloatQuery, FloatReply, FloatTable, Outcome};
use dialog_engine::json::json_of;
use dialog_engine::lenient::_atoi;
use dialog_engine::pattern::{is_match, match_text};
use dialog_engine::value::Value;
use dialog_engine::zones::{str_to_tz, zone_name, Zone};

fn answer(query: &FloatQuery) -> FloatReply {
    match query {
        FloatQuery::Parse(text) => match text.parse::<f64>() {
            Ok(x) => FloatReply::Bits(x.to_bits()),
            Err(_) => FloatReply::Invalid,
        },
        FloatQuery::Show(bits) => FloatReply::Text(f64::from_bits(*bits).to_string()),
        FloatQuery::JsonShow(bits) => {
            FloatReply::Text(serde_json::to_string(&f64::from_bits(*bits)).unwrap())
        }
        FloatQuery::Arith(op, a, b) => {
            let x = f64::from_bits(*a);
            let y = f64::from_bits(*b);
            let z = match op {
                FloatOp::Add => x + y,
                FloatOp::Sub => x - y,
                FloatOp::Mul => x * y,
                FloatOp::Div => x / y,
                FloatOp::Rem => x % y,
            };
            FloatReply::Bits(z.to_bits())
        }
        FloatQuery::FromInt(n) => FloatReply::Bits((*n as f64).to_bits()),
    }
}

fn settle<T>(run: impl Fn(&FloatTable) -> Outcome<T>) -> Result<T, Failure> {
    let mut floats = FloatTable::new();
    loop {
        match run(&floats) {
            Outcome::Ready(value) => return Ok(value),
            Outcome::Failed(failure) => return Err(failure),
            Outcome::Needs(query) => {
                let reply = answer(&query);
                assert!(floats.record(query, reply));
            }
        }
    }
}

fn atoi(s: &str) -> i64 {
    settle(|floats| _atoi(s, floats)).unwrap()
}

fn double(x: f64) -> Value {
    Value::Float64(x.to_bits())
}

fn text(s: &str) -> Value {
    Value::String(s.to_owned())
}

fn object(fields: Vec<(&str, Value)>) -> Value {
    Value::Object(fields.into_iter().map(|(k, v)| (k.to_owned(), v)).collect())
}

fn is_nan(value: &Value) -> bool {
    match value {
        Value::Float64(bits) => f64::from_bits(*bits).is_nan(),
        _ => false,
    }
}

#[test]
fn integers_are_written_in_decimal() {
    assert_eq!(int_to_text(0), "0");
    assert_eq!(int_to_text(7), "7");
    assert_eq!(int_to_text(-7), "-7");
    assert_eq!(int_to_text(1234567890), "1234567890");
    assert_eq!(int_to_text(i64::MAX), "9223372036854775807");
    assert_eq!(int_to_text(i64::MIN), "-9223372036854775808");
    for n in [0_i64, 1, -1, 9, 10, 11, 99, 100, 101, -100, 4242, i64::MAX, i64::MIN] {
        assert_eq!(int_to_text(n), n.to_string());
    }
}

#[test]
fn integers_are_read_as_rust_reads_them() {
    for s in [
        "", "+", "-", "0", "-0", "+0", "42", "+42", "-42", "0042", "4 2", " 42", "42 ", "4a", "a4",
        "--4", "+-4", "4.2", "9223372036854775807", "9223372036854775808", "-9223372036854775808",
        "-9223372036854775809", "99999999999999999999x", "x99999999999999999999",
        "-99999999999999999999x", "١٢٣",
    ] {
        let expected = match s.parse::<i64>() {
            Ok(n) => IntParse::Number(n),
            Err(e) => match e.kind() {
                std::num::IntErrorKind::Empty => IntParse::Empty,
                std::num::IntErrorKind::InvalidDigit => IntParse::InvalidDigit,
                std::num::IntErrorKind::PosOverflow => IntParse::PosOverflow,
                std::num::IntErrorKind::NegOverflow => IntParse::NegOverflow,
                other => panic!("{:?}", other),
            },
        };
        assert_eq!(parse_int(s), expected, "reading {:?}", s);
    }
}

#[test]
fn an_integer_survives_str_and_int() {
    let floats = FloatTable::new();
    for n in [0_i64, 1, -1, 42, -42, 1000000, i64::MAX, i64::MIN, i64::MAX - 1, i64::MIN + 1] {
        let shown = cast_str(&vec![Value::Int64(n)], &floats);
        assert_eq!(shown, Outcome::Ready(text(&n.to_string())));
        let back = cast_int(&vec![text(&n.to_string())], &floats);
        assert_eq!(back, Outcome::Ready(Value::Int64(n)));
    }
}

#[test]
fn the_lenient_reading_takes_the_leading_number() {
    assert_eq!(atoi("42"), 42);
    assert_eq!(atoi("  42  "), 42);
    assert_eq!(atoi("\t\n42"), 42);
    assert_eq!(atoi("-42"), -42);
    assert_eq!(atoi("+42"), 42);
    assert_eq!(atoi("42.42"), 42);
    assert_eq!(atoi("42.9"), 42);
    assert_eq!(atoi("5."), 5);
    assert_eq!(atoi("4 2"), 4);
    assert_eq!(atoi("42abc"), 42);
    assert_eq!(atoi("1e3"), 1);
    assert_eq!(atoi("0x10"), 0);
    assert_eq!(atoi("12:30"), 12);
    assert_eq!(atoi("1_000"), 1);
    assert_eq!(atoi("1,000"), 1);
}

#[test]
fn the_lenient_reading_gives_zero_for_what_is_no_number() {
    assert_eq!(atoi(""), 0);
    assert_eq!(atoi("   "), 0);
    assert_eq!(atoi("not a num"), 0);
    assert_eq!(atoi("abc42"), 0);
    assert_eq!(atoi("-"), 0);
    assert_eq!(atoi("+"), 0);
    assert_eq!(atoi("--5"), 0);
    assert_eq!(atoi("-.5"), 0);
    assert_eq!(atoi("."), 0);
    assert_eq!(atoi("inf"), 0);
    assert_eq!(atoi("NaN"), 0);
    assert_eq!(atoi("#1"), 0);
}

#[test]
fn the_lenient_reading_clamps_at_the_bounds() {
    assert_eq!(atoi("9223372036854775807"), i64::MAX);
    assert_eq!(atoi("9223372036854775808"), i64::MAX);
    assert_eq!(atoi("99999999999999999999999"), i64::MAX);
    assert_eq!(atoi("-9223372036854775808"), i64::MIN);
    assert_eq!(atoi("-9223372036854775809"), i64::MIN);
    assert_eq!(atoi("-99999999999999999999999"), i64::MIN);
    assert_eq!(atoi("+99999999999999999999999"), i64::MAX);
}

#[test]
fn the_lenient_reading_rounds_a_leading_fraction() {
    assert_eq!(atoi(".5"), 1);
    assert_eq!(atoi(".4"), 0);
    assert_eq!(atoi(".49"), 0);
    assert_eq!(atoi(".99"), 1);
    assert_eq!(atoi("  .75 rest"), 1);
}

#[test]
fn the_lenient_reading_asks_for_the_double_of_a_token_that_is_no_integer() {
    let mut floats = FloatTable::new();
    assert_eq!(_atoi(".5", &floats), Outcome::Needs(FloatQuery::Parse(".5".to_owned())));
    assert_eq!(_atoi(" #1 x", &floats), Outcome::Needs(FloatQuery::Parse("#1".to_owned())));
    assert!(floats.record(FloatQuery::Parse(".5".to_owned()), FloatReply::Bits(2.5_f64.to_bits())));
    assert_eq!(_atoi(".5", &floats), Outcome::Ready(3));
    assert!(floats.record(FloatQuery::Parse("#1".to_owned()), FloatReply::Invalid));
    assert_eq!(_atoi(" #1 x", &floats), Outcome::Ready(0));
    assert_eq!(_atoi("42", &floats), Outcome::Ready(42));
}

#[test]
fn the_lenient_reading_goes_by_unicode() {
    assert_eq!(atoi("\u{a0}42"), 42);
    assert_eq!(atoi("\u{3000}42\u{2003}7"), 42);
    assert_eq!(atoi("42\u{e9}7"), 42);
    assert_eq!(atoi("42\u{4eac}"), 42);
    assert_eq!(atoi("4\u{b2}"), 0);
    assert_eq!(atoi("\u{663}"), 0);
    assert_eq!(atoi("\u{20ac}1."), 0);
    assert_eq!(atoi("7\u{20ac}1"), 7);
}

#[test]
fn int_of_every_kind_of_value() {
    let floats = FloatTable::new();
    let cast = |v: Value| cast_int(&vec![v], &floats);
    assert_eq!(cast_int(&vec![], &floats), Outcome::Ready(Value::Int64(0)));
    assert_eq!(cast(Value::Int64(-7)), Outcome::Ready(Value::Int64(-7)));
    assert_eq!(cast(double(42.42)), Outcome::Ready(Value::Int64(42)));
    assert_eq!(cast(double(-42.99)), Outcome::Ready(Value::Int64(-42)));
    assert_eq!(cast(double(f64::NAN)), Outcome::Ready(Value::Int64(0)));
    assert_eq!(cast(double(f64::INFINITY)), Outcome::Ready(Value::Int64(i64::MAX)));
    assert_eq!(cast(double(f64::NEG_INFINITY)), Outcome::Ready(Value::Int64(i64::MIN)));
    assert_eq!(cast(double(1.0e19)), Outcome::Ready(Value::Int64(i64::MAX)));
    assert_eq!(cast(Value::Bool(true)), Outcome::Ready(Value::Int64(1)));
    assert_eq!(cast(Value::Bool(false)), Outcome::Ready(Value::Int64(0)));
    assert_eq!(cast(text("42.42")), Outcome::Ready(Value::Int64(42)));
    assert_eq!(cast(text("not a num")), Outcome::Ready(Value::Int64(0)));
    assert_eq!(cast(text("")), Outcome::Ready(Value::Int64(0)));
    assert_eq!(cast(Value::Null), Outcome::Ready(Value::Int64(0)));
    assert_eq!(cast(Value::Array(vec![Value::Int64(1)])), Outcome::Ready(Value::Int64(0)));
    assert_eq!(cast(object(vec![("a", Value::Int64(1))])), Outcome::Ready(Value::Int64(0)));
    assert_eq!(
        cast_int(&vec![Value::Int64(1), Value::Int64(2), text("ignored")], &floats),
        Outcome::Ready(Value::Int64(1))
    );
}

#[test]
fn float_of_every_kind_of_value() {
    let cast = |v: Value| settle(|floats| cast_float(&vec![v.clone()], floats)).unwrap();
    assert!(is_nan(&settle(|floats| cast_float(&vec![], floats)).unwrap()));
    assert_eq!(cast(Value::Int64(42)), double(42.0));
    assert_eq!(cast(Value::Int64(i64::MAX)), double(9223372036854775807.0));
    assert_eq!(cast(double(42.42)), double(42.42));
    assert_eq!(cast(Value::Bool(true)), double(1.0));
    assert_eq!(cast(Value::Bool(false)), double(0.0));
    assert_eq!(cast(text("42.42")), double(42.42));
    assert_eq!(cast(text("42")), double(42.0));
    assert_eq!(cast(text("-1e3")), double(-1000.0));
    assert_eq!(cast(text("inf")), double(f64::INFINITY));
    assert!(is_nan(&cast(text(""))));
    assert!(is_nan(&cast(text("not a num"))));
    assert!(is_nan(&cast(text(" 42"))));
    assert!(is_nan(&cast(Value::Null)));
    assert!(is_nan(&cast(Value::Array(vec![]))));
    assert!(is_nan(&cast(object(vec![]))));
}

#[test]
fn float_asks_for_what_it_needs() {
    let floats = FloatTable::new();
    assert_eq!(
        cast_float(&vec![Value::Int64(42)], &floats),
        Outcome::Needs(FloatQuery::FromInt(42))
    );
    assert_eq!(
        cast_float(&vec![text("42.42")], &floats),
        Outcome::Needs(FloatQuery::Parse("42.42".to_owned()))
    );
    assert_eq!(cast_float(&vec![double(1.5)], &floats), Outcome::Ready(double(1.5)));
}

#[test]
fn bool_is_false_for_the_zeros_and_the_empty_values_only() {
    let truth = |v: Value| cast_bool(&vec![v]);
    assert_eq!(cast_bool(&vec![]), Value::Bool(false));
    for falsy in [
        Value::Int64(0),
        double(0.0),
        double(-0.0),
        Value::Bool(false),
        text(""),
        Value::Array(vec![]),
        object(vec![]),
        Value::Null,
    ] {
        assert_eq!(truth(falsy.clone()), Value::Bool(false), "{:?}", falsy);
    }
    for truthy in [
        Value::Int64(1),
        Value::Int64(-1),
        Value::Int64(i64::MIN),
        double(0.1),
        double(-42.42),
        double(5.0e-324),
        double(f64::NAN),
        double(f64::INFINITY),
        Value::Bool(true),
        text(" "),
        text("false"),
        text("0"),
        Value::Array(vec![Value::Null]),
        Value::Array(vec![Value::Int64(0)]),
        object(vec![("a", Value::Null)]),
    ] {
        assert_eq!(truth(truthy.clone()), Value::Bool(true), "{:?}", truthy);
    }
    assert_eq!(cast_bool(&vec![Value::Int64(0), Value::Int64(1)]), Value::Bool(false));
}

#[test]
fn str_of_every_kind_of_value() {
    let string = |v: Value| settle(|floats| cast_str(&vec![v.clone()], floats)).unwrap();
    assert_eq!(settle(|floats| cast_str(&vec![], floats)).unwrap(), text(""));
    assert_eq!(string(Value::Int64(42)), text("42"));
    assert_eq!(string(Value::Int64(-42)), text("-42"));
    assert_eq!(string(double(42.42)), text("42.42"));
    assert_eq!(string(double(42.0)), text("42"));
    assert_eq!(string(double(1.0e21)), text("1000000000000000000000"));
    assert_eq!(string(double(f64::NAN)), text("NaN"));
    assert_eq!(string(double(f64::NEG_INFINITY)), text("-inf"));
    assert_eq!(string(Value::Bool(true)), text("true"));
    assert_eq!(string(Value::Bool(false)), text("false"));
    assert_eq!(string(text("as it is")), text("as it is"));
    assert_eq!(string(Value::Null), text("null"));
    assert_eq!(string(Value::Array(vec![])), text("[]"));
    assert_eq!(string(object(vec![])), text("{}"));
    assert_eq!(
        string(Value::Array(vec![Value::Int64(42), Value::Int64(42)])),
        text("[42,42]")
    );
    assert_eq!(
        string(object(vec![("some_var", text("42")), ("something", text("true"))])),
        text("{\"some_var\":\"42\",\"something\":\"true\"}")
    );
}

#[test]
fn json_text_is_what_serde_json_writes() {
    let value = object(vec![
        ("n", Value::Null),
        ("b", Value::Array(vec![Value::Bool(true), Value::Bool(false)])),
        ("i", Value::Int64(i64::MIN)),
        ("x", double(1.5)),
        ("w", double(42.0)),
        ("big", double(1.0e21)),
        ("nan", double(f64::NAN)),
        ("inf", double(f64::INFINITY)),
        ("s", text("a\"b\\c\n\t\u{1}\u{e9}")),
        ("o", object(vec![("k \"q\"", Value::Array(vec![]))])),
    ]);
    let written = settle(|floats| json_of(&value, floats)).unwrap();
    let expected = serde_json::Value::Object(
        vec![
            ("n".to_owned(), serde_json::Value::Null),
            ("b".to_owned(), serde_json::Value::from(vec![true, false])),
            ("i".to_owned(), serde_json::Value::from(i64::MIN)),
            ("x".to_owned(), serde_json::Value::from(1.5)),
            ("w".to_owned(), serde_json::Value::from(42.0)),
            ("big".to_owned(), serde_json::Value::from(1.0e21)),
            ("nan".to_owned(), serde_json::Value::Null),
            ("inf".to_owned(), serde_json::Value::Null),
            ("s".to_owned(), serde_json::Value::from("a\"b\\c\n\t\u{1}\u{e9}")),
            (
                "o".to_owned(),
                serde_json::Value::Object(
                    vec![("k \"q\"".to_owned(), serde_json::Value::Array(vec![]))]
                        .into_iter()
                        .collect(),
                ),
            ),
        ]
        .into_iter()
        .collect(),
    );
    let read: serde_json::Value = serde_json::from_str(&written).unwrap();
    assert_eq!(read, expected);
    let big = serde_json::to_string(&1.0e21_f64).unwrap();
    assert_eq!(
        written,
        format!(
            "{}{}{}",
            "{\"n\":null,\"b\":[true,false],\"i\":-9223372036854775808,\"x\":1.5,\"w\":42.0,\"big\":",
            big,
            ",\"nan\":null,\"inf\":null,\"s\":\"a\\\"b\\\\c\\n\\t\\u0001\u{e9}\",\"o\":{\"k \\\"q\\\"\":[]}}"
        )
    );
}

#[test]
fn json_text_asks_for_the_first_double_it_meets() {
    let floats = FloatTable::new();
    let value = Value::Array(vec![Value::Int64(1), double(1.5), double(2.5)]);
    assert_eq!(json_of(&value, &floats), Outcome::Needs(FloatQuery::JsonShow(1.5_f64.to_bits())));
    assert_eq!(
        string_form_of(&double(1.5), &floats),
        Outcome::Needs(FloatQuery::Show(1.5_f64.to_bits()))
    );
}

#[test]
fn is_match_searches_the_string_form() {
    let found = |args: Vec<Value>| settle(|floats| is_match(&args, floats, 3));
    assert_eq!(found(vec![text("42"), text("^[0-9]+$")]), Ok(Value::Bool(true)));
    assert_eq!(found(vec![Value::Int64(42), text("[a-z]")]), Ok(Value::Bool(false)));
    assert_eq!(found(vec![Value::Int64(42), text("^42$")]), Ok(Value::Bool(true)));
    assert_eq!(found(vec![double(42.5), text("^42\\.5$")]), Ok(Value::Bool(true)));
    assert_eq!(found(vec![Value::Bool(true), text("ru")]), Ok(Value::Bool(true)));
    assert_eq!(found(vec![Value::Null, text("^null$")]), Ok(Value::Bool(true)));
    assert_eq!(
        found(vec![Value::Array(vec![Value::Int64(1)]), text("^\\[1\\]$")]),
        Ok(Value::Bool(true))
    );
    assert_eq!(found(vec![text("hello world"), text("o w")]), Ok(Value::Bool(true)));
    assert_eq!(found(vec![text("hello"), text("^ello")]), Ok(Value::Bool(false)));
    assert_eq!(found(vec![text("abc"), text("abc"), text("ignored")]), Ok(Value::Bool(true)));
}

#[test]
fn is_match_with_too_few_arguments_is_false() {
    let floats = FloatTable::new();
    assert_eq!(is_match(&vec![], &floats, 0), Outcome::Ready(Value::Bool(false)));
    assert_eq!(is_match(&vec![text("(")], &floats, 0), Outcome::Ready(Value::Bool(false)));
}

#[test]
fn is_match_fails_on_a_bad_pattern() {
    let floats = FloatTable::new();
    assert_eq!(
        is_match(&vec![text("x"), text("(")], &floats, 7),
        Outcome::Failed(Failure::Eval(EvalError { position: 7, fault: EvalFault::InvalidPattern }))
    );
    assert_eq!(
        is_match(&vec![text("x"), Value::Int64(5)], &floats, 7),
        Outcome::Failed(Failure::Eval(EvalError { position: 7, fault: EvalFault::TypeMismatch }))
    );
    assert_eq!(
        match_text("[", "x", 2),
        Outcome::Failed(Failure::Eval(EvalError { position: 2, fault: EvalFault::InvalidPattern }))
    );
    assert_eq!(match_text("x", "x", 2), Outcome::Ready(Value::Bool(true)));
    assert_eq!(match_text("x", "y", 2), Outcome::Ready(Value::Bool(false)));
}

#[test]
fn the_constants_are_written_as_rust_displays_them() {
    let list = math_consts();
    let expected: Vec<(&str, String, TypeOfString)> = vec![
        ("MIN_INT", i64::MIN.to_string(), TypeOfString::INT64),
        ("MAX_INT", i64::MAX.to_string(), TypeOfString::INT64),
        ("MAX_FLOAT", f64::MAX.to_string(), TypeOfString::F64),
        ("MIN_FLOAT", f64::MIN.to_string(), TypeOfString::F64),
        ("NAN", f64::NAN.to_string(), TypeOfString::F64),
        ("INFINITY", f64::INFINITY.to_string(), TypeOfString::F64),
        ("NEG_INFINITY", f64::NEG_INFINITY.to_string(), TypeOfString::F64),
        ("E", std::f64::consts::E.to_string(), TypeOfString::F64),
        ("FRAC_1_SQRT_2", std::f64::consts::FRAC_1_SQRT_2.to_string(), TypeOfString::F64),
        ("FRAC_2_SQRT_PI", std::f64::consts::FRAC_2_SQRT_PI.to_string(), TypeOfString::F64),
        ("FRAC_1_PI", std::f64::consts::FRAC_1_PI.to_string(), TypeOfString::F64),
        ("FRAC_PI_2", std::f64::consts::FRAC_PI_2.to_string(), TypeOfString::F64),
        ("FRAC_PI_3", std::f64::consts::FRAC_PI_3.to_string(), TypeOfString::F64),
        ("FRAC_PI_4", std::f64::consts::FRAC_PI_4.to_string(), TypeOfString::F64),
        ("FRAC_PI_6", std::f64::consts::FRAC_PI_6.to_string(), TypeOfString::F64),
        ("FRAC_PI_8", std::f64::consts::FRAC_PI_8.to_string(), TypeOfString::F64),
        ("LN_2", std::f64::consts::LN_2.to_string(), TypeOfString::F64),
        ("LN_10", std::f64::consts::LN_10.to_string(), TypeOfString::F64),
        ("LOG2_10", std::f64::consts::LOG2_10.to_string(), TypeOfString::F64),
        ("LOG2_E", std::f64::consts::LOG2_E.to_string(), TypeOfString::F64),
        ("LOG10_2", std::f64::consts::LOG10_2.to_string(), TypeOfString::F64),
        ("LOG10_E", std::f64::consts::LOG10_E.to_string(), TypeOfString::F64),
        ("PI", std::f64::consts::PI.to_string(), TypeOfString::F64),
        ("SQRT_2", std::f64::consts::SQRT_2.to_string(), TypeOfString::F64),
        ("TAU", std::f64::consts::TAU.to_string(), TypeOfString::F64),
    ];
    assert_eq!(list.len(), expected.len());
    for (got, want) in list.iter().zip(expected.iter()) {
        assert_eq!(got.0, want.0);
        assert_eq!(got.1 .0, want.1, "the text of {}", want.0);
        assert_eq!(got.1 .1, want.2, "the type of {}", want.0);
    }
}

#[test]
fn a_constant_is_found_by_its_name() {
    assert_eq!(
        find_constant("MAX_INT"),
        Some(("9223372036854775807".to_owned(), TypeOfString::INT64))
    );
    assert_eq!(find_constant("PI"), Some(("3.141592653589793".to_owned(), TypeOfString::F64)));
    assert_eq!(find_constant("pi"), None);
    assert_eq!(find_constant(""), None);
    let number = |t: &str, kind: TypeOfString| settle(|floats| number_from(t, kind, floats));
    assert_eq!(number("-9223372036854775808", TypeOfString::INT64), Ok(Value::Int64(i64::MIN)));
    assert_eq!(number("nothing", TypeOfString::INT64), Ok(Value::Int64(0)));
    assert_eq!(number("3.141592653589793", TypeOfString::F64), Ok(double(std::f64::consts::PI)));
    assert!(is_nan(&number("nothing", TypeOfString::F64).unwrap()));
}

#[test]
fn builtins_are_found_by_name_where_their_family_is_on() {
    let all = EvalConfig::default();
    assert!(all.any());
    assert_eq!(find_builtin("int", &all), Some(Builtin::Int));
    assert_eq!(find_builtin("float", &all), Some(Builtin::Float));
    assert_eq!(find_builtin("bool", &all), Some(Builtin::Bool));
    assert_eq!(find_builtin("str", &all), Some(Builtin::Str));
    assert_eq!(find_builtin("is_match", &all), Some(Builtin::IsMatch));
    assert_eq!(find_builtin("day", &all), Some(Builtin::Date(DateField::Day)));
    assert_eq!(find_builtin("get_day", &all), Some(Builtin::Date(DateField::Day)));
    assert_eq!(find_builtin("month", &all), Some(Builtin::Date(DateField::Month)));
    assert_eq!(find_builtin("get_month", &all), Some(Builtin::Date(DateField::Month)));
    assert_eq!(find_builtin("year", &all), Some(Builtin::Date(DateField::Year)));
    assert_eq!(find_builtin("get_year", &all), Some(Builtin::Date(DateField::Year)));
    assert_eq!(find_builtin("weekday", &all), Some(Builtin::Date(DateField::Weekday)));
    assert_eq!(find_builtin("get_weekday", &all), Some(Builtin::Date(DateField::Weekday)));
    assert_eq!(find_builtin("is_weekday", &all), Some(Builtin::Date(DateField::IsWeekday)));
    assert_eq!(find_builtin("is_weekend", &all), Some(Builtin::Date(DateField::IsWeekend)));
    assert_eq!(find_builtin("time", &all), Some(Builtin::Time));
    assert_eq!(find_builtin("get_time", &all), Some(Builtin::Time));
    assert_eq!(find_builtin("Int", &all), None);
    assert_eq!(find_builtin("len", &all), None);

    let none = EvalConfig {
        include_maths: false,
        include_datetime: false,
        include_cast: false,
        include_regex: false,
    };
    assert!(!none.any());
    for name in ["int", "str", "is_match", "day", "time"] {
        assert_eq!(find_builtin(name, &none), None);
    }
    let casts_only = EvalConfig { include_cast: true, ..none };
    assert!(casts_only.any());
    assert_eq!(find_builtin("int", &casts_only), Some(Builtin::Int));
    assert_eq!(find_builtin("is_match", &casts_only), None);
    assert_eq!(find_builtin("day", &casts_only), None);
    let regex_only = EvalConfig { include_regex: true, ..none };
    assert_eq!(find_builtin("is_match", &regex_only), Some(Builtin::IsMatch));
    assert_eq!(find_builtin("int", &regex_only), None);
    let dates_only = EvalConfig { include_datetime: true, ..none };
    assert_eq!(find_builtin("day", &dates_only), Some(Builtin::Date(DateField::Day)));
    assert_eq!(find_builtin("str", &dates_only), None);
    assert!(EvalConfig { include_maths: true, ..none }.any());
}

#[test]
fn zones_are_known_by_their_names() {
    assert_eq!(str_to_tz("US/Alaska"), Zone::Alaska);
    assert_eq!(str_to_tz("US/Aleutian"), Zone::Aleutian);
    assert_eq!(str_to_tz("US/Arizona"), Zone::Arizona);
    assert_eq!(str_to_tz("US/Central"), Zone::Central);
    assert_eq!(str_to_tz("US/EastIndiana"), Zone::EastIndiana);
    assert_eq!(str_to_tz("US/Eastern"), Zone::Eastern);
    assert_eq!(str_to_tz("US/Hawaii"), Zone::Hawaii);
    assert_eq!(str_to_tz("US/IndianaStarke"), Zone::IndianaStarke);
    assert_eq!(str_to_tz("US/Michigan"), Zone::Michigan);
    assert_eq!(str_to_tz("US/Mountain"), Zone::Mountain);
    assert_eq!(str_to_tz("US/Pacific"), Zone::Pacific);
    assert_eq!(str_to_tz("US/Samoa"), Zone::Samoa);
    assert_eq!(str_to_tz("_"), Zone::Utc);
    assert_eq!(str_to_tz(""), Zone::Utc);
    assert_eq!(str_to_tz("UTC"), Zone::Utc);
    assert_eq!(str_to_tz("us/eastern"), Zone::Utc);
    assert_eq!(str_to_tz("Europe/Paris"), Zone::Utc);
    assert_eq!(zone_name(Zone::Utc), "UTC");
    assert_eq!(zone_name(Zone::EastIndiana), "US/East-Indiana");
    assert_eq!(zone_name(Zone::IndianaStarke), "US/Indiana-Starke");
    assert_eq!(zone_name(Zone::Eastern), "US/Eastern");
}

#[test]
fn every_zone_has_a_date_for_an_instant() {
    let winter: i64 = 1_700_000_000;
    let expected = [
        (Zone::Utc, 22),
        (Zone::Alaska, 13),
        (Zone::Aleutian, 12),
        (Zone::Arizona, 15),
        (Zone::Central, 16),
        (Zone::EastIndiana, 17),
        (Zone::Eastern, 17),
        (Zone::Hawaii, 12),
        (Zone::IndianaStarke, 16),
        (Zone::Michigan, 17),
        (Zone::Mountain, 15),
        (Zone::Pacific, 14),
        (Zone::Samoa, 11),
    ];
    for (zone, hour) in expected {
        assert_eq!(
            civil_of(zone, winter),
            Some(Civil {
                year: 2023,
                month: 11,
                day: 14,
                weekday: 2,
                hour,
                minute: 13,
                second: 20
            }),
            "{:?}",
            zone
        );
    }
    let summer: i64 = 1_688_169_600;
    assert_eq!(
        civil_of(Zone::Utc, summer),
        Some(Civil { year: 2023, month: 7, day: 1, weekday: 6, hour: 0, minute: 0, second: 0 })
    );
    assert_eq!(
        civil_of(Zone::Eastern, summer),
        Some(Civil { year: 2023, month: 6, day: 30, weekday: 5, hour: 20, minute: 0, second: 0 })
    );
    assert_eq!(
        civil_of(Zone::Arizona, summer),
        Some(Civil { year: 2023, month: 6, day: 30, weekday: 5, hour: 17, minute: 0, second: 0 })
    );
    assert_eq!(
        civil_of(Zone::Utc, 0),
        Some(Civil { year: 1970, month: 1, day: 1, weekday: 4, hour: 0, minute: 0, second: 0 })
    );
    assert_eq!(civil_of(Zone::Utc, i64::MAX), None);
    assert_eq!(civil_of(Zone::Utc, i64::MIN), None);
}

#[test]
fn the_clock_gives_a_date_in_range() {
    let before = chrono::Utc::now().timestamp();
    let now = _now(Zone::Utc).unwrap();
    let after = chrono::Utc::now().timestamp();
    assert!(civil_of(Zone::Utc, before).unwrap().year <= now.year);
    assert!(now.year <= civil_of(Zone::Utc, after).unwrap().year);
    assert!(now.year >= 2024);
    assert!((1..=12).contains(&now.month));
    assert!((1..=31).contains(&now.day));
    assert!((1..=7).contains(&now.weekday));
    assert!(now.hour < 24 && now.minute < 60 && now.second < 60);
}

#[test]
fn the_zone_is_the_first_argument_if_it_is_a_string() {
    assert_eq!(eval_tz_parse_args(&vec![], 1), Zone::Utc);
    assert_eq!(eval_tz_parse_args(&vec![text("US/Pacific")], 1), Zone::Pacific);
    assert_eq!(eval_tz_parse_args(&vec![text("US/Pacific")], 2), Zone::Utc);
    assert_eq!(eval_tz_parse_args(&vec![text("US/Pacific"), text("h")], 2), Zone::Pacific);
    assert_eq!(eval_tz_parse_args(&vec![Value::Int64(5)], 1), Zone::Utc);
    assert_eq!(eval_tz_parse_args(&vec![text("_")], 1), Zone::Utc);
    assert_eq!(eval_tz_parse_args(&vec![text("nowhere")], 1), Zone::Utc);
    assert_eq!(eval_tz_parse_args(&vec![text("US/Hawaii")], 0), Zone::Hawaii);
}

#[test]
fn the_date_functions_read_the_fields() {
    let summer: i64 = 1_688_169_600;
    let field = |f: DateField, args: Vec<Value>| date_function(f, &args, summer, 0);
    assert_eq!(field(DateField::Day, vec![]), Outcome::Ready(Value::Int64(1)));
    assert_eq!(field(DateField::Month, vec![]), Outcome::Ready(Value::Int64(7)));
    assert_eq!(field(DateField::Year, vec![]), Outcome::Ready(Value::Int64(2023)));
    assert_eq!(field(DateField::Weekday, vec![]), Outcome::Ready(Value::Int64(6)));
    assert_eq!(field(DateField::IsWeekday, vec![]), Outcome::Ready(Value::Bool(false)));
    assert_eq!(field(DateField::IsWeekend, vec![]), Outcome::Ready(Value::Bool(true)));
    let east = vec![text("US/Eastern")];
    assert_eq!(field(DateField::Day, east.clone()), Outcome::Ready(Value::Int64(30)));
    assert_eq!(field(DateField::Month, east.clone()), Outcome::Ready(Value::Int64(6)));
    assert_eq!(field(DateField::Year, east.clone()), Outcome::Ready(Value::Int64(2023)));
    assert_eq!(field(DateField::Weekday, east.clone()), Outcome::Ready(Value::Int64(5)));
    assert_eq!(field(DateField::IsWeekday, east.clone()), Outcome::Ready(Value::Bool(true)));
    assert_eq!(field(DateField::IsWeekend, east), Outcome::Ready(Value::Bool(false)));
    let sunday: i64 = 1_688_169_600 + 86_400;
    assert_eq!(
        date_function(DateField::Weekday, &vec![], sunday, 0),
        Outcome::Ready(Value::Int64(7))
    );
    assert_eq!(
        date_function(DateField::IsWeekend, &vec![], sunday, 0),
        Outcome::Ready(Value::Bool(true))
    );
    assert_eq!(
        date_function(DateField::Day, &vec![], i64::MAX, 9),
        Outcome::Failed(Failure::Eval(EvalError { position: 9, fault: EvalFault::TimeOutOfRange }))
    );
}

#[test]
fn the_time_function_reads_the_unit() {
    let winter: i64 = 1_700_000_000;
    let time = |args: Vec<Value>| time_function(&args, winter, 0);
    assert_eq!(time(vec![]), Outcome::Ready(Value::Int64(22)));
    assert_eq!(time(vec![text("US/Eastern")]), Outcome::Ready(Value::Int64(22)));
    assert_eq!(time(vec![text("m")]), Outcome::Ready(Value::Int64(13)));
    assert_eq!(time(vec![text("Seconds")]), Outcome::Ready(Value::Int64(20)));
    assert_eq!(time(vec![text("hour")]), Outcome::Ready(Value::Int64(22)));
    assert_eq!(time(vec![Value::Int64(1)]), Outcome::Ready(Value::Int64(22)));
    for (unit, value) in [
        ("h", 17),
        ("hour", 17),
        ("hours", 17),
        ("H", 17),
        ("Hours", 17),
        ("m", 13),
        ("minute", 13),
        ("minutes", 13),
        ("MINUTE", 13),
        ("s", 20),
        ("second", 20),
        ("seconds", 20),
        ("Seconds", 20),
        ("sec", 17),
        ("", 17),
        ("days", 17),
    ] {
        assert_eq!(
            time(vec![text("US/Eastern"), text(unit)]),
            Outcome::Ready(Value::Int64(value)),
            "the unit {:?}",
            unit
        );
    }
    assert_eq!(time(vec![text("_"), text("m")]), Outcome::Ready(Value::Int64(13)));
    assert_eq!(time(vec![Value::Null, text("s")]), Outcome::Ready(Value::Int64(20)));
    assert_eq!(time(vec![text("US/Eastern"), Value::Int64(1)]), Outcome::Ready(Value::Int64(17)));
    assert_eq!(
        time_function(&vec![], i64::MIN, 4),
        Outcome::Failed(Failure::Eval(EvalError { position: 4, fault: EvalFault::TimeOutOfRange }))
    );
    assert_eq!(unit_for("h"), TimeUnit::Hour);
    assert_eq!(unit_for("mInUtEs"), TimeUnit::Minute);
    assert_eq!(unit_for("S"), TimeUnit::Second);
    assert_eq!(unit_for("week"), TimeUnit::Hour);
}
