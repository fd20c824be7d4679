use chrono::{Datelike, Timelike};
use dialog_engine::bindings::Bindings;
use dialog_engine::dialog::Spec;
use dialog_engine::failure::Failure;
use dialog_engine::float_table::{FloatOp, FloatQuery, FloatReply, FloatTable, Outcome};
use dialog_engine::value::Value;

fn answer(query: &FloatQuery) -> FloatReply {
    match query {
        FloatQuery::Parse(text) => match text.parse::<f64>() {
            Ok(x) => FloatReply::Bits(x.to_bits()),
            Err(_) => FloatReply::Invalid,
        },
        FloatQuery::Show(bits) => FloatReply::Text(f64::from_bits(*bits).to_string()),
        FloatQuery::JsonShow(bits) => {
            FloatReply::Text(serde_json::to_string(&f64::from_bits(*bits)).unwrap())
        }
        FloatQuery::Arith(op, a, b) => {
            let x = f64::from_bits(*a);
            let y = f64::from_bits(*b);
            let z = match op {
                FloatOp::Add => x + y,
                FloatOp::Sub => x - y,
                FloatOp::Mul => x * y,
                FloatOp::Div => x / y,
                FloatOp::Rem => x % y,
            };
            FloatReply::Bits(z.to_bits())
        }
        FloatQuery::FromInt(n) => FloatReply::Bits((*n as f64).to_bits()),
    }
}

fn eval(spec: &Spec, expression: &str) -> Result<Value, Failure> {
    let mut floats = FloatTable::new();
    loop {
        match spec.eval(expression, &floats) {
            Outcome::Ready(value) => return Ok(value),
            Outcome::Failed(failure) => return Err(failure),
            Outcome::Needs(query) => {
                let reply = answer(&query);
                assert!(floats.record(query, reply));
            }
        }
    }
}

fn double(x: f64) -> Value {
    Value::Float64(x.to_bits())
}

fn text(s: &str) -> Value {
    Value::String(s.to_owned())
}

fn ints(items: Vec<i64>) -> Value {
    Value::Array(items.into_iter().map(Value::Int64).collect())
}

fn is_nan(value: &Value) -> bool {
    match value {
        Value::Float64(bits) => f64::from_bits(*bits).is_nan(),
        _ => false,
    }
}

#[test]
fn global_variables() {
    let user_spec = Spec::default();
    assert_eq!(eval(&user_spec, "maths.MIN_INT").unwrap(), Value::Int64(i64::MIN));
    assert_eq!(eval(&user_spec, "maths.MAX_INT").unwrap(), Value::Int64(i64::MAX));
    assert_eq!(eval(&user_spec, "maths.MAX_FLOAT").unwrap(), double(f64::MAX));
    assert_eq!(eval(&user_spec, "maths.MIN_FLOAT").unwrap(), double(f64::MIN));
    assert!(is_nan(&eval(&user_spec, "NAN").unwrap()));
    assert_eq!(eval(&user_spec, "INFINITY").unwrap(), double(f64::INFINITY));
    assert_eq!(eval(&user_spec, "NEG_INFINITY").unwrap(), double(f64::NEG_INFINITY));
}

#[test]
fn literal() {
    let user_spec = Spec::default();

    assert_eq!(eval(&user_spec, "42").unwrap(), Value::Int64(42));
    assert_eq!(eval(&user_spec, "0-42").unwrap(), Value::Int64(-42));
    assert_eq!(eval(&user_spec, "true").unwrap(), Value::Bool(true));
    assert_eq!(eval(&user_spec, "false").unwrap(), Value::Bool(false));
    assert_eq!(eval(&user_spec, "\"42\"").unwrap(), text("42"));
    assert_eq!(eval(&user_spec, "'42'").unwrap(), text("42"));
    assert_eq!(eval(&user_spec, "array(42, 42)").unwrap(), ints(vec![42; 2]));
    assert_eq!(eval(&user_spec, "array()").unwrap(), ints(vec![0; 0]));
    assert_eq!(eval(&user_spec, "0..5").unwrap(), ints(vec![0, 1, 2, 3, 4]));
}

#[test]
fn str() {
    let user_spec = Spec::default();
    let expected_ctx_str = "{\"some_var\":\"42\",\"something\":\"true\"}";
    assert_eq!(eval(&user_spec, "str(ctx)").unwrap(), text(expected_ctx_str));
    assert_eq!(eval(&user_spec, "str(42)").unwrap(), text("42"));
    assert_eq!(eval(&user_spec, "str(42.42)").unwrap(), text("42.42"));
    assert_eq!(eval(&user_spec, "str(true)").unwrap(), text("true"));
    assert_eq!(eval(&user_spec, "str(array(42, 42))").unwrap(), text("[42,42]"));
    assert_eq!(eval(&user_spec, "str(array())").unwrap(), text("[]"));
    assert_eq!(eval(&user_spec, "str(null)").unwrap(), text("null"));
}

#[test]
fn bool() {
    let mut user_spec = Spec::default();

    assert_eq!(eval(&user_spec, "bool(ctx)").unwrap(), Value::Bool(true));
    user_spec.context = Bindings::new();
    assert_eq!(eval(&user_spec, "bool(ctx)").unwrap(), Value::Bool(false));

    assert_eq!(eval(&user_spec, "bool(1)").unwrap(), Value::Bool(true));
    assert_eq!(eval(&user_spec, "bool(1.0)").unwrap(), Value::Bool(true));
    assert_eq!(eval(&user_spec, "bool(0)").unwrap(), Value::Bool(false));
    assert_eq!(eval(&user_spec, "bool(0.0)").unwrap(), Value::Bool(false));
    assert_eq!(eval(&user_spec, "bool(true)").unwrap(), Value::Bool(true));
    assert_eq!(eval(&user_spec, "bool(false)").unwrap(), Value::Bool(false));

    assert_eq!(eval(&user_spec, "bool(42)").unwrap(), Value::Bool(true));
    assert_eq!(eval(&user_spec, "bool(42.42)").unwrap(), Value::Bool(true));
    assert_eq!(eval(&user_spec, "bool(0-42)").unwrap(), Value::Bool(true));
    assert_eq!(eval(&user_spec, "bool(0-42.42)").unwrap(), Value::Bool(true));

    assert_eq!(eval(&user_spec, "bool('')").unwrap(), Value::Bool(false));
    assert_eq!(eval(&user_spec, "bool(\"\")").unwrap(), Value::Bool(false));
    assert_eq!(eval(&user_spec, "bool('42')").unwrap(), Value::Bool(true));
    assert_eq!(eval(&user_spec, "bool(\"42\")").unwrap(), Value::Bool(true));

    assert_eq!(eval(&user_spec, "bool(array(42, 42))").unwrap(), Value::Bool(true));
    assert_eq!(eval(&user_spec, "bool(array())").unwrap(), Value::Bool(false));
    assert_eq!(eval(&user_spec, "bool(0..42)").unwrap(), Value::Bool(true));
    assert_eq!(eval(&user_spec, "bool(0..0)").unwrap(), Value::Bool(false));
    assert_eq!(eval(&user_spec, "bool(null)").unwrap(), Value::Bool(false));
}

#[test]
fn float() {
    let user_spec = Spec::default();
    assert_eq!(eval(&user_spec, "float(42)").unwrap(), double(42.0));
    assert_eq!(eval(&user_spec, "float(42.42)").unwrap(), double(42.42));
    assert_eq!(eval(&user_spec, "float('42.42')").unwrap(), double(42.42));
    assert_eq!(eval(&user_spec, "float('42')").unwrap(), double(42.0));
    assert_eq!(eval(&user_spec, "float(true)").unwrap(), double(1.0));
    assert_eq!(eval(&user_spec, "float(false)").unwrap(), double(0.0));
    assert!(is_nan(&eval(&user_spec, "float('')").unwrap()));
    assert!(is_nan(&eval(&user_spec, "float('not a num')").unwrap()));
    assert!(is_nan(&eval(&user_spec, "float(ctx)").unwrap()));
    assert!(is_nan(&eval(&user_spec, "float(array(42, 42))").unwrap()));
    assert!(is_nan(&eval(&user_spec, "float(0..42)").unwrap()));
    assert!(is_nan(&eval(&user_spec, "float(null)").unwrap()));
}

#[test]
fn int_values() {
    let user_spec = Spec::default();
    assert_eq!(eval(&user_spec, "int(42)").unwrap(), Value::Int64(42));
    assert_eq!(eval(&user_spec, "int(42.42)").unwrap(), Value::Int64(42));
    assert_eq!(eval(&user_spec, "int('42.42')").unwrap(), Value::Int64(42));
    assert_eq!(eval(&user_spec, "int('42')").unwrap(), Value::Int64(42));
    assert_eq!(eval(&user_spec, "int(true)").unwrap(), Value::Int64(1));
    assert_eq!(eval(&user_spec, "int(false)").unwrap(), Value::Int64(0));
    assert_eq!(eval(&user_spec, "int('')").unwrap(), Value::Int64(0));
    assert_eq!(eval(&user_spec, "int('not a num')").unwrap(), Value::Int64(0));
    assert_eq!(eval(&user_spec, "int(ctx)").unwrap(), Value::Int64(0));
    assert_eq!(eval(&user_spec, "int(array(42, 42))").unwrap(), Value::Int64(0));
    assert_eq!(eval(&user_spec, "int(0..42)").unwrap(), Value::Int64(0));
    assert_eq!(eval(&user_spec, "int(null)").unwrap(), Value::Int64(0));
}

fn either(actual: Value, before: i64, after: i64) {
    assert!(
        actual == Value::Int64(before) || actual == Value::Int64(after),
        "{:?} is neither {} nor {}",
        actual,
        before,
        after
    );
}

#[test]
fn day() {
    let user_spec = Spec::default();
    let before = chrono::Utc::now().day() as i64;
    let plain = eval(&user_spec, "get_day()").unwrap();
    let named = eval(&user_spec, "get_day('_')").unwrap();
    let after = chrono::Utc::now().day() as i64;
    either(plain, before, after);
    either(named, before, after);
}

#[test]
fn month() {
    let user_spec = Spec::default();
    let before = chrono::Utc::now().month() as i64;
    let plain = eval(&user_spec, "get_month()").unwrap();
    let named = eval(&user_spec, "get_month('_')").unwrap();
    let after = chrono::Utc::now().month() as i64;
    either(plain, before, after);
    either(named, before, after);
}

#[test]
fn year() {
    let user_spec = Spec::default();
    let before = chrono::Utc::now().year() as i64;
    let plain = eval(&user_spec, "get_year()").unwrap();
    let named = eval(&user_spec, "get_year('_')").unwrap();
    let after = chrono::Utc::now().year() as i64;
    either(plain, before, after);
    either(named, before, after);
}

#[test]
fn weekday() {
    let user_spec = Spec::default();
    let before = chrono::Utc::now().weekday().number_from_monday() as i64;
    let named = eval(&user_spec, "get_weekday('_')").unwrap();
    let named_is = eval(&user_spec, "is_weekday('_')").unwrap();
    let plain = eval(&user_spec, "get_weekday()").unwrap();
    let plain_is = eval(&user_spec, "is_weekday()").unwrap();
    let after = chrono::Utc::now().weekday().number_from_monday() as i64;
    either(named, before, after);
    either(plain, before, after);
    assert!(named_is == Value::Bool(before < 6) || named_is == Value::Bool(after < 6));
    assert!(plain_is == Value::Bool(before < 6) || plain_is == Value::Bool(after < 6));
}

fn unit(user_spec: &Spec, expression: &str, read: fn(&chrono::DateTime<chrono::Utc>) -> u32) {
    let before = read(&chrono::Utc::now()) as i64;
    let actual = eval(user_spec, expression).unwrap();
    let after = read(&chrono::Utc::now()) as i64;
    either(actual, before, after);
}

#[test]
fn time() {
    let user_spec = Spec::default();
    unit(&user_spec, "get_time('_', 'h')", |now| now.time().hour());
    unit(&user_spec, "get_time('_', 'm')", |now| now.time().minute());
    unit(&user_spec, "get_time('_', 's')", |now| now.time().second());

    unit(&user_spec, "get_time('_', 'hour')", |now| now.time().hour());
    unit(&user_spec, "get_time('_', 'minute')", |now| now.time().minute());
    unit(&user_spec, "get_time('_', 'second')", |now| now.time().second());

    unit(&user_spec, "get_time('_', 'hours')", |now| now.time().hour());
    unit(&user_spec, "get_time('_', 'minutes')", |now| now.time().minute());
    unit(&user_spec, "get_time('_', 'seconds')", |now| now.time().second());
}
