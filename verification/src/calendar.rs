//! The date and time functions: `day`, `month`, `year`, `weekday`,
//! `is_weekday`, `is_weekend` and `time`.
//!
//! Each of them is stated for an instant that it is given, in seconds since
//! the start of 1970 in UTC. [`unix_now`] reads that instant off the clock.

use vstd::prelude::*;
use chrono::{Datelike, Timelike};
use crate::failure::{EvalError, EvalFault, Failure};
use crate::float_table::{Outcome, OutcomeView};
use crate::text::chars_of;
use crate::value::{values_view, Value, ValueView};
use crate::zones::{database_name, str_to_tz, zone_name, zone_of, Zone};

verus! {

/// The calendar date and the time of day of an instant in some zone.
#[derive(Clone, Copy, Debug, PartialEq, Eq, Structural)]
pub struct Civil {
    pub year: i64,
    /// 1 to 12.
    pub month: u32,
    /// 1 to 31.
    pub day: u32,
    /// 1 for Monday to 7 for Sunday.
    pub weekday: u32,
    /// 0 to 23.
    pub hour: u32,
    /// 0 to 59.
    pub minute: u32,
    /// 0 to 59.
    pub second: u32,
}

/// The date and time that the time zone database gives for an instant in
/// the zone of that name, if it knows the name and the calendar reaches
/// that far.
pub uninterp spec fn civil_at(zone: Seq<char>, seconds: int) -> Option<Civil>;

/// The ranges of the fields of a date and time.
pub open spec fn civil_in_range(c: Civil) -> bool {
    &&& 1 <= c.month <= 12
    &&& 1 <= c.day <= 31
    &&& 1 <= c.weekday <= 7
    &&& c.hour <= 23
    &&& c.minute <= 59
    &&& c.second <= 59
}

/// `chrono::DateTime::from_timestamp`, moved into the zone that
/// `chrono_tz::Tz::from_str` gives for the name by
/// `DateTime::with_timezone`, and read off with the methods of
/// `chrono::Datelike` and `chrono::Timelike`. `None` stands for a name
/// that the database lacks or an instant beyond chrono's calendar. The
/// fields lie in the ranges that chrono documents.
#[verifier::external_body]
fn zone_civil(zone: &str, seconds: i64) -> (r: Option<Civil>)
    ensures
        r == civil_at(zone@, seconds as int),
        r is Some ==> civil_in_range(r->Some_0),
{
    let tz: chrono_tz::Tz = zone.parse().ok()?;
    let at = chrono::DateTime::from_timestamp(seconds, 0)?.with_timezone(&tz);
    Some(
        Civil {
            year: at.year() as i64,
            month: at.month(),
            day: at.day(),
            weekday: at.weekday().number_from_monday(),
            hour: at.hour(),
            minute: at.minute(),
            second: at.second(),
        },
    )
}

/// `chrono::Utc::now` and `DateTime::timestamp`: the instant that the
/// system clock shows, in seconds since the start of 1970 in UTC.
#[verifier::external_body]
pub(crate) fn unix_now() -> (seconds: i64) {
    chrono::Utc::now().timestamp()
}

/// The name of the zone that a call asks for. A call with no arguments, or
/// with fewer than its zone and what follows it take, asks for none, and so
/// does one whose first argument is no string: the name is then `_`.
pub open spec fn zone_argument(args: Seq<ValueView>, min_args: nat) -> Seq<char> {
    if args.len() == 0 || args.len() < min_args {
        "_"@
    } else {
        match args[0] {
            ValueView::String(name) => name,
            _ => "_"@,
        }
    }
}

/// The date and time of the instant in a zone of this crate.
pub open spec fn civil_in(zone: Zone, now: i64) -> Option<Civil> {
    civil_at(database_name(zone), now as int)
}

/// The fields of a date that a function can ask for.
#[derive(Clone, Copy, Debug, PartialEq, Eq, Structural)]
pub enum DateField {
    Day,
    Month,
    Year,
    Weekday,
    IsWeekday,
    IsWeekend,
}

/// The field of a date, as a value: Monday to Friday are weekdays,
/// Saturday and Sunday the weekend.
pub open spec fn field_of(c: Civil, field: DateField) -> ValueView {
    match field {
        DateField::Day => ValueView::Int64(c.day as int),
        DateField::Month => ValueView::Int64(c.month as int),
        DateField::Year => ValueView::Int64(c.year as int),
        DateField::Weekday => ValueView::Int64(c.weekday as int),
        DateField::IsWeekday => ValueView::Bool(c.weekday < 6),
        DateField::IsWeekend => ValueView::Bool(c.weekday >= 6),
    }
}

/// The failure of a date or time function whose instant has no date.
pub open spec fn out_of_range(position: usize) -> Failure {
    Failure::Eval(EvalError { position, fault: EvalFault::TimeOutOfRange })
}

/// `day()`, `month()`, `year()`, `weekday()`, `is_weekday()` and
/// `is_weekend()`, each with an optional zone name in front: the field of
/// the instant `now` in that zone.
pub open spec fn date_field_of(
    field: DateField,
    args: Seq<ValueView>,
    now: i64,
    position: usize,
) -> OutcomeView<ValueView> {
    match civil_in(zone_of(zone_argument(args, 1)), now) {
        Some(c) => OutcomeView::Ready(field_of(c, field)),
        None => OutcomeView::Failed(out_of_range(position)),
    }
}

/// The units of the time of day.
#[derive(Clone, Copy, Debug, PartialEq, Eq, Structural)]
pub enum TimeUnit {
    Hour,
    Minute,
    Second,
}

/// The lower-case form of an ASCII capital, and every other character as
/// it is.
pub open spec fn lower_char(c: char) -> char {
    if 'A' <= c <= 'Z' {
        ((c as u8) + 32) as char
    } else {
        c
    }
}

/// The text with its ASCII capitals in lower case.
pub open spec fn lower_text(s: Seq<char>) -> Seq<char> {
    Seq::new(s.len(), |i: int| lower_char(s[i]))
}

/// The unit that a word names, whatever its case: `h`, `hour`, `hours`;
/// `m`, `minute`, `minutes`; `s`, `second`, `seconds`. Any other word
/// names the hour.
pub open spec fn unit_named(word: Seq<char>) -> TimeUnit {
    let w = lower_text(word);
    if w == "m"@ || w == "minute"@ || w == "minutes"@ {
        TimeUnit::Minute
    } else if w == "s"@ || w == "second"@ || w == "seconds"@ {
        TimeUnit::Second
    } else {
        TimeUnit::Hour
    }
}

/// The unit that an argument asks for: the one its word names if it is a
/// string, else the hour.
pub open spec fn unit_of(v: ValueView) -> TimeUnit {
    match v {
        ValueView::String(word) => unit_named(word),
        _ => TimeUnit::Hour,
    }
}

/// One unit of the time of day.
pub open spec fn unit_value(c: Civil, unit: TimeUnit) -> ValueView {
    match unit {
        TimeUnit::Hour => ValueView::Int64(c.hour as int),
        TimeUnit::Minute => ValueView::Int64(c.minute as int),
        TimeUnit::Second => ValueView::Int64(c.second as int),
    }
}

/// The unit that a call of `time` asks for: the hour if there are no
/// arguments, the unit of the one argument, and with a zone in front that
/// of the second.
pub open spec fn unit_argument(args: Seq<ValueView>) -> TimeUnit {
    if args.len() == 0 {
        TimeUnit::Hour
    } else if args.len() == 1 {
        unit_of(args[0])
    } else {
        unit_of(args[1])
    }
}

/// `time(unit)` and `time(zone, unit)`: the hour, minute or second of the
/// instant `now`, in UTC or in the zone.
pub open spec fn time_of(args: Seq<ValueView>, now: i64, position: usize) -> OutcomeView<
    ValueView,
> {
    let unit = unit_argument(args);
    match civil_in(zone_of(zone_argument(args, 2)), now) {
        Some(c) => OutcomeView::Ready(unit_value(c, unit)),
        None => OutcomeView::Failed(out_of_range(position)),
    }
}

/// The zone that a call asks for: see [`zone_argument`].
pub fn eval_tz_parse_args(arguments: &Vec<Value>, min_args: usize) -> (zone: Zone)
    ensures
        zone == zone_of(zone_argument(values_view(arguments@), min_args as nat)),
{
    if arguments.len() == 0 || arguments.len() < min_args {
        return str_to_tz("_");
    }
    assert(values_view(arguments@)[0] == arguments@[0]@);
    match &arguments[0] {
        Value::String(name) => str_to_tz(name.as_str()),
        _ => str_to_tz("_"),
    }
}

/// The date and time of an instant in a zone.
pub fn civil_of(zone: Zone, now: i64) -> (r: Option<Civil>)
    ensures
        r == civil_in(zone, now),
        r is Some ==> civil_in_range(r->Some_0),
{
    zone_civil(zone_name(zone), now)
}

/// The date and time in a zone at the moment of the call: those of the
/// instant that the clock shows, whichever that is.
pub fn _now(zone: Zone) -> (r: Option<Civil>)
    ensures
        exists|now: i64| r == #[trigger] civil_in(zone, now),
        r is Some ==> civil_in_range(r->Some_0),
{
    let now: i64 = unix_now();
    civil_of(zone, now)
}

/// A field of a date, as a value: see [`field_of`].
pub fn date_field(c: &Civil, field: DateField) -> (r: Value)
    ensures
        r@ == field_of(*c, field),
{
    match field {
        DateField::Day => Value::Int64(c.day as i64),
        DateField::Month => Value::Int64(c.month as i64),
        DateField::Year => Value::Int64(c.year),
        DateField::Weekday => Value::Int64(c.weekday as i64),
        DateField::IsWeekday => Value::Bool(c.weekday < 6),
        DateField::IsWeekend => Value::Bool(c.weekday >= 6),
    }
}

/// The date functions: see [`date_field_of`].
pub fn date_function(field: DateField, args: &Vec<Value>, now: i64, position: usize) -> (r:
    Outcome<Value>)
    ensures
        r@ == date_field_of(field, values_view(args@), now, position),
{
    let zone = eval_tz_parse_args(args, 1);
    match civil_of(zone, now) {
        Some(c) => Outcome::Ready(date_field(&c, field)),
        None => Outcome::Failed(
            Failure::Eval(EvalError { position, fault: EvalFault::TimeOutOfRange }),
        ),
    }
}

/// Whether the word is `lower`, whatever the case of its letters; `lower`
/// itself holds no capitals.
fn is_word(word: &Vec<char>, lower: &str) -> (r: bool)
    requires
        lower_text(lower@) == lower@,
    ensures
        r == (lower_text(word@) == lower@),
{
    let expected = chars_of(lower);
    if word.len() != expected.len() {
        return false;
    }
    let mut i: usize = 0;
    while i < word.len()
        invariant
            i <= word.len(),
            word.len() == expected.len(),
            expected@ == lower@,
            forall|j: int| 0 <= j < i ==> lower_char(#[trigger] word@[j]) == expected@[j],
        decreases word.len() - i,
    {
        let c: char = word[i];
        let low: char = if 'A' <= c && c <= 'Z' {
            ((c as u8) + 32) as char
        } else {
            c
        };
        if low != expected[i] {
            assert(lower_text(word@)[i as int] != expected@[i as int]);
            return false;
        }
        i += 1;
    }
    assert(lower_text(word@) =~= expected@);
    true
}

/// The literal holds no ASCII capitals.
proof fn literal_is_lower(lower: &str, len: nat)
    requires
        lower@.len() == len,
        forall|i: int| 0 <= i < len ==> !('A' <= #[trigger] lower@[i] <= 'Z'),
    ensures
        lower_text(lower@) == lower@,
{
    assert(lower_text(lower@) =~= lower@);
}

/// The unit that a word names: see [`unit_named`].
pub fn unit_for(word: &str) -> (unit: TimeUnit)
    ensures
        unit == unit_named(word@),
{
    let w = chars_of(word);
    proof {
        reveal_strlit("m");
        reveal_strlit("minute");
        reveal_strlit("minutes");
        reveal_strlit("s");
        reveal_strlit("second");
        reveal_strlit("seconds");
        literal_is_lower("m", 1);
        literal_is_lower("minute", 6);
        literal_is_lower("minutes", 7);
        literal_is_lower("s", 1);
        literal_is_lower("second", 6);
        literal_is_lower("seconds", 7);
    }
    if is_word(&w, "m") || is_word(&w, "minute") || is_word(&w, "minutes") {
        TimeUnit::Minute
    } else if is_word(&w, "s") || is_word(&w, "second") || is_word(&w, "seconds") {
        TimeUnit::Second
    } else {
        TimeUnit::Hour
    }
}

/// The unit that an argument asks for: see [`unit_of`].
pub fn unit_from(v: &Value) -> (unit: TimeUnit)
    ensures
        unit == unit_of(v@),
{
    match v {
        Value::String(word) => unit_for(word.as_str()),
        _ => TimeUnit::Hour,
    }
}

/// `time(unit)` and `time(zone, unit)`: see [`time_of`].
pub fn time_function(args: &Vec<Value>, now: i64, position: usize) -> (r: Outcome<Value>)
    ensures
        r@ == time_of(values_view(args@), now, position),
{
    let unit: TimeUnit = if args.len() == 0 {
        TimeUnit::Hour
    } else if args.len() == 1 {
        assert(values_view(args@)[0] == args@[0]@);
        unit_from(&args[0])
    } else {
        assert(values_view(args@)[1] == args@[1]@);
        unit_from(&args[1])
    };
    let zone = eval_tz_parse_args(args, 2);
    match civil_of(zone, now) {
        Some(c) => Outcome::Ready(
            match unit {
                TimeUnit::Hour => Value::Int64(c.hour as i64),
                TimeUnit::Minute => Value::Int64(c.minute as i64),
                TimeUnit::Second => Value::Int64(c.second as i64),
            },
        ),
        None => Outcome::Failed(
            Failure::Eval(EvalError { position, fault: EvalFault::TimeOutOfRange }),
        ),
    }
}

} // verus!
