//! Which families of builtin functions and constants an evaluation offers.

use vstd::prelude::*;
use crate::calendar::DateField;
use crate::text::same_text;

verus! {

/// The families that can be switched on and off.
#[derive(Debug, Clone, Copy, PartialEq, Eq, Structural)]
pub struct EvalConfig {
    /// The numeric constants.
    pub include_maths: bool,
    /// The date and time functions.
    pub include_datetime: bool,
    /// The casting functions.
    pub include_cast: bool,
    /// The regular expression functions.
    pub include_regex: bool,
}

impl EvalConfig {
    /// Everything switched on.
    pub fn default() -> (config: EvalConfig)
        ensures
            config == (EvalConfig {
                include_maths: true,
                include_datetime: true,
                include_cast: true,
                include_regex: true,
            }),
    {
        EvalConfig {
            include_maths: true,
            include_datetime: true,
            include_cast: true,
            include_regex: true,
        }
    }

    /// Whether anything is switched on.
    pub fn any(&self) -> (r: bool)
        ensures
            r == (self.include_maths || self.include_datetime || self.include_cast
                || self.include_regex),
    {
        self.include_maths || self.include_datetime || self.include_cast || self.include_regex
    }
}

/// The builtin functions.
#[derive(Debug, Clone, Copy, PartialEq, Eq, Structural)]
pub enum Builtin {
    Int,
    Float,
    Bool,
    Str,
    IsMatch,
    Date(DateField),
    Time,
}

/// The casting function of that name.
pub open spec fn cast_named(name: Seq<char>) -> Option<Builtin> {
    if name == "int"@ {
        Some(Builtin::Int)
    } else if name == "float"@ {
        Some(Builtin::Float)
    } else if name == "bool"@ {
        Some(Builtin::Bool)
    } else if name == "str"@ {
        Some(Builtin::Str)
    } else {
        None
    }
}

/// The date or time function of that name. `day`, `month`, `year`,
/// `weekday` and `time` answer to their names with `get_` in front as well.
pub open spec fn datetime_named(name: Seq<char>) -> Option<Builtin> {
    if name == "day"@ || name == "get_day"@ {
        Some(Builtin::Date(DateField::Day))
    } else if name == "month"@ || name == "get_month"@ {
        Some(Builtin::Date(DateField::Month))
    } else if name == "year"@ || name == "get_year"@ {
        Some(Builtin::Date(DateField::Year))
    } else if name == "weekday"@ || name == "get_weekday"@ {
        Some(Builtin::Date(DateField::Weekday))
    } else if name == "is_weekday"@ {
        Some(Builtin::Date(DateField::IsWeekday))
    } else if name == "is_weekend"@ {
        Some(Builtin::Date(DateField::IsWeekend))
    } else if name == "time"@ || name == "get_time"@ {
        Some(Builtin::Time)
    } else {
        None
    }
}

/// The function that a name calls under a configuration: a function of a
/// family that is switched on, or none.
pub open spec fn builtin_named(name: Seq<char>, config: EvalConfig) -> Option<Builtin> {
    if config.include_cast && cast_named(name) is Some {
        cast_named(name)
    } else if config.include_regex && name == "is_match"@ {
        Some(Builtin::IsMatch)
    } else if config.include_datetime && datetime_named(name) is Some {
        datetime_named(name)
    } else {
        None
    }
}

fn find_cast(name: &str) -> (r: Option<Builtin>)
    ensures
        r == cast_named(name@),
{
    if same_text(name, "int") {
        Some(Builtin::Int)
    } else if same_text(name, "float") {
        Some(Builtin::Float)
    } else if same_text(name, "bool") {
        Some(Builtin::Bool)
    } else if same_text(name, "str") {
        Some(Builtin::Str)
    } else {
        None
    }
}

fn find_datetime(name: &str) -> (r: Option<Builtin>)
    ensures
        r == datetime_named(name@),
{
    if same_text(name, "day") || same_text(name, "get_day") {
        Some(Builtin::Date(DateField::Day))
    } else if same_text(name, "month") || same_text(name, "get_month") {
        Some(Builtin::Date(DateField::Month))
    } else if same_text(name, "year") || same_text(name, "get_year") {
        Some(Builtin::Date(DateField::Year))
    } else if same_text(name, "weekday") || same_text(name, "get_weekday") {
        Some(Builtin::Date(DateField::Weekday))
    } else if same_text(name, "is_weekday") {
        Some(Builtin::Date(DateField::IsWeekday))
    } else if same_text(name, "is_weekend") {
        Some(Builtin::Date(DateField::IsWeekend))
    } else if same_text(name, "time") || same_text(name, "get_time") {
        Some(Builtin::Time)
    } else {
        None
    }
}

/// The function that a name calls under a configuration: see
/// [`builtin_named`].
pub fn find_builtin(name: &str, config: &EvalConfig) -> (r: Option<Builtin>)
    ensures
        r == builtin_named(name@, *config),
{
    if config.include_cast {
        let cast = find_cast(name);
        if cast.is_some() {
            return cast;
        }
    }
    if config.include_regex && same_text(name, "is_match") {
        return Some(Builtin::IsMatch);
    }
    if config.include_datetime {
        let datetime = find_datetime(name);
        if datetime.is_some() {
            return datetime;
        }
    }
    None
}

} // verus!
