//! The values that pass between the engine and a transport: a request to
//! evaluate a condition, and the response to it.

use vstd::prelude::*;
use vstd::string::StringExecFns;
use crate::decimal::{nat_digits, nat_text};
use crate::dialog::{evaluation, Spec};
use crate::failure::{EvalFault, Failure, ParseFault};
use crate::float_table::{FloatTable, Outcome, OutcomeView};
use crate::text::text_of;
use crate::value::{Value, ValueView};

verus! {

/// A value as it stands in a response.
#[derive(Debug, Clone, PartialEq)]
pub struct ResultType {
    pub value: Value,
}

impl View for ResultType {
    type V = ValueView;

    open spec fn view(&self) -> ValueView {
        self.value@
    }
}

/// The outcome of an evaluation with its value wrapped: the same outcome.
pub open spec fn wrapped(outcome: OutcomeView<ValueView>) -> OutcomeView<ValueView> {
    outcome
}

/// Wraps the value of an evaluation for a response.
pub fn wrap(outcome: Outcome<Value>) -> (r: Outcome<ResultType>)
    ensures
        r@ == wrapped(outcome@),
{
    match outcome {
        Outcome::Ready(value) => Outcome::Ready(ResultType { value }),
        Outcome::Failed(failure) => Outcome::Failed(failure),
        Outcome::Needs(query) => Outcome::Needs(query),
    }
}

/// A request: the condition to evaluate, and the specification to
/// evaluate it against.
#[derive(Debug, Clone, PartialEq)]
pub struct ConditionRequest {
    pub spec: Spec,
    pub condition: String,
}

/// A response: the value of the condition, or why there is none.
#[derive(Debug, Clone, PartialEq)]
pub struct ConditionResponse {
    pub message: String,
    pub result: Option<ResultType>,
    pub error: bool,
}

/// The content of a [`ConditionResponse`].
pub struct ResponseView {
    pub message: Seq<char>,
    pub result: Option<ValueView>,
    pub error: bool,
}

impl View for ConditionResponse {
    type V = ResponseView;

    open spec fn view(&self) -> ResponseView {
        ResponseView {
            message: self.message@,
            result: match self.result {
                Some(result) => Some(result@),
                None => None,
            },
            error: self.error,
        }
    }
}

/// The name of a fault of the grammar.
pub open spec fn parse_fault_text(fault: ParseFault) -> Seq<char> {
    match fault {
        ParseFault::UnexpectedCharacter => "unexpected character"@,
        ParseFault::UnterminatedString => "unterminated string"@,
        ParseFault::NumberOutOfRange => "number out of range"@,
        ParseFault::UnexpectedToken => "unexpected token"@,
        ParseFault::UnexpectedEnd => "unexpected end of input"@,
        ParseFault::UnbalancedParenthesis => "unbalanced parenthesis"@,
        ParseFault::TrailingInput => "trailing input"@,
    }
}

/// The name of a fault of the evaluation.
pub open spec fn eval_fault_text(fault: EvalFault) -> Seq<char> {
    match fault {
        EvalFault::UnresolvedReference => "unresolved reference"@,
        EvalFault::UnknownFunction => "unknown function"@,
        EvalFault::TypeMismatch => "type mismatch"@,
        EvalFault::InvalidPattern => "invalid pattern"@,
        EvalFault::TimeOutOfRange => "time out of range"@,
    }
}

/// The name of the fault of a failure.
pub open spec fn fault_text(failure: Failure) -> Seq<char> {
    match failure {
        Failure::Parse(e) => parse_fault_text(e.fault),
        Failure::Eval(e) => eval_fault_text(e.fault),
    }
}

/// The position of a failure.
pub open spec fn position_of(failure: Failure) -> usize {
    match failure {
        Failure::Parse(e) => e.position,
        Failure::Eval(e) => e.position,
    }
}

/// The message for an expression that gave no value: the expression
/// between quotes, the name of the fault and its position.
pub open spec fn message_of(expression: Seq<char>, failure: Failure) -> Seq<char> {
    "Failed to parse expression: \""@ + expression + "\"; "@ + fault_text(failure) + " at "@
        + nat_text(position_of(failure) as nat)
}

/// The response to a request whose evaluation ended with the outcome: the
/// value and no error where there is a value, the message of the failure
/// and the error flag where there is none.
pub open spec fn response_of(expression: Seq<char>, outcome: OutcomeView<ValueView>) -> OutcomeView<
    ResponseView,
> {
    match outcome {
        OutcomeView::Ready(value) => OutcomeView::Ready(
            ResponseView { message: "Evaluated expression"@, result: Some(value), error: false },
        ),
        OutcomeView::Failed(failure) => OutcomeView::Ready(
            ResponseView { message: message_of(expression, failure), result: None, error: true },
        ),
        OutcomeView::Needs(query) => OutcomeView::Needs(query),
    }
}

fn parse_fault_name(fault: ParseFault) -> (r: &'static str)
    ensures
        r@ == parse_fault_text(fault),
{
    match fault {
        ParseFault::UnexpectedCharacter => "unexpected character",
        ParseFault::UnterminatedString => "unterminated string",
        ParseFault::NumberOutOfRange => "number out of range",
        ParseFault::UnexpectedToken => "unexpected token",
        ParseFault::UnexpectedEnd => "unexpected end of input",
        ParseFault::UnbalancedParenthesis => "unbalanced parenthesis",
        ParseFault::TrailingInput => "trailing input",
    }
}

fn eval_fault_name(fault: EvalFault) -> (r: &'static str)
    ensures
        r@ == eval_fault_text(fault),
{
    match fault {
        EvalFault::UnresolvedReference => "unresolved reference",
        EvalFault::UnknownFunction => "unknown function",
        EvalFault::TypeMismatch => "type mismatch",
        EvalFault::InvalidPattern => "invalid pattern",
        EvalFault::TimeOutOfRange => "time out of range",
    }
}

/// The message for an expression that gave no value: see [`message_of`].
pub fn failure_message(expression: &str, failure: &Failure) -> (r: String)
    ensures
        r@ == message_of(expression@, *failure),
{
    let (name, position): (&'static str, usize) = match failure {
        Failure::Parse(e) => (parse_fault_name(e.fault), e.position),
        Failure::Eval(e) => (eval_fault_name(e.fault), e.position),
    };
    let digits = nat_digits(position as u64);
    let number = text_of(&digits);
    let mut out = String::from_str("Failed to parse expression: \"");
    out.append(expression);
    out.append("\"; ");
    out.append(name);
    out.append(" at ");
    out.append(number.as_str());
    out
}

/// The response to a finished evaluation: see [`response_of`].
pub fn respond(expression: &str, outcome: Outcome<Value>) -> (r: Outcome<ConditionResponse>)
    ensures
        r@ == response_of(expression@, outcome@),
{
    match outcome {
        Outcome::Ready(value) => Outcome::Ready(
            ConditionResponse {
                message: String::from_str("Evaluated expression"),
                result: Some(ResultType { value }),
                error: false,
            },
        ),
        Outcome::Failed(failure) => Outcome::Ready(
            ConditionResponse {
                message: failure_message(expression, &failure),
                result: None,
                error: true,
            },
        ),
        Outcome::Needs(query) => Outcome::Needs(query),
    }
}

/// Evaluates the condition of a request against its specification, at the
/// instant that the clock shows, and answers with the value or with the
/// reason why there is none. Where the condition does not read the clock,
/// the answer is that of every instant.
pub fn test_condition(request: &ConditionRequest, floats: &FloatTable) -> (r: Outcome<
    ConditionResponse,
>)
    ensures
        exists|now: i64|
            r@ == response_of(
                request.condition@,
                #[trigger] evaluation(
                    request.condition@,
                    request.spec.context@,
                    request.spec.system@,
                    now,
                    floats@,
                ),
            ),
        crate::timeless::is_timeless(request.condition@) ==> forall|now: i64|
            r@ == response_of(
                request.condition@,
                #[trigger] evaluation(
                    request.condition@,
                    request.spec.context@,
                    request.spec.system@,
                    now,
                    floats@,
                ),
            ),
{
    let outcome = request.spec.eval(request.condition.as_str(), floats);
    respond(request.condition.as_str(), outcome)
}

} // verus!
