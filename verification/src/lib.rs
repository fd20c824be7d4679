//! A rule engine for dialog routing.
//!
//! A dialog specification ([`dialog::Spec`]) names intents and gives each a
//! dialog: an ordered list of cases, each a condition and a reply. The
//! conditions are expressions of a small language ([`parser`]) over typed
//! values ([`value::Value`]). They are evaluated ([`evaluator`]) against
//! the facts of a context and of the system ([`bindings::Bindings`]), with
//! builtin functions for casts ([`casts`]), regular expressions
//! ([`pattern`]) and dates and times ([`calendar`]), and with numeric
//! constants ([`consts`]).
//!
//! Doubles are held by their bit patterns ([`float_bits`]). What this crate
//! can decide on the bits, it decides: sign, order, equality, the
//! conversions to integers. Arithmetic on doubles and their decimal text
//! it asks of its caller, through a table of answers
//! ([`float_table::FloatTable`]); how evaluations and the table go together
//! is shown in [`progress`].
//!
//! Every function states what it returns over the mathematical content of
//! its arguments; [`laws`] holds what follows for whole evaluations.

pub mod ast;
pub mod bindings;
pub mod calendar;
pub mod casts;
pub mod config;
pub mod consts;
pub mod decimal;
pub mod dialog;
pub mod evaluator;
pub mod failure;
pub mod float_bits;
pub mod float_table;
pub mod json;
pub mod laws;
pub mod lenient;
pub mod parser;
pub mod pattern;
pub mod progress;
pub mod scan;
pub mod text;
pub mod timeless;
pub mod unicode;
pub mod value;
pub mod web;
pub mod zones;

pub use bindings::Bindings;
pub use config::EvalConfig;
pub use consts::{math_consts, TypeOfString};
pub use dialog::{Case, Dialog, Spec};
pub use failure::Failure;
pub use float_table::{FloatQuery, FloatReply, FloatTable, Outcome};
pub use value::Value;
pub use web::{ConditionRequest, ConditionResponse, ResultType};
