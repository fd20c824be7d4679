//! The dialog specification: intents, the dialogs that answer them, and
//! the context and system facts that their conditions are evaluated
//! against.

use vstd::prelude::*;
use vstd::string::StringExecFns;
use crate::bindings::{bound, index_of, Bindings};
use crate::calendar::unix_now;
use crate::config::EvalConfig;
use crate::evaluator::{eval_node, evaluate, Scope, ScopeView};
use crate::failure::Failure;
use crate::float_table::{FloatTable, Outcome, OutcomeView, QueryView, ReplyView};
use crate::parser::{parse, parse_expression};
use crate::text::same_text;
use crate::timeless::{a_timeless_evaluation_is_the_same_at_every_instant, is_timeless};
use crate::value::{Value, ValueView};
use crate::web::{wrap, wrapped, ResultType};

verus! {

/// A condition and the reply that is given where it holds.
#[derive(Debug, Clone, PartialEq, Eq)]
pub struct Case {
    /// The source of the condition, an expression.
    pub condition: String,
    /// The template of the reply.
    pub reply: String,
}

/// The content of a [`Case`].
pub struct CaseView {
    pub condition: Seq<char>,
    pub reply: Seq<char>,
}

impl View for Case {
    type V = CaseView;

    open spec fn view(&self) -> CaseView {
        CaseView { condition: self.condition@, reply: self.reply@ }
    }
}

impl Case {
    /// The case with that condition and that reply.
    pub fn new(condition: String, reply: String) -> (case: Case)
        ensures
            case.condition == condition,
            case.reply == reply,
    {
        Case { condition, reply }
    }

    /// The case that always holds, with a reply to fill in.
    pub fn default() -> (case: Case)
        ensures
            case@ == (CaseView { condition: "true"@, reply: "This is a reply"@ }),
    {
        Case {
            condition: String::from_str("true"),
            reply: String::from_str("This is a reply"),
        }
    }
}

/// The cases of one intent, in the order in which they are tried.
#[derive(Debug, Clone, PartialEq, Eq)]
pub struct Dialog {
    pub intent: String,
    pub cases: Vec<Case>,
}

impl Dialog {
    /// The dialog of that intent with those cases.
    pub fn new(intent: String, cases: Vec<Case>) -> (dialog: Dialog)
        ensures
            dialog.intent == intent,
            dialog.cases == cases,
    {
        Dialog { intent, cases }
    }
}

/// The ways in which dialogs can contradict the declared intents.
#[derive(Clone, Copy, Debug, PartialEq, Eq, Structural)]
pub enum ConstructionFault {
    /// The intent of the dialog is not among the declared intents.
    UndeclaredIntent,
    /// An earlier dialog has the same intent.
    DuplicateDialog,
}

/// Why a specification could not be made: the fault, and the index of the
/// dialog that has it.
#[derive(Clone, Copy, Debug, PartialEq, Eq, Structural)]
pub struct ConstructionError {
    pub dialog: usize,
    pub fault: ConstructionFault,
}

/// The texts of a list of strings.
pub open spec fn texts(list: Seq<String>) -> Seq<Seq<char>> {
    Seq::new(list.len(), |i: int| list[i]@)
}

/// The intents of a list of dialogs.
pub open spec fn intents_of(dialogs: Seq<Dialog>) -> Seq<Seq<char>> {
    Seq::new(dialogs.len(), |i: int| dialogs[i].intent@)
}

/// Whether an earlier dialog has the intent of the dialog at the index.
pub open spec fn repeats(names: Seq<Seq<char>>, at: int) -> bool {
    exists|j: int| 0 <= j < at && #[trigger] names[j] == names[at]
}

/// What is wrong with the dialog at the index, if anything: an intent that
/// is not declared counts before one that an earlier dialog has.
pub open spec fn fault_at(declared: Seq<Seq<char>>, names: Seq<Seq<char>>, at: int) -> Option<
    ConstructionFault,
> {
    if !declared.contains(names[at]) {
        Some(ConstructionFault::UndeclaredIntent)
    } else if repeats(names, at) {
        Some(ConstructionFault::DuplicateDialog)
    } else {
        None
    }
}

/// The first dialog from `from` on with which something is wrong.
pub open spec fn first_fault(declared: Seq<Seq<char>>, names: Seq<Seq<char>>, from: int) -> Option<
    ConstructionError,
>
    decreases names.len() - from,
{
    if from < 0 || from >= names.len() {
        None
    } else {
        match fault_at(declared, names, from) {
            Some(fault) => Some(ConstructionError { dialog: from as usize, fault }),
            None => first_fault(declared, names, from + 1),
        }
    }
}

/// Every dialog answers a declared intent, and no two answer the same.
pub open spec fn consistent(declared: Seq<Seq<char>>, names: Seq<Seq<char>>) -> bool {
    &&& forall|i: int| 0 <= i < names.len() ==> declared.contains(#[trigger] names[i])
    &&& forall|i: int, j: int|
        0 <= i < j < names.len() ==> (#[trigger] names[i]) != (#[trigger] names[j])
}

/// The dialogs are consistent with the declared intents exactly if nothing
/// is wrong with any of them.
pub proof fn consistent_means_no_fault(declared: Seq<Seq<char>>, names: Seq<Seq<char>>)
    ensures
        consistent(declared, names) <==> first_fault(declared, names, 0) is None,
{
    no_fault_from(declared, names, 0);
    if first_fault(declared, names, 0) is None {
        assert forall|i: int| 0 <= i < names.len() implies declared.contains(
            #[trigger] names[i],
        ) by {
            assert(fault_at(declared, names, i) is None);
        }
        assert forall|i: int, j: int| 0 <= i < j < names.len() implies (#[trigger] names[i]) != (
        #[trigger] names[j]) by {
            assert(fault_at(declared, names, j) is None);
            if names[i] == names[j] {
                assert(repeats(names, j));
            }
        }
    }
    if consistent(declared, names) {
        assert forall|at: int| 0 <= at < names.len() implies fault_at(declared, names, at)
            is None by {
            if repeats(names, at) {
                let j = choose|j: int| 0 <= j < at && #[trigger] names[j] == names[at];
                assert(names[j] != names[at]);
            }
        }
    }
}

/// Nothing is wrong from an index on exactly if nothing is wrong at any
/// index from there on.
pub proof fn no_fault_from(declared: Seq<Seq<char>>, names: Seq<Seq<char>>, from: int)
    requires
        0 <= from,
    ensures
        first_fault(declared, names, from) is None <==> forall|at: int|
            from <= at < names.len() ==> fault_at(declared, names, at) is None,
    decreases names.len() - from,
{
    if from < names.len() {
        no_fault_from(declared, names, from + 1);
    }
}

/// A dialog specification.
#[derive(Debug, Clone, PartialEq, Eq)]
pub struct Spec {
    /// The declared intents, in the order in which they are shown.
    pub intents: Vec<String>,
    /// The facts of the user and the session, `ctx` in expressions.
    pub context: Bindings,
    /// The facts of the system, `sys` in expressions.
    pub system: Bindings,
    /// The dialogs, one for an intent at most.
    pub dialogs: Vec<Dialog>,
}

/// The value of an expression for a context, system facts and an instant,
/// with every builtin on offer: the failure of the grammar if the source
/// is no expression, else what its tree evaluates to.
pub open spec fn evaluation(
    source: Seq<char>,
    context: Seq<(Seq<char>, Seq<char>)>,
    system: Seq<(Seq<char>, Seq<char>)>,
    now: i64,
    facts: Map<QueryView, ReplyView>,
) -> OutcomeView<ValueView> {
    match parse_expression(source) {
        Err(e) => OutcomeView::Failed(Failure::Parse(e)),
        Ok(node) => eval_node(
            node,
            ScopeView {
                context,
                system,
                config: EvalConfig {
                    include_maths: true,
                    include_datetime: true,
                    include_cast: true,
                    include_regex: true,
                },
                now,
            },
            facts,
        ),
    }
}

fn default_cases() -> (cases: Vec<Case>)
    ensures
        cases@.len() == 1,
        cases@[0]@ == (CaseView { condition: "true"@, reply: "This is a reply"@ }),
{
    let mut cases: Vec<Case> = Vec::new();
    cases.push(Case::default());
    cases
}

fn is_declared(intents: &Vec<String>, intent: &str) -> (r: bool)
    ensures
        r == texts(intents@).contains(intent@),
{
    let mut i: usize = 0;
    while i < intents.len()
        invariant
            i <= intents.len(),
            forall|j: int| 0 <= j < i ==> (#[trigger] texts(intents@)[j]) != intent@,
        decreases intents.len() - i,
    {
        if same_text(intents[i].as_str(), intent) {
            assert(texts(intents@)[i as int] == intent@);
            return true;
        }
        i += 1;
    }
    false
}

fn is_repeated(dialogs: &Vec<Dialog>, at: usize) -> (r: bool)
    requires
        at < dialogs.len(),
    ensures
        r == repeats(intents_of(dialogs@), at as int),
{
    let ghost names = intents_of(dialogs@);
    let mut j: usize = 0;
    while j < at
        invariant
            j <= at < dialogs.len(),
            names == intents_of(dialogs@),
            forall|k: int| 0 <= k < j ==> (#[trigger] names[k]) != names[at as int],
        decreases at - j,
    {
        if same_text(dialogs[j].intent.as_str(), dialogs[at].intent.as_str()) {
            assert(names[j as int] == names[at as int]);
            return true;
        }
        j += 1;
    }
    false
}

impl Spec {
    /// Every dialog answers a declared intent, and no two answer the same.
    pub open spec fn wf(&self) -> bool {
        consistent(texts(self.intents@), intents_of(self.dialogs@))
    }

    /// The specification with those intents, dialogs and facts. It is
    /// refused with the first dialog whose intent is not declared or is
    /// that of an earlier dialog.
    pub fn new(intents: Vec<String>, dialogs: Vec<Dialog>, context: Bindings, system: Bindings) -> (r:
        Result<Spec, ConstructionError>)
        ensures
            match r {
                Ok(spec) => {
                    &&& first_fault(texts(intents@), intents_of(dialogs@), 0) is None
                    &&& spec.intents == intents
                    &&& spec.dialogs == dialogs
                    &&& spec.context == context
                    &&& spec.system == system
                    &&& spec.wf()
                },
                Err(e) => first_fault(texts(intents@), intents_of(dialogs@), 0) == Some(e),
            },
    {
        let ghost declared = texts(intents@);
        let ghost names = intents_of(dialogs@);
        let mut at: usize = 0;
        while at < dialogs.len()
            invariant
                at <= dialogs.len(),
                declared == texts(intents@),
                names == intents_of(dialogs@),
                first_fault(declared, names, 0) == first_fault(declared, names, at as int),
            decreases dialogs.len() - at,
        {
            assert(names[at as int] == dialogs@[at as int].intent@);
            if !is_declared(&intents, dialogs[at].intent.as_str()) {
                return Err(
                    ConstructionError { dialog: at, fault: ConstructionFault::UndeclaredIntent },
                );
            }
            if is_repeated(&dialogs, at) {
                return Err(
                    ConstructionError { dialog: at, fault: ConstructionFault::DuplicateDialog },
                );
            }
            at += 1;
        }
        proof {
            consistent_means_no_fault(declared, names);
        }
        Ok(Spec { intents, context, system, dialogs })
    }

    /// The specification that examples start from: three intents, each
    /// with a dialog of the one case that always holds; a context of two
    /// facts and a system with its time zone.
    pub fn default() -> (spec: Spec)
        ensures
            texts(spec.intents@) == seq!["billing"@, "commissions"@, "login issue"@],
            intents_of(spec.dialogs@) == texts(spec.intents@),
            forall|i: int|
                0 <= i < 3 ==> (#[trigger] spec.dialogs@[i]).cases@.len() == 1
                    && spec.dialogs@[i].cases@[0]@ == (CaseView {
                    condition: "true"@,
                    reply: "This is a reply"@,
                }),
            spec.context@ == seq![("some_var"@, "42"@), ("something"@, "true"@)],
            spec.system@ == seq![("timezone"@, "US/Eastern"@)],
            spec.wf(),
    {
        let mut intents: Vec<String> = Vec::new();
        intents.push(String::from_str("billing"));
        intents.push(String::from_str("commissions"));
        intents.push(String::from_str("login issue"));
        let mut dialogs: Vec<Dialog> = Vec::new();
        dialogs.push(Dialog::new(String::from_str("billing"), default_cases()));
        dialogs.push(Dialog::new(String::from_str("commissions"), default_cases()));
        dialogs.push(Dialog::new(String::from_str("login issue"), default_cases()));
        let mut context = Bindings::new();
        context.insert(String::from_str("some_var"), String::from_str("42"));
        context.insert(String::from_str("something"), String::from_str("true"));
        let mut system = Bindings::new();
        system.insert(String::from_str("timezone"), String::from_str("US/Eastern"));
        proof {
            reveal_strlit("billing");
            reveal_strlit("commissions");
            reveal_strlit("login issue");
            reveal_strlit("some_var");
            reveal_strlit("something");
            let declared = texts(intents@);
            let names = intents_of(dialogs@);
            assert(declared =~= seq!["billing"@, "commissions"@, "login issue"@]);
            assert(names =~= declared);
            assert("billing"@.len() != "commissions"@.len());
            assert("billing"@.len() != "login issue"@.len());
            assert("commissions"@[0] != "login issue"@[0]);
            assert forall|i: int| 0 <= i < names.len() implies declared.contains(
                #[trigger] names[i],
            ) by {
                assert(declared[i] == names[i]);
            }
            let empty = Seq::<(Seq<char>, Seq<char>)>::empty();
            assert(index_of(empty, "some_var"@) == 0);
            let one = bound(empty, "some_var"@, "42"@);
            assert(one =~= seq![("some_var"@, "42"@)]);
            assert("some_var"@.len() != "something"@.len());
            assert(one.drop_first() =~= empty);
            assert(one[0].0 == "some_var"@);
            assert(index_of(one.drop_first(), "something"@) == 0);
            assert(index_of(one, "something"@) == 1);
            assert(bound(one, "something"@, "true"@) =~= seq![
                ("some_var"@, "42"@),
                ("something"@, "true"@),
            ]);
            assert(index_of(empty, "timezone"@) == 0);
            assert(bound(empty, "timezone"@, "US/Eastern"@) =~= seq![
                ("timezone"@, "US/Eastern"@),
            ]);
        }
        Spec { intents, context, system, dialogs }
    }

    /// The first dialog that answers the intent, if there is one.
    pub fn dialog(&self, intent: &str) -> (r: Option<&Dialog>)
        ensures
            match r {
                Some(dialog) => exists|i: int|
                    {
                        &&& 0 <= i < self.dialogs@.len()
                        &&& #[trigger] self.dialogs@[i] == *dialog
                        &&& dialog.intent@ == intent@
                        &&& forall|j: int|
                            0 <= j < i ==> (#[trigger] intents_of(self.dialogs@)[j]) != intent@
                    },
                None => !intents_of(self.dialogs@).contains(intent@),
            },
    {
        let mut i: usize = 0;
        while i < self.dialogs.len()
            invariant
                i <= self.dialogs.len(),
                forall|j: int| 0 <= j < i ==> (#[trigger] intents_of(self.dialogs@)[j]) != intent@,
            decreases self.dialogs.len() - i,
        {
            assert(intents_of(self.dialogs@)[i as int] == self.dialogs@[i as int].intent@);
            if same_text(self.dialogs[i].intent.as_str(), intent) {
                assert(self.dialogs@[i as int] == self.dialogs[i as int]);
                return Some(&self.dialogs[i]);
            }
            i += 1;
        }
        None
    }

    /// The value of an expression at the instant `now`: see
    /// [`evaluation`].
    pub fn eval_at(&self, expression: &str, now: i64, floats: &FloatTable) -> (r: Outcome<Value>)
        ensures
            r@ == evaluation(expression@, self.context@, self.system@, now, floats@),
    {
        match parse(expression) {
            Err(e) => Outcome::Failed(Failure::Parse(e)),
            Ok(node) => {
                let scope = Scope {
                    context: &self.context,
                    system: &self.system,
                    config: EvalConfig::default(),
                    now,
                };
                evaluate(&node, &scope, floats)
            },
        }
    }

    /// The value of an expression at the instant that the clock shows
    /// when the call is made. Where the expression does not read the
    /// clock, the value is that of every instant.
    pub fn eval(&self, expression: &str, floats: &FloatTable) -> (r: Outcome<Value>)
        ensures
            exists|now: i64|
                r@ == #[trigger] evaluation(
                    expression@,
                    self.context@,
                    self.system@,
                    now,
                    floats@,
                ),
            is_timeless(expression@) ==> forall|now: i64|
                r@ == #[trigger] evaluation(
                    expression@,
                    self.context@,
                    self.system@,
                    now,
                    floats@,
                ),
    {
        let now: i64 = unix_now();
        let r = self.eval_at(expression, now, floats);
        proof {
            if is_timeless(expression@) {
                assert forall|other: i64|
                    r@ == #[trigger] evaluation(
                        expression@,
                        self.context@,
                        self.system@,
                        other,
                        floats@,
                    ) by {
                    a_timeless_evaluation_is_the_same_at_every_instant(
                        expression@,
                        self.context@,
                        self.system@,
                        now,
                        other,
                        floats@,
                    );
                }
            }
        }
        r
    }

    /// The value of an expression as [`Spec::eval`] gives it, wrapped for
    /// a response.
    pub fn format_eval_for_response(&self, expression: &str, floats: &FloatTable) -> (r: Outcome<
        ResultType,
    >)
        ensures
            exists|now: i64|
                r@ == wrapped(
                    #[trigger] evaluation(
                        expression@,
                        self.context@,
                        self.system@,
                        now,
                        floats@,
                    ),
                ),
            is_timeless(expression@) ==> forall|now: i64|
                r@ == wrapped(
                    #[trigger] evaluation(
                        expression@,
                        self.context@,
                        self.system@,
                        now,
                        floats@,
                    ),
                ),
    {
        wrap(self.eval(expression, floats))
    }
}

} // verus!
