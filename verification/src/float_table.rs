//! What is known of floating-point arithmetic and of the decimal text of
//! doubles.
//!
//! This crate decides on doubles by their bit patterns and does not compute
//! with them. Where an evaluation needs a sum, the double that a text
//! stands for, or the text of a double, it looks the answer up in a
//! [`FloatTable`] that the caller fills: the evaluation stops with the
//! query it has no answer to, the caller settles it and evaluates again.
//! Every result is stated for the table as it stands, whatever it holds.

use vstd::prelude::*;
use crate::failure::Failure;

verus! {

/// The arithmetic operations on two doubles.
#[derive(Clone, Copy, Debug, PartialEq, Eq, Structural)]
pub enum FloatOp {
    Add,
    Sub,
    Mul,
    Div,
    Rem,
}

/// A question about doubles.
#[derive(Debug, Clone, PartialEq, Eq)]
pub enum FloatQuery {
    /// Which double does this text stand for, read as Rust reads a double?
    Parse(String),
    /// What is the text of this double, written as Rust displays it?
    Show(u64),
    /// What is the text of this finite double as a JSON number?
    JsonShow(u64),
    /// What do the two doubles give under the operation?
    Arith(FloatOp, u64, u64),
    /// Which double is nearest to this integer?
    FromInt(i64),
}

/// The content of a [`FloatQuery`].
pub enum QueryView {
    Parse(Seq<char>),
    Show(u64),
    JsonShow(u64),
    Arith(FloatOp, u64, u64),
    FromInt(int),
}

impl View for FloatQuery {
    type V = QueryView;

    open spec fn view(&self) -> QueryView {
        match self {
            FloatQuery::Parse(text) => QueryView::Parse(text@),
            FloatQuery::Show(bits) => QueryView::Show(*bits),
            FloatQuery::JsonShow(bits) => QueryView::JsonShow(*bits),
            FloatQuery::Arith(op, a, b) => QueryView::Arith(*op, *a, *b),
            FloatQuery::FromInt(n) => QueryView::FromInt(*n as int),
        }
    }
}

/// An answer to a [`FloatQuery`].
#[derive(Debug, Clone, PartialEq, Eq)]
pub enum FloatReply {
    /// The bit pattern of the double asked for.
    Bits(u64),
    /// The text stands for no double.
    Invalid,
    /// The text asked for.
    Text(String),
}

/// The content of a [`FloatReply`].
pub enum ReplyView {
    Bits(u64),
    Invalid,
    Text(Seq<char>),
}

impl View for FloatReply {
    type V = ReplyView;

    open spec fn view(&self) -> ReplyView {
        match self {
            FloatReply::Bits(bits) => ReplyView::Bits(*bits),
            FloatReply::Invalid => ReplyView::Invalid,
            FloatReply::Text(text) => ReplyView::Text(text@),
        }
    }
}

/// Whether the reply has the shape of an answer to the query.
pub open spec fn reply_fits(query: QueryView, reply: ReplyView) -> bool {
    match query {
        QueryView::Parse(_) => reply is Bits || reply is Invalid,
        QueryView::Show(_) => reply is Text,
        QueryView::JsonShow(_) => reply is Text,
        QueryView::Arith(_, _, _) => reply is Bits,
        QueryView::FromInt(_) => reply is Bits,
    }
}

/// Every answer among the facts has the shape that its query asks for.
pub open spec fn shaped(facts: Map<QueryView, ReplyView>) -> bool {
    forall|query: QueryView| facts.contains_key(query) ==> reply_fits(query, #[trigger] facts[query])
}

/// The double that the facts give for a query, if they give one.
pub open spec fn known_bits(facts: Map<QueryView, ReplyView>, query: QueryView) -> Option<u64> {
    if facts.contains_key(query) && facts[query] is Bits {
        Some(facts[query]->Bits_0)
    } else {
        None
    }
}

/// The text that the facts give for a query, if they give one.
pub open spec fn known_text(facts: Map<QueryView, ReplyView>, query: QueryView) -> Option<
    Seq<char>,
> {
    if facts.contains_key(query) && facts[query] is Text {
        Some(facts[query]->Text_0)
    } else {
        None
    }
}

/// What the facts say of a text read as a double: nothing, that it stands
/// for none, or the double.
pub open spec fn known_parse(facts: Map<QueryView, ReplyView>, text: Seq<char>) -> Option<
    Option<u64>,
> {
    let query = QueryView::Parse(text);
    if !facts.contains_key(query) {
        None
    } else {
        match facts[query] {
            ReplyView::Bits(bits) => Some(Some(bits)),
            ReplyView::Invalid => Some(None),
            ReplyView::Text(_) => None,
        }
    }
}

/// The facts that a list of recorded answers amounts to: of two answers to
/// one query the earlier one counts.
pub open spec fn facts_of(entries: Seq<(FloatQuery, FloatReply)>) -> Map<QueryView, ReplyView>
    decreases entries.len(),
{
    if entries.len() == 0 {
        Map::empty()
    } else {
        let earlier = facts_of(entries.drop_last());
        let last = entries.last();
        if earlier.contains_key(last.0@) {
            earlier
        } else {
            earlier.insert(last.0@, last.1@)
        }
    }
}

/// A query is answered by the facts exactly if some entry asks it.
proof fn facts_cover_entries(entries: Seq<(FloatQuery, FloatReply)>, query: QueryView)
    ensures
        facts_of(entries).contains_key(query) <==> exists|i: int|
            0 <= i < entries.len() && (#[trigger] entries[i]).0@ == query,
    decreases entries.len(),
{
    if entries.len() > 0 {
        let front = entries.drop_last();
        facts_cover_entries(front, query);
        facts_cover_entries(front, entries.last().0@);
        if facts_of(entries).contains_key(query) {
            if facts_of(front).contains_key(query) {
                let i = choose|i: int| 0 <= i < front.len() && (#[trigger] front[i]).0@ == query;
                assert(entries[i].0@ == query);
            } else {
                assert(entries[entries.len() - 1].0@ == query);
            }
        }
        if exists|i: int| 0 <= i < entries.len() && (#[trigger] entries[i]).0@ == query {
            let i = choose|i: int| 0 <= i < entries.len() && (#[trigger] entries[i]).0@ == query;
            if i < front.len() {
                assert(front[i].0@ == query);
            }
        }
    }
}

/// The facts give a query the answer of the first entry that asks it.
proof fn facts_take_first_entry(entries: Seq<(FloatQuery, FloatReply)>, first: int)
    requires
        0 <= first < entries.len(),
        forall|j: int| 0 <= j < first ==> (#[trigger] entries[j]).0@ != entries[first].0@,
    ensures
        facts_of(entries).contains_key(entries[first].0@),
        facts_of(entries)[entries[first].0@] == entries[first].1@,
    decreases entries.len(),
{
    let front = entries.drop_last();
    let query = entries[first].0@;
    if first == entries.len() - 1 {
        facts_cover_entries(front, query);
        if facts_of(front).contains_key(query) {
            let i = choose|i: int| 0 <= i < front.len() && (#[trigger] front[i]).0@ == query;
            assert(entries[i].0@ == query);
        }
    } else {
        assert(front[first] == entries[first]);
        assert forall|j: int| 0 <= j < first implies (#[trigger] front[j]).0@ != front[first].0@ by {
            assert(front[j] == entries[j]);
        }
        facts_take_first_entry(front, first);
    }
}

/// Whether two queries ask the same.
pub fn same_query(a: &FloatQuery, b: &FloatQuery) -> (r: bool)
    ensures
        r == (a@ == b@),
{
    match (a, b) {
        (FloatQuery::Parse(x), FloatQuery::Parse(y)) => *x == *y,
        (FloatQuery::Show(x), FloatQuery::Show(y)) => *x == *y,
        (FloatQuery::JsonShow(x), FloatQuery::JsonShow(y)) => *x == *y,
        (FloatQuery::Arith(o, x, y), FloatQuery::Arith(p, u, v)) => *o == *p && *x == *u && *y
            == *v,
        (FloatQuery::FromInt(x), FloatQuery::FromInt(y)) => *x == *y,
        _ => false,
    }
}

/// Whether the reply has the shape of an answer to the query.
pub fn fits(query: &FloatQuery, reply: &FloatReply) -> (r: bool)
    ensures
        r == reply_fits(query@, reply@),
{
    match query {
        FloatQuery::Parse(_) => match reply {
            FloatReply::Text(_) => false,
            _ => true,
        },
        FloatQuery::Show(_) => match reply {
            FloatReply::Text(_) => true,
            _ => false,
        },
        FloatQuery::JsonShow(_) => match reply {
            FloatReply::Text(_) => true,
            _ => false,
        },
        FloatQuery::Arith(_, _, _) => match reply {
            FloatReply::Bits(_) => true,
            _ => false,
        },
        FloatQuery::FromInt(_) => match reply {
            FloatReply::Bits(_) => true,
            _ => false,
        },
    }
}

/// The answers that a caller has recorded, in the order in which they came.
/// Each has the shape that its query asks for: [`FloatTable::new`] starts
/// with [`shaped`], and [`FloatTable::record`] keeps it.
#[derive(Debug, Clone)]
pub struct FloatTable {
    entries: Vec<(FloatQuery, FloatReply)>,
}

impl View for FloatTable {
    type V = Map<QueryView, ReplyView>;

    closed spec fn view(&self) -> Map<QueryView, ReplyView> {
        facts_of(self.entries@)
    }
}

impl FloatTable {
    /// A table that answers nothing.
    pub fn new() -> (r: FloatTable)
        ensures
            r@ == Map::<QueryView, ReplyView>::empty(),
            shaped(r@),
    {
        FloatTable { entries: Vec::new() }
    }

    /// The recorded answer to the query, if there is one.
    pub fn find(&self, query: &FloatQuery) -> (r: Option<&FloatReply>)
        ensures
            r is Some <==> self@.contains_key(query@),
            r is Some ==> r->Some_0@ == self@[query@],
    {
        let mut i: usize = 0;
        while i < self.entries.len()
            invariant
                i <= self.entries.len(),
                forall|j: int| 0 <= j < i ==> (#[trigger] self.entries@[j]).0@ != query@,
            decreases self.entries.len() - i,
        {
            if same_query(&self.entries[i].0, query) {
                proof {
                    facts_take_first_entry(self.entries@, i as int);
                }
                return Some(&self.entries[i].1);
            }
            i += 1;
        }
        proof {
            facts_cover_entries(self.entries@, query@);
        }
        None
    }

    /// Records an answer. An answer of the wrong shape is refused, and so
    /// is one to a query that has an answer already.
    pub fn record(&mut self, query: FloatQuery, reply: FloatReply) -> (added: bool)
        ensures
            added == (!old(self)@.contains_key(query@) && reply_fits(query@, reply@)),
            added ==> final(self)@ == old(self)@.insert(query@, reply@),
            !added ==> final(self)@ == old(self)@,
            shaped(old(self)@) ==> shaped(final(self)@),
    {
        if !fits(&query, &reply) {
            return false;
        }
        if self.find(&query).is_some() {
            return false;
        }
        let ghost before = self.entries@;
        self.entries.push((query, reply));
        assert(self.entries@.drop_last() =~= before);
        true
    }

    /// The double that the table gives for the query, if it gives one.
    pub fn bits_for(&self, query: &FloatQuery) -> (r: Option<u64>)
        ensures
            r == known_bits(self@, query@),
    {
        match self.find(query) {
            Some(FloatReply::Bits(bits)) => Some(*bits),
            _ => None,
        }
    }

    /// The text that the table gives for the query, if it gives one.
    pub fn text_for(&self, query: &FloatQuery) -> (r: Option<String>)
        ensures
            r is Some == known_text(self@, query@) is Some,
            r is Some ==> r->Some_0@ == known_text(self@, query@)->Some_0,
    {
        match self.find(query) {
            Some(FloatReply::Text(text)) => Some(text.clone()),
            _ => None,
        }
    }

    /// What the table says of a text read as a double.
    pub fn parse_for(&self, query: &FloatQuery) -> (r: Option<Option<u64>>)
        requires
            query is Parse,
        ensures
            r == known_parse(self@, query->Parse_0@),
    {
        match self.find(query) {
            Some(FloatReply::Bits(bits)) => Some(Some(*bits)),
            Some(FloatReply::Invalid) => Some(None),
            _ => None,
        }
    }
}

/// How far an evaluation got.
#[derive(Debug, Clone, PartialEq)]
pub enum Outcome<T> {
    /// It is done, with this result.
    Ready(T),
    /// It failed.
    Failed(Failure),
    /// It needs an answer that the table does not hold.
    Needs(FloatQuery),
}

/// The content of an [`Outcome`].
pub enum OutcomeView<V> {
    Ready(V),
    Failed(Failure),
    Needs(QueryView),
}

impl<T: View> View for Outcome<T> {
    type V = OutcomeView<T::V>;

    open spec fn view(&self) -> OutcomeView<T::V> {
        match self {
            Outcome::Ready(x) => OutcomeView::Ready(x@),
            Outcome::Failed(failure) => OutcomeView::Failed(*failure),
            Outcome::Needs(query) => OutcomeView::Needs(query@),
        }
    }
}

} // verus!
