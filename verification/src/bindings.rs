//! Named strings: the facts that the context and the system give an
//! expression.

use vstd::prelude::*;
use crate::text::same_text;
use crate::value::{object_view_is_fieldwise, Value, ValueView};

verus! {

/// The value of the first entry with the key, if there is one.
pub open spec fn lookup(entries: Seq<(Seq<char>, Seq<char>)>, key: Seq<char>) -> Option<Seq<char>>
    decreases entries.len(),
{
    if entries.len() == 0 {
        None
    } else if entries[0].0 == key {
        Some(entries[0].1)
    } else {
        lookup(entries.drop_first(), key)
    }
}

/// The index of the first entry with the key, or the length if there is
/// none.
pub open spec fn index_of(entries: Seq<(Seq<char>, Seq<char>)>, key: Seq<char>) -> int
    decreases entries.len(),
{
    if entries.len() == 0 {
        0
    } else if entries[0].0 == key {
        0
    } else {
        1 + index_of(entries.drop_first(), key)
    }
}

/// The entries with the key bound to the value: in the place of the old
/// binding if there is one, else at the end.
pub open spec fn bound(entries: Seq<(Seq<char>, Seq<char>)>, key: Seq<char>, value: Seq<char>)
    -> Seq<(Seq<char>, Seq<char>)> {
    let at = index_of(entries, key);
    if at < entries.len() {
        entries.update(at, (key, value))
    } else {
        entries.push((key, value))
    }
}

/// No key occurs twice.
pub open spec fn distinct_keys(entries: Seq<(Seq<char>, Seq<char>)>) -> bool {
    forall|i: int, j: int|
        0 <= i < j < entries.len() ==> (#[trigger] entries[i]).0 != (#[trigger] entries[j]).0
}

/// Where the first entry with the key is, and what a lookup finds there.
pub proof fn index_of_is_first(entries: Seq<(Seq<char>, Seq<char>)>, key: Seq<char>)
    ensures
        0 <= index_of(entries, key) <= entries.len(),
        forall|j: int| 0 <= j < index_of(entries, key) ==> (#[trigger] entries[j]).0 != key,
        index_of(entries, key) < entries.len() ==> entries[index_of(entries, key)].0 == key
            && lookup(entries, key) == Some(entries[index_of(entries, key)].1),
        index_of(entries, key) == entries.len() ==> lookup(entries, key) is None,
    decreases entries.len(),
{
    if entries.len() > 0 && entries[0].0 != key {
        let rest = entries.drop_first();
        index_of_is_first(rest, key);
        assert forall|j: int| 0 <= j < index_of(entries, key) implies (#[trigger] entries[j]).0
            != key by {
            if j > 0 {
                assert(rest[j - 1] == entries[j]);
            }
        }
    }
}

/// An index before which no entry has the key, and at which one has it or
/// the entries end, is the index of the key.
pub proof fn first_index_is_index_of(entries: Seq<(Seq<char>, Seq<char>)>, key: Seq<char>, at: int)
    requires
        0 <= at <= entries.len(),
        forall|j: int| 0 <= j < at ==> (#[trigger] entries[j]).0 != key,
        at < entries.len() ==> entries[at].0 == key,
    ensures
        index_of(entries, key) == at,
{
    index_of_is_first(entries, key);
    let found = index_of(entries, key);
    if found < at {
        assert(entries[found].0 == key);
    }
    if found > at {
        assert(entries[at].0 == key);
    }
}

/// After a key was bound, a lookup of it finds the new value, and a lookup
/// of any other key finds what it found before.
pub proof fn lookup_after_bound(
    entries: Seq<(Seq<char>, Seq<char>)>,
    key: Seq<char>,
    value: Seq<char>,
    other: Seq<char>,
)
    ensures
        lookup(bound(entries, key, value), key) == Some(value),
        other != key ==> lookup(bound(entries, key, value), other) == lookup(entries, other),
{
    let after = bound(entries, key, value);
    let at = index_of(entries, key);
    index_of_is_first(entries, key);
    assert forall|j: int| 0 <= j < at implies (#[trigger] after[j]).0 != key by {
        assert(after[j] == entries[j]);
    }
    first_index_is_index_of(after, key, at);
    index_of_is_first(after, key);
    if other != key {
        let was = index_of(entries, other);
        index_of_is_first(entries, other);
        assert forall|j: int| 0 <= j < was implies (#[trigger] after[j]).0 != other by {
            if j < entries.len() {
                if j != at {
                    assert(after[j] == entries[j]);
                }
            }
        }
        if was < entries.len() {
            assert(was != at);
            assert(after[was] == entries[was]);
            first_index_is_index_of(after, other, was);
            index_of_is_first(after, other);
        } else {
            assert forall|j: int| 0 <= j < after.len() implies (#[trigger] after[j]).0
                != other by {
                if j < entries.len() && j != at {
                    assert(after[j] == entries[j]);
                }
            }
            first_index_is_index_of(after, other, after.len() as int);
            index_of_is_first(after, other);
        }
    }
}

/// A set of named strings, in the order in which the names were first
/// bound. No name is bound twice: [`Bindings::new`] starts with
/// [`distinct_keys`], and [`Bindings::insert`] keeps it.
#[derive(Debug, Clone, PartialEq, Eq)]
pub struct Bindings {
    entries: Vec<(String, String)>,
}

impl View for Bindings {
    type V = Seq<(Seq<char>, Seq<char>)>;

    closed spec fn view(&self) -> Seq<(Seq<char>, Seq<char>)> {
        Seq::new(self.entries@.len(), |i: int| (self.entries@[i].0@, self.entries@[i].1@))
    }
}

/// The object that shows the entries: a field for each, with the value as
/// a string.
pub open spec fn as_object(entries: Seq<(Seq<char>, Seq<char>)>) -> ValueView {
    ValueView::Object(Seq::new(entries.len(), |i: int| (entries[i].0, ValueView::String(entries[i].1))))
}

impl Bindings {
    /// No bindings.
    pub fn new() -> (r: Bindings)
        ensures
            r@ == Seq::<(Seq<char>, Seq<char>)>::empty(),
            distinct_keys(r@),
    {
        let r = Bindings { entries: Vec::new() };
        assert(r@ =~= Seq::<(Seq<char>, Seq<char>)>::empty());
        r
    }

    /// How many names are bound.
    pub fn len(&self) -> (n: usize)
        ensures
            n == self@.len(),
    {
        self.entries.len()
    }

    /// Whether no name is bound.
    pub fn is_empty(&self) -> (r: bool)
        ensures
            r == (self@.len() == 0),
    {
        self.entries.len() == 0
    }

    fn position(&self, key: &str) -> (at: usize)
        ensures
            at == index_of(self@, key@),
            at <= self.entries.len(),
    {
        let mut i: usize = 0;
        while i < self.entries.len()
            invariant
                i <= self.entries.len(),
                forall|j: int| 0 <= j < i ==> (#[trigger] self@[j]).0 != key@,
            decreases self.entries.len() - i,
        {
            if same_text(self.entries[i].0.as_str(), key) {
                proof {
                    first_index_is_index_of(self@, key@, i as int);
                }
                return i;
            }
            i += 1;
        }
        proof {
            first_index_is_index_of(self@, key@, i as int);
        }
        i
    }

    /// The string that the name is bound to, if it is bound.
    pub fn get(&self, key: &str) -> (r: Option<&String>)
        ensures
            r is Some == lookup(self@, key@) is Some,
            r is Some ==> r->Some_0@ == lookup(self@, key@)->Some_0,
    {
        let at = self.position(key);
        proof {
            index_of_is_first(self@, key@);
        }
        if at < self.entries.len() {
            Some(&self.entries[at].1)
        } else {
            None
        }
    }

    /// Whether the name is bound.
    pub fn contains_key(&self, key: &str) -> (r: bool)
        ensures
            r == lookup(self@, key@) is Some,
    {
        self.get(key).is_some()
    }

    /// Binds the name to the string: in the place of its old binding if it
    /// has one, else behind all others.
    pub fn insert(&mut self, key: String, value: String)
        ensures
            final(self)@ == bound(old(self)@, key@, value@),
            distinct_keys(old(self)@) ==> distinct_keys(final(self)@),
    {
        let at = self.position(key.as_str());
        let ghost before = self@;
        proof {
            index_of_is_first(before, key@);
        }
        if at < self.entries.len() {
            self.entries.set(at, (key, value));
            assert(self@ =~= before.update(at as int, (key@, value@)));
            proof {
                if distinct_keys(before) {
                    assert forall|i: int, j: int| 0 <= i < j < self@.len() implies (
                    #[trigger] self@[i]).0 != (#[trigger] self@[j]).0 by {
                        assert(self@[i].0 == before[i].0);
                        assert(self@[j].0 == before[j].0);
                    }
                }
            }
        } else {
            self.entries.push((key, value));
            assert(self@ =~= before.push((key@, value@)));
            proof {
                if distinct_keys(before) {
                    assert forall|i: int, j: int| 0 <= i < j < self@.len() implies (
                    #[trigger] self@[i]).0 != (#[trigger] self@[j]).0 by {
                        if j < before.len() {
                            assert(self@[i] == before[i]);
                            assert(self@[j] == before[j]);
                        } else {
                            assert(self@[i] == before[i]);
                        }
                    }
                }
            }
        }
    }

    /// The entries as an object value: see [`as_object`].
    pub fn to_object(&self) -> (r: Value)
        ensures
            r@ == as_object(self@),
    {
        let mut fields: Vec<(String, Value)> = Vec::new();
        let mut i: usize = 0;
        while i < self.entries.len()
            invariant
                i <= self.entries.len(),
                fields@.len() == i,
                forall|j: int|
                    0 <= j < i ==> (#[trigger] fields@[j]).0@ == self.entries@[j].0@ && fields@[j].1@
                        == ValueView::String(self.entries@[j].1@),
            decreases self.entries.len() - i,
        {
            fields.push((self.entries[i].0.clone(), Value::String(self.entries[i].1.clone())));
            i += 1;
        }
        let r = Value::Object(fields);
        proof {
            object_view_is_fieldwise(r);
            assert(r@->Object_0 =~= as_object(self@)->Object_0);
        }
        r
    }

    /// A copy with the same entries.
    pub fn duplicate(&self) -> (r: Bindings)
        ensures
            r@ == self@,
    {
        let mut entries: Vec<(String, String)> = Vec::new();
        let mut i: usize = 0;
        while i < self.entries.len()
            invariant
                i <= self.entries.len(),
                entries@.len() == i,
                forall|j: int|
                    0 <= j < i ==> (#[trigger] entries@[j]).0@ == self.entries@[j].0@
                        && entries@[j].1@ == self.entries@[j].1@,
            decreases self.entries.len() - i,
        {
            entries.push((self.entries[i].0.clone(), self.entries[i].1.clone()));
            i += 1;
        }
        let r = Bindings { entries };
        assert(r@ =~= self@);
        r
    }
}

} // verus!
