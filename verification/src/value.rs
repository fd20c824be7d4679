//! The typed runtime value that expressions produce and builtins consume.

use vstd::prelude::*;
use vstd::std_specs::cmp::PartialEqSpecImpl;
use crate::float_bits::{float_eq, bits_eq};

verus! {

/// A value of the expression language.
///
/// A `Float64` holds the bit pattern of an IEEE-754 double. An `Object` holds
/// its fields as name and value pairs, in the order in which they are written
/// out.
#[derive(Debug)]
pub enum Value {
    Null,
    Bool(bool),
    Int64(i64),
    Float64(u64),
    String(String),
    Array(Vec<Value>),
    Object(Vec<(String, Value)>),
}

/// The mathematical content of a [`Value`].
pub enum ValueView {
    Null,
    Bool(bool),
    Int64(int),
    Float64(u64),
    String(Seq<char>),
    Array(Seq<ValueView>),
    Object(Seq<(Seq<char>, ValueView)>),
}

/// The contents of a list of values.
pub open spec fn values_view(items: Seq<Value>) -> Seq<ValueView> {
    Seq::new(items.len(), |i: int| items[i].view())
}

/// The content of a value.
pub open spec fn value_view(v: Value) -> ValueView
    decreases v,
{
    match v {
        Value::Null => ValueView::Null,
        Value::Bool(b) => ValueView::Bool(b),
        Value::Int64(n) => ValueView::Int64(n as int),
        Value::Float64(bits) => ValueView::Float64(bits),
        Value::String(s) => ValueView::String(s@),
        Value::Array(items) => ValueView::Array(
            Seq::new(
                items@.len(),
                |i: int|
                    if 0 <= i < items@.len() {
                        value_view(items@[i])
                    } else {
                        ValueView::Null
                    },
            ),
        ),
        Value::Object(fields) => ValueView::Object(
            Seq::new(
                fields@.len(),
                |i: int|
                    if 0 <= i < fields@.len() {
                        (fields@[i].0@, value_view(fields@[i].1))
                    } else {
                        (Seq::empty(), ValueView::Null)
                    },
            ),
        ),
    }
}

impl View for Value {
    type V = ValueView;

    open spec fn view(&self) -> ValueView {
        value_view(*self)
    }
}

/// What the view of an array is, element by element.
pub proof fn array_view_is_elementwise(v: Value)
    requires
        v is Array,
    ensures
        v@ is Array,
        v@->Array_0.len() == v->Array_0@.len(),
        forall|i: int| 0 <= i < v->Array_0@.len() ==> (#[trigger] v@->Array_0[i]) == v->Array_0@[i]@,
        v@->Array_0 == values_view(v->Array_0@),
{
    match v {
        Value::Array(items) => {
            assert(v@ is Array);
            assert(v@->Array_0.len() == items@.len());
            assert(v@->Array_0 =~= values_view(items@));
        },
        _ => {},
    }
}

/// What the view of an object is, field by field.
pub proof fn object_view_is_fieldwise(v: Value)
    requires
        v is Object,
    ensures
        v@ is Object,
        v@->Object_0.len() == v->Object_0@.len(),
        forall|i: int|
            0 <= i < v->Object_0@.len() ==> (#[trigger] v@->Object_0[i]) == (
                v->Object_0@[i].0@,
                v->Object_0@[i].1@,
            ),
{
    match v {
        Value::Object(fields) => {
            assert(v@ is Object);
            assert(v@->Object_0.len() == fields@.len());
        },
        _ => {},
    }
}

/// Structural equality of values, with doubles compared as IEEE prescribes:
/// a NaN equals nothing, itself included, and the two zeros are equal.
pub open spec fn same_value(a: ValueView, b: ValueView) -> bool
    decreases a,
{
    match (a, b) {
        (ValueView::Null, ValueView::Null) => true,
        (ValueView::Bool(x), ValueView::Bool(y)) => x == y,
        (ValueView::Int64(x), ValueView::Int64(y)) => x == y,
        (ValueView::Float64(x), ValueView::Float64(y)) => float_eq(x, y),
        (ValueView::String(x), ValueView::String(y)) => x == y,
        (ValueView::Array(x), ValueView::Array(y)) => {
            &&& x.len() == y.len()
            &&& forall|i: int| 0 <= i < x.len() ==> same_value(x[i], y[i])
        },
        (ValueView::Object(x), ValueView::Object(y)) => {
            &&& x.len() == y.len()
            &&& forall|i: int|
                0 <= i < x.len() ==> x[i].0 == y[i].0 && same_value(x[i].1, y[i].1)
        },
        _ => false,
    }
}

impl Value {
    /// Whether the two values are equal in the sense of [`same_value`].
    pub fn same_as(&self, other: &Value) -> (r: bool)
        ensures
            r == same_value(self@, other@),
        decreases self,
    {
        match (self, other) {
            (Value::Null, Value::Null) => true,
            (Value::Bool(x), Value::Bool(y)) => *x == *y,
            (Value::Int64(x), Value::Int64(y)) => *x == *y,
            (Value::Float64(x), Value::Float64(y)) => bits_eq(*x, *y),
            (Value::String(x), Value::String(y)) => *x == *y,
            (Value::Array(x), Value::Array(y)) => {
                proof {
                    array_view_is_elementwise(*self);
                    array_view_is_elementwise(*other);
                }
                if x.len() != y.len() {
                    return false;
                }
                let mut i: usize = 0;
                while i < x.len()
                    invariant
                        i <= x.len(),
                        x.len() == y.len(),
                        self@ is Array,
                        other@ is Array,
                        self@->Array_0.len() == x.len(),
                        other@->Array_0.len() == x.len(),
                        forall|j: int| 0 <= j < x.len() ==> (#[trigger] self@->Array_0[j]) == x@[j]@,
                        forall|j: int| 0 <= j < x.len() ==> (#[trigger] other@->Array_0[j]) == y@[j]@,
                        self is Array,
                        self->Array_0 == *x,
                        other is Array,
                        other->Array_0 == *y,
                        forall|j: int|
                            0 <= j < i ==> same_value(#[trigger] self@->Array_0[j], other@->Array_0[j]),
                    decreases x.len() - i,
                {
                    assert(decreases_to!(*self => self->Array_0));
                    assert(decreases_to!(*x => x[i as int]));
                    if !x[i].same_as(&y[i]) {
                        assert(!same_value(self@->Array_0[i as int], other@->Array_0[i as int]));
                        return false;
                    }
                    i += 1;
                }
                assert(forall|j: int|
                    0 <= j < self@->Array_0.len() ==> same_value(
                        self@->Array_0[j],
                        other@->Array_0[j],
                    ));
                assert(same_value(self@, other@));
                true
            },
            (Value::Object(x), Value::Object(y)) => {
                proof {
                    object_view_is_fieldwise(*self);
                    object_view_is_fieldwise(*other);
                }
                if x.len() != y.len() {
                    return false;
                }
                let mut i: usize = 0;
                while i < x.len()
                    invariant
                        i <= x.len(),
                        x.len() == y.len(),
                        self@ is Object,
                        other@ is Object,
                        self@->Object_0.len() == x.len(),
                        other@->Object_0.len() == x.len(),
                        forall|j: int|
                            0 <= j < x.len() ==> (#[trigger] self@->Object_0[j]) == (
                                x@[j].0@,
                                x@[j].1@,
                            ),
                        forall|j: int|
                            0 <= j < x.len() ==> (#[trigger] other@->Object_0[j]) == (
                                y@[j].0@,
                                y@[j].1@,
                            ),
                        self is Object,
                        self->Object_0 == *x,
                        other is Object,
                        other->Object_0 == *y,
                        forall|j: int|
                            0 <= j < i ==> (#[trigger] self@->Object_0[j]).0 == other@->Object_0[j].0
                                && same_value(self@->Object_0[j].1, other@->Object_0[j].1),
                    decreases x.len() - i,
                {
                    assert(decreases_to!(*self => self->Object_0));
                    assert(decreases_to!(*x => x[i as int]));
                    assert(decreases_to!(x[i as int] => x[i as int].1));
                    if !(x[i].0 == y[i].0) || !x[i].1.same_as(&y[i].1) {
                        assert(!(self@->Object_0[i as int].0 == other@->Object_0[i as int].0
                            && same_value(
                            self@->Object_0[i as int].1,
                            other@->Object_0[i as int].1,
                        )));
                        return false;
                    }
                    i += 1;
                }
                assert(forall|j: int|
                    0 <= j < self@->Object_0.len() ==> self@->Object_0[j].0 == other@->Object_0[j].0
                        && same_value(self@->Object_0[j].1, other@->Object_0[j].1));
                assert(same_value(self@, other@));
                true
            },
            _ => {
                assert(!same_value(self@, other@));
                false
            },
        }
    }

    /// A copy with the same content.
    pub fn duplicate(&self) -> (r: Value)
        ensures
            r@ == self@,
        decreases self,
    {
        match self {
            Value::Null => Value::Null,
            Value::Bool(b) => Value::Bool(*b),
            Value::Int64(n) => Value::Int64(*n),
            Value::Float64(bits) => Value::Float64(*bits),
            Value::String(s) => Value::String(s.clone()),
            Value::Array(items) => {
                let mut out: Vec<Value> = Vec::new();
                let mut i: usize = 0;
                while i < items.len()
                    invariant
                        i <= items.len(),
                        self is Array,
                        self->Array_0 == *items,
                        out@.len() == i,
                        forall|j: int| 0 <= j < i ==> (#[trigger] out@[j])@ == items@[j]@,
                    decreases items.len() - i,
                {
                    assert(decreases_to!(*self => self->Array_0));
                    assert(decreases_to!(*items => items[i as int]));
                    out.push(items[i].duplicate());
                    i += 1;
                }
                let r = Value::Array(out);
                proof {
                    array_view_is_elementwise(r);
                    array_view_is_elementwise(*self);
                    assert(r@->Array_0 =~= self@->Array_0);
                }
                r
            },
            Value::Object(fields) => {
                let mut out: Vec<(String, Value)> = Vec::new();
                let mut i: usize = 0;
                while i < fields.len()
                    invariant
                        i <= fields.len(),
                        self is Object,
                        self->Object_0 == *fields,
                        out@.len() == i,
                        forall|j: int|
                            0 <= j < i ==> (#[trigger] out@[j]).0@ == fields@[j].0@ && out@[j].1@
                                == fields@[j].1@,
                    decreases fields.len() - i,
                {
                    assert(decreases_to!(*self => self->Object_0));
                    assert(decreases_to!(*fields => fields[i as int]));
                    assert(decreases_to!(fields[i as int] => fields[i as int].1));
                    out.push((fields[i].0.clone(), fields[i].1.duplicate()));
                    i += 1;
                }
                let r = Value::Object(out);
                proof {
                    object_view_is_fieldwise(r);
                    object_view_is_fieldwise(*self);
                    assert(r@->Object_0 =~= self@->Object_0);
                }
                r
            },
        }
    }
}

impl Clone for Value {
    fn clone(&self) -> (r: Self)
        ensures
            r@ == self@,
    {
        self.duplicate()
    }
}

impl PartialEq for Value {
    fn eq(&self, other: &Self) -> (r: bool) {
        self.same_as(other)
    }
}

impl PartialEqSpecImpl for Value {
    open spec fn obeys_eq_spec() -> bool {
        true
    }

    open spec fn eq_spec(&self, other: &Self) -> bool {
        same_value(self@, other@)
    }
}

} // verus!
