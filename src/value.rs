use crate::engine::{held_data, unaliased, jinja_bool, jinja_dict, jinja_int, jinja_list, jinja_none, jinja_str};
use vstd::prelude::*;

verus! {

broadcast use vstd::std_specs::vec::group_vec_axioms;

/// The mathematical model of the data handed to a template.
pub enum Data {
    Null,
    Bool(bool),
    Int(int),
    Text(Seq<char>),
    List(Seq<Data>),
    Dict(Seq<(Seq<char>, Data)>),
}

/// Context data: a mapping keeps its entries in insertion order.
#[derive(Debug)]
pub enum ContextValue {
    Null,
    Bool(bool),
    Int(i64),
    Str(String),
    List(Vec<ContextValue>),
    Dict(Vec<(String, ContextValue)>),
}

impl ContextValue {
    pub open spec fn data(&self) -> Data
        decreases self,
    {
        match self {
            ContextValue::Null => Data::Null,
            ContextValue::Bool(b) => Data::Bool(*b),
            ContextValue::Int(i) => Data::Int(*i as int),
            ContextValue::Str(s) => Data::Text(s@),
            ContextValue::List(items) => Data::List(
                Seq::new(
                    items.len() as nat,
                    |i: int|
                        if 0 <= i < items.len() {
                            items[i].data()
                        } else {
                            Data::Null
                        },
                ),
            ),
            ContextValue::Dict(entries) => Data::Dict(
                Seq::new(
                    entries.len() as nat,
                    |i: int|
                        if 0 <= i < entries.len() {
                            (entries[i].0@, entries[i].1.data())
                        } else {
                            (Seq::empty(), Data::Null)
                        },
                ),
            ),
        }
    }

    /// Mapping keys are distinct, at every level.
    pub open spec fn well_formed(&self) -> bool
        decreases self,
    {
        match self {
            ContextValue::List(items) => {
                forall|i: int| 0 <= i < items@.len() ==> (#[trigger] items@[i]).well_formed()
            },
            ContextValue::Dict(entries) => {
                &&& forall|i: int, j: int|
                    0 <= i < j < entries.len() ==> entries[i].0@ != entries[j].0@
                &&& forall|i: int| 0 <= i < entries@.len() ==> (#[trigger] entries@[i]).1.well_formed()
            },
            _ => true,
        }
    }

    /// The same data as a minijinja value.
    pub(crate) fn to_jinja(&self) -> (r: minijinja::Value)
        requires
            self.well_formed(),
        ensures
            held_data(r) == self.data(),
            unaliased(r),
        decreases self,
    {
        match self {
            ContextValue::Null => jinja_none(),
            ContextValue::Bool(b) => jinja_bool(*b),
            ContextValue::Int(i) => jinja_int(*i),
            ContextValue::Str(s) => jinja_str(s.clone()),
            ContextValue::List(items) => {
                assert(forall|j: int| 0 <= j < items.len() ==> decreases_to!(*self => #[trigger] items@[j]));
                let mut out: Vec<minijinja::Value> = Vec::new();
                let mut i: usize = 0;
                while i < items.len()
                    invariant
                        i <= items.len(),
                        out@.len() == i,
                        self.well_formed(),
                        *self == ContextValue::List(*items),
                        forall|j: int| 0 <= j < i ==> held_data(#[trigger] out@[j]) == items@[j].data(),
                        forall|j: int| 0 <= j < i ==> unaliased(#[trigger] out@[j]),
                        forall|j: int| 0 <= j < items.len() ==> (#[trigger] items@[j]).well_formed(),
                        forall|j: int| 0 <= j < items.len() ==> decreases_to!(*self => #[trigger] items@[j]),
                    decreases items.len() - i,
                {
                    let v = items[i].to_jinja();
                    out.push(v);
                    i = i + 1;
                }
                let r = jinja_list(out);
                proof {
                    assert(out@.map_values(|x: minijinja::Value| held_data(x)) =~= self.data()->List_0);
                }
                r
            },
            ContextValue::Dict(entries) => {
                assert(forall|j: int|
                    0 <= j < entries.len() ==> decreases_to!(*self => (#[trigger] entries@[j]).1));
                let mut out: Vec<(String, minijinja::Value)> = Vec::new();
                let mut i: usize = 0;
                while i < entries.len()
                    invariant
                        i <= entries.len(),
                        out@.len() == i,
                        self.well_formed(),
                        *self == ContextValue::Dict(*entries),
                        forall|j: int|
                            0 <= j < i ==> (#[trigger] out@[j]).0@ == entries@[j].0@
                                && held_data(out@[j].1) == entries@[j].1.data()
                                && unaliased(out@[j].1),
                        forall|j: int| 0 <= j < entries.len() ==> (#[trigger] entries@[j]).1.well_formed(),
                        forall|j: int|
                            0 <= j < entries.len() ==> decreases_to!(*self => (#[trigger] entries@[j]).1),
                    decreases entries.len() - i,
                {
                    let v = entries[i].1.to_jinja();
                    out.push((entries[i].0.clone(), v));
                    i = i + 1;
                }
                proof {
                    let ks = out@.map_values(|e: (String, minijinja::Value)| e.0@);
                    assert forall|a: int, b: int| 0 <= a < ks.len() && 0 <= b < ks.len() && a != b
                        implies ks[a] != ks[b] by {
                        if a < b {
                            assert(entries[a].0@ != entries[b].0@);
                        } else {
                            assert(entries[b].0@ != entries[a].0@);
                        }
                    }
                }
                let r = jinja_dict(out);
                proof {
                    assert(out@.map_values(
                        |e: (String, minijinja::Value)| (e.0@, held_data(e.1)),
                    ) =~= self.data()->Dict_0);
                }
                r
            },
        }
    }

    /// Whether mapping keys are distinct at every level.
    pub fn is_well_formed(&self) -> (r: bool)
        ensures
            r == self.well_formed(),
        decreases self,
    {
        match self {
            ContextValue::List(items) => {
                assert(forall|j: int| 0 <= j < items.len() ==> decreases_to!(*self => #[trigger] items@[j]));
                let mut i: usize = 0;
                while i < items.len()
                    invariant
                        i <= items.len(),
                        *self == ContextValue::List(*items),
                        forall|j: int| 0 <= j < i ==> (#[trigger] items@[j]).well_formed(),
                        forall|j: int| 0 <= j < items.len() ==> decreases_to!(*self => #[trigger] items@[j]),
                    decreases items.len() - i,
                {
                    if !items[i].is_well_formed() {
                        assert(!items@[i as int].well_formed());
                        assert(self->List_0@[i as int] == items@[i as int]);
                        assert(!self.well_formed());
                        return false;
                    }
                    i = i + 1;
                }
                true
            },
            ContextValue::Dict(entries) => {
                assert(forall|j: int|
                    0 <= j < entries.len() ==> decreases_to!(*self => (#[trigger] entries@[j]).1));
                let mut i: usize = 0;
                while i < entries.len()
                    invariant
                        i <= entries.len(),
                        *self == ContextValue::Dict(*entries),
                        forall|j: int| 0 <= j < i ==> (#[trigger] entries@[j]).1.well_formed(),
                        forall|a: int, b: int| 0 <= a < b < i ==> entries@[a].0@ != entries@[b].0@,
                        forall|j: int|
                            0 <= j < entries.len() ==> decreases_to!(*self => (#[trigger] entries@[j]).1),
                    decreases entries.len() - i,
                {
                    if !entries[i].1.is_well_formed() {
                        assert(!entries@[i as int].1.well_formed());
                        assert(self->Dict_0@[i as int] == entries@[i as int]);
                        assert(!self.well_formed());
                        return false;
                    }
                    let mut j: usize = 0;
                    while j < i
                        invariant
                            j <= i < entries.len(),
                            *self == ContextValue::Dict(*entries),
                            forall|a: int, b: int| 0 <= a < b < i ==> entries@[a].0@ != entries@[b].0@,
                            forall|a: int| 0 <= a < j ==> entries@[a].0@ != entries@[i as int].0@,
                        decreases i - j,
                    {
                        if entries[j].0 == entries[i].0 {
                            assert(entries[j as int].0@ == entries[i as int].0@);
                            assert(self->Dict_0@[i as int] == entries@[i as int]);
                            assert(self->Dict_0@[j as int] == entries@[j as int]);
                            assert(!self.well_formed());
                            return false;
                        }
                        j = j + 1;
                    }
                    i = i + 1;
                }
                true
            },
            _ => true,
        }
    }
}

} // verus!
