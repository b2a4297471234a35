//! HTTP header fields of a handshake: a map from names to values that
//! keeps the order in which the fields were first set.

use crate::text::str_eq;
use vstd::prelude::*;

verus! {

/// The mathematical value of a header map: the fields in order, each a
/// name and a value.
pub type Fields = Seq<(Seq<char>, Seq<char>)>;

/// The fields that a vector of pairs of strings holds.
pub open spec fn fields_of(entries: Seq<(String, String)>) -> Fields {
    Seq::new(entries.len(), |i: int| (entries[i].0@, entries[i].1@))
}

/// The texts that a vector of strings holds.
pub open spec fn texts(v: Seq<String>) -> Seq<Seq<char>> {
    Seq::new(v.len(), |i: int| v[i]@)
}

/// The index of the first field of `h`, at or after `from`, whose name is
/// `name`; the number of fields if there is none.
pub open spec fn position(h: Fields, name: Seq<char>, from: int) -> int
    decreases h.len() - from,
{
    if from >= h.len() {
        h.len() as int
    } else if h[from].0 == name {
        from
    } else {
        position(h, name, from + 1)
    }
}

/// The value of the field `name`, if there is one.
pub open spec fn lookup(h: Fields, name: Seq<char>) -> Option<Seq<char>> {
    let i = position(h, name, 0);
    if i < h.len() {
        Some(h[i].1)
    } else {
        None
    }
}

/// The fields after `name` was set to `value`: the value replaces that of
/// a field of the same name, or the field is added at the end.
pub open spec fn inserted(h: Fields, name: Seq<char>, value: Seq<char>) -> Fields {
    let i = position(h, name, 0);
    if i < h.len() {
        h.update(i, (name, value))
    } else {
        h.push((name, value))
    }
}

/// No name occurs twice.
pub open spec fn distinct_names(h: Fields) -> bool {
    forall|i: int, j: int| 0 <= i < j < h.len() ==> (#[trigger] h[i]).0 != (#[trigger] h[j]).0
}

/// Setting a field keeps the names distinct, makes the field's value the
/// one that was set, and leaves every other field's value alone.
pub proof fn lemma_inserted(h: Fields, name: Seq<char>, value: Seq<char>, other: Seq<char>)
    requires
        distinct_names(h),
    ensures
        distinct_names(inserted(h, name, value)),
        lookup(inserted(h, name, value), name) == Some(value),
        other != name ==> lookup(inserted(h, name, value), other) == lookup(h, other),
{
    let r = inserted(h, name, value);
    let i = position(h, name, 0);
    lemma_position(h, name, 0);
    lemma_position(h, other, 0);
    lemma_position(r, name, 0);
    lemma_position(r, other, 0);
    if i < h.len() {
        assert forall|a: int, b: int| 0 <= a < b < r.len() implies (#[trigger] r[a]).0 != (
        #[trigger] r[b]).0 by {
            assert(h[a].0 != h[b].0);
        }
        assert(r[i].0 == name);
    } else {
        assert(r[h.len() as int].0 == name);
        assert forall|a: int, b: int| 0 <= a < b < r.len() implies (#[trigger] r[a]).0 != (
        #[trigger] r[b]).0 by {
            if b < h.len() {
                assert(h[a].0 != h[b].0);
            }
        }
    }
    let pn = position(r, name, 0);
    assert(pn < r.len() && r[pn].1 == value) by {
        if i < h.len() {
            assert(r[i].0 == name);
        } else {
            assert(r[h.len() as int].0 == name);
        }
        if pn != (if i < h.len() {
            i
        } else {
            h.len() as int
        }) {
            assert(r[pn].0 == name);
        }
    }
    if other != name {
        let po = position(h, other, 0);
        let qo = position(r, other, 0);
        if po < h.len() {
            assert(r[po] == h[po]);
            assert(qo <= po);
            assert(h[qo].0 == other);
        } else {
            if qo < r.len() {
                assert(r[qo].0 == other);
                assert(qo < h.len());
                assert(h[qo].0 == other);
            }
        }
    }
}

/// What `position` finds: the index found holds the name, no index before
/// it does, and nothing is found only if no index holds it.
pub proof fn lemma_position(h: Fields, name: Seq<char>, from: int)
    requires
        0 <= from,
    ensures
        from <= position(h, name, from) || position(h, name, from) == h.len(),
        position(h, name, from) <= h.len(),
        position(h, name, from) < h.len() ==> h[position(h, name, from)].0 == name,
        forall|k: int|
            from <= k < position(h, name, from) && k < h.len() ==> (#[trigger] h[k]).0 != name,
    decreases h.len() - from,
{
    if from < h.len() && h[from].0 != name {
        lemma_position(h, name, from + 1);
    }
}

/// HTTP header fields: names with their values.
#[derive(Debug, Clone)]
pub struct Headers {
    entries: Vec<(String, String)>,
}

impl View for Headers {
    type V = Fields;

    closed spec fn view(&self) -> Fields {
        fields_of(self.entries@)
    }
}

impl Default for Headers {
    fn default() -> (h: Self)
        ensures
            h@ == Seq::<(Seq<char>, Seq<char>)>::empty(),
    {
        Headers::new()
    }
}

impl Headers {
    /// Create an empty map
    pub fn new() -> (h: Self)
        ensures
            h@ == Seq::<(Seq<char>, Seq<char>)>::empty(),
    {
        let h = Headers { entries: Vec::new() };
        h
    }

    /// The number of fields
    pub fn len(&self) -> (n: usize)
        ensures
            n == self@.len(),
    {
        self.entries.len()
    }

    /// Whether there is no field
    pub fn is_empty(&self) -> (r: bool)
        ensures
            r == (self@.len() == 0),
    {
        self.entries.len() == 0
    }

    fn find(&self, name: &str) -> (i: usize)
        ensures
            i == position(self@, name@, 0),
            i <= self.entries@.len(),
    {
        let mut i: usize = 0;
        while i < self.entries.len()
            invariant
                i <= self.entries@.len(),
                self@.len() == self.entries@.len(),
                position(self@, name@, 0) == position(self@, name@, i as int),
            decreases self.entries.len() - i,
        {
            if str_eq(self.entries[i].0.as_str(), name) {
                return i;
            }
            i += 1;
        }
        i
    }

    /// The value of the field `name`, if there is one. Names are compared
    /// as they are written.
    pub fn get(&self, name: &str) -> (r: Option<&String>)
        ensures
            match lookup(self@, name@) {
                Some(v) => r matches Some(s) && s@ == v,
                None => r is None,
            },
    {
        let i = self.find(name);
        if i < self.entries.len() {
            Some(&self.entries[i].1)
        } else {
            None
        }
    }

    /// Whether there is a field `name`
    pub fn contains_key(&self, name: &str) -> (r: bool)
        ensures
            r == lookup(self@, name@) is Some,
    {
        let i = self.find(name);
        i < self.entries.len()
    }

    /// The name and the value of the field at `index`, in the order in
    /// which the fields were first set
    pub fn entry(&self, index: usize) -> (r: (&String, &String))
        requires
            index < self@.len(),
        ensures
            r.0@ == self@[index as int].0,
            r.1@ == self@[index as int].1,
    {
        (&self.entries[index].0, &self.entries[index].1)
    }

    /// Set the field `name` to `value`
    pub fn insert(&mut self, name: String, value: String)
        ensures
            final(self)@ == inserted(old(self)@, name@, value@),
    {
        let i = self.find(name.as_str());
        if i < self.entries.len() {
            self.entries.set(i, (name, value));
        } else {
            self.entries.push((name, value));
        }
    }
}

impl Headers {
    /// A copy of the map
    pub fn copy(&self) -> (h: Headers)
        ensures
            h@ == self@,
    {
        let mut entries: Vec<(String, String)> = Vec::new();
        let mut i: usize = 0;
        while i < self.entries.len()
            invariant
                i <= self.entries@.len(),
                entries@.len() == i,
                forall|j: int|
                    0 <= j < i ==> (#[trigger] entries@[j]).0@ == self.entries@[j].0@
                        && entries@[j].1@ == self.entries@[j].1@,
            decreases self.entries.len() - i,
        {
            entries.push((self.entries[i].0.clone(), self.entries[i].1.clone()));
            i += 1;
        }
        let h = Headers { entries };
        h
    }
}

/// A copy of a vector of strings
pub fn copy_texts(v: &Vec<String>) -> (r: Vec<String>)
    ensures
        texts(r@) == texts(v@),
{
    let mut r: Vec<String> = Vec::new();
    let mut i: usize = 0;
    while i < v.len()
        invariant
            i <= v@.len(),
            r@.len() == i,
            forall|j: int| 0 <= j < i ==> (#[trigger] r@[j])@ == v@[j]@,
        decreases v.len() - i,
    {
        r.push(v[i].clone());
        i += 1;
    }
    r
}

/// A copy of an optional string
pub fn copy_text(s: &Option<String>) -> (r: Option<String>)
    ensures
        match s {
            Some(t) => r matches Some(c) && c@ == t@,
            None => r is None,
        },
{
    match s {
        Some(t) => Some(t.clone()),
        None => None,
    }
}

} // verus!
