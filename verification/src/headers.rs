//! An ordered, multi-valued header map whose names match without regard to
//! ASCII case.

use vstd::prelude::*;
use crate::text::{chars_of, eq_ignoring_case, same_ignoring_case};

verus! {

/// The mathematical model of a header map: its `(name, value)` entries in order.
pub type Entries = Seq<(Seq<char>, Seq<char>)>;

/// The value of the first entry of `entries` called `name`, if there is one.
pub open spec fn first_value(entries: Entries, name: Seq<char>) -> Option<Seq<char>>
    decreases entries.len(),
{
    if entries.len() == 0 {
        None
    } else if same_ignoring_case(entries[0].0, name) {
        Some(entries[0].1)
    } else {
        first_value(entries.drop_first(), name)
    }
}

/// The entries of `entries` that are not called `name`, in their order.
pub open spec fn without(entries: Entries, name: Seq<char>) -> Entries
    decreases entries.len(),
{
    if entries.len() == 0 {
        Seq::empty()
    } else if same_ignoring_case(entries.last().0, name) {
        without(entries.drop_last(), name)
    } else {
        without(entries.drop_last(), name).push(entries.last())
    }
}

/// `entries` with every entry called `name` replaced by a single last entry
/// `(name, value)`.
pub open spec fn with_only(entries: Entries, name: Seq<char>, value: Seq<char>) -> Entries {
    without(entries, name).push((name, value))
}

/// Some entry of `entries` is called `name`.
pub open spec fn has_name(entries: Entries, name: Seq<char>) -> bool {
    exists|i: int| 0 <= i < entries.len() && same_ignoring_case(#[trigger] entries[i].0, name)
}

/// An entry that no earlier entry shadows is the first of its name.
pub proof fn lemma_first_value_at(entries: Entries, name: Seq<char>, k: int)
    requires
        0 <= k < entries.len(),
        same_ignoring_case(entries[k].0, name),
        forall|j: int| 0 <= j < k ==> !same_ignoring_case(#[trigger] entries[j].0, name),
    ensures
        first_value(entries, name) == Some(entries[k].1),
    decreases k,
{
    if k > 0 {
        let rest = entries.drop_first();
        assert(rest[k - 1] == entries[k]);
        assert forall|j: int| 0 <= j < k - 1 implies !same_ignoring_case(
            #[trigger] rest[j].0,
            name,
        ) by {
            assert(rest[j] == entries[j + 1]);
        }
        lemma_first_value_at(rest, name, k - 1);
    }
}

/// A name that no entry has yields no value.
pub proof fn lemma_first_value_none(entries: Entries, name: Seq<char>)
    requires
        !has_name(entries, name),
    ensures
        first_value(entries, name) is None,
    decreases entries.len(),
{
    if entries.len() > 0 {
        let rest = entries.drop_first();
        assert(!same_ignoring_case(entries[0].0, name));
        assert forall|j: int| 0 <= j < rest.len() implies !same_ignoring_case(
            #[trigger] rest[j].0,
            name,
        ) by {
            assert(rest[j] == entries[j + 1]);
        }
        lemma_first_value_none(rest, name);
    }
}

/// `first_value` is `Some` exactly when the name occurs.
pub proof fn lemma_first_value_members(entries: Entries, name: Seq<char>)
    ensures
        first_value(entries, name) is Some <==> has_name(entries, name),
    decreases entries.len(),
{
    if entries.len() > 0 {
        let rest = entries.drop_first();
        lemma_first_value_members(rest, name);
        if same_ignoring_case(entries[0].0, name) {
            assert(has_name(entries, name));
        } else if has_name(rest, name) {
            let i = choose|i: int| 0 <= i < rest.len() && same_ignoring_case(
                #[trigger] rest[i].0,
                name,
            );
            assert(entries[i + 1] == rest[i]);
        } else if has_name(entries, name) {
            let i = choose|i: int| 0 <= i < entries.len() && same_ignoring_case(
                #[trigger] entries[i].0,
                name,
            );
            assert(rest[i - 1] == entries[i]);
        }
    }
}

/// No entry of `without(entries, name)` is called `name`.
pub proof fn lemma_without_drops(entries: Entries, name: Seq<char>)
    ensures
        !has_name(without(entries, name), name),
    decreases entries.len(),
{
    let out = without(entries, name);
    if entries.len() > 0 {
        let kept = without(entries.drop_last(), name);
        lemma_without_drops(entries.drop_last(), name);
        if has_name(out, name) {
            let i = choose|i: int| 0 <= i < out.len() && same_ignoring_case(
                #[trigger] out[i].0,
                name,
            );
            if i < kept.len() {
                assert(kept[i] == out[i]);
            }
        }
    }
}

/// An entry of another name stays in `without(entries, name)`.
pub proof fn lemma_without_keeps(entries: Entries, name: Seq<char>, k: int)
    requires
        0 <= k < entries.len(),
        !same_ignoring_case(entries[k].0, name),
    ensures
        without(entries, name).contains(entries[k]),
    decreases entries.len(),
{
    let out = without(entries, name);
    let front = entries.drop_last();
    let kept = without(front, name);
    if k == entries.len() - 1 {
        assert(out[out.len() - 1] == entries[k]);
    } else {
        assert(front[k] == entries[k]);
        lemma_without_keeps(front, name, k);
        let i = choose|i: int| 0 <= i < kept.len() && kept[i] == entries[k];
        assert(out[i] == entries[k]);
    }
}

/// Case-insensitive equality of names is symmetric and transitive.
pub proof fn lemma_same_name_equivalence(a: Seq<char>, b: Seq<char>, c: Seq<char>)
    ensures
        same_ignoring_case(a, a),
        same_ignoring_case(a, b) ==> same_ignoring_case(b, a),
        same_ignoring_case(a, b) && same_ignoring_case(b, c) ==> same_ignoring_case(a, c),
{
}

/// One header: a name and a value.
#[derive(Clone, Debug, PartialEq, Eq)]
struct Header {
    name: String,
    value: String,
}

impl View for Header {
    type V = (Seq<char>, Seq<char>);

    closed spec fn view(&self) -> (Seq<char>, Seq<char>) {
        (self.name@, self.value@)
    }
}

/// Headers in the order in which they were added. A name may occur several
/// times; names are matched without regard to ASCII case.
#[derive(Debug, PartialEq, Eq)]
pub struct HeaderMap {
    entries: Vec<Header>,
}

impl View for HeaderMap {
    type V = Entries;

    closed spec fn view(&self) -> Entries {
        Seq::new(self.entries@.len(), |i: int| self.entries@[i]@)
    }
}

impl Clone for HeaderMap {
    fn clone(&self) -> (out: Self)
        ensures
            out@ == self@,
    {
        let mut entries: Vec<Header> = Vec::new();
        let mut i: usize = 0;
        while i < self.entries.len()
            invariant
                i <= self.entries.len(),
                entries@.len() == i,
                forall|j: int| 0 <= j < i ==> entries@[j]@ == self.entries@[j]@,
            decreases self.entries.len() - i,
        {
            let h = &self.entries[i];
            entries.push(Header { name: h.name.clone(), value: h.value.clone() });
            i += 1;
        }
        let out = HeaderMap { entries };
        assert(out@ =~= self@);
        out
    }
}

impl HeaderMap {
    /// A map without entries.
    pub fn new() -> (out: Self)
        ensures
            out@ == Entries::empty(),
    {
        let out = HeaderMap { entries: Vec::new() };
        assert(out@ =~= Entries::empty());
        out
    }

    /// The number of entries.
    pub fn len(&self) -> (n: usize)
        ensures
            n == self@.len(),
    {
        self.entries.len()
    }

    /// Whether the map has no entry.
    pub fn is_empty(&self) -> (b: bool)
        ensures
            b == (self@.len() == 0),
    {
        self.entries.len() == 0
    }

    /// The name of entry `i`.
    pub fn name_at(&self, i: usize) -> (name: &String)
        requires
            i < self@.len(),
        ensures
            name@ == self@[i as int].0,
    {
        &self.entries[i].name
    }

    /// The value of entry `i`.
    pub fn value_at(&self, i: usize) -> (value: &String)
        requires
            i < self@.len(),
        ensures
            value@ == self@[i as int].1,
    {
        &self.entries[i].value
    }

    /// Adds an entry after all others, whatever names are present.
    pub fn append(&mut self, name: &str, value: &str)
        ensures
            final(self)@ == old(self)@.push((name@, value@)),
    {
        self.entries.push(Header { name: name.to_owned(), value: value.to_owned() });
        assert(self@ =~= old(self)@.push((name@, value@)));
    }

    /// The value of the first entry called `name`.
    pub fn get(&self, name: &str) -> (value: Option<String>)
        ensures
            value is Some == first_value(self@, name@) is Some,
            value matches Some(v) ==> first_value(self@, name@) == Some(v@),
    {
        let wanted = chars_of(name);
        let mut i: usize = 0;
        while i < self.entries.len()
            invariant
                i <= self.entries.len(),
                wanted@ == name@,
                forall|j: int| 0 <= j < i ==> !same_ignoring_case(#[trigger] self@[j].0, name@),
            decreases self.entries.len() - i,
        {
            let have = chars_of(self.entries[i].name.as_str());
            if eq_ignoring_case(&have, &wanted) {
                proof {
                    lemma_first_value_at(self@, name@, i as int);
                }
                return Some(self.entries[i].value.clone());
            }
            i += 1;
        }
        proof {
            lemma_first_value_none(self@, name@);
        }
        None
    }

    /// Whether some entry is called `name`.
    pub fn contains(&self, name: &str) -> (b: bool)
        ensures
            b == has_name(self@, name@),
    {
        proof {
            lemma_first_value_members(self@, name@);
        }
        self.get(name).is_some()
    }

    /// Removes every entry called `name`.
    pub fn remove(&mut self, name: &str)
        ensures
            final(self)@ == without(old(self)@, name@),
    {
        let wanted = chars_of(name);
        let mut kept: Vec<Header> = Vec::new();
        let mut i: usize = 0;
        let ghost before = self@;
        while i < self.entries.len()
            invariant
                i <= self.entries.len(),
                wanted@ == name@,
                before == self@,
                Seq::new(kept@.len(), |j: int| kept@[j]@) == without(
                    before.subrange(0, i as int),
                    name@,
                ),
            decreases self.entries.len() - i,
        {
            let h = &self.entries[i];
            let have = chars_of(h.name.as_str());
            let ghost shown = Seq::new(kept@.len(), |j: int| kept@[j]@);
            proof {
                assert(before.subrange(0, i + 1).drop_last() =~= before.subrange(0, i as int));
                assert(before.subrange(0, i + 1).last() == h@);
            }
            if !eq_ignoring_case(&have, &wanted) {
                kept.push(Header { name: h.name.clone(), value: h.value.clone() });
                assert(Seq::new(kept@.len(), |j: int| kept@[j]@) =~= shown.push(h@));
            }
            i += 1;
        }
        assert(before.subrange(0, i as int) =~= before);
        self.entries = kept;
        assert(self@ =~= Seq::new(kept@.len(), |j: int| kept@[j]@));
    }

    /// Replaces every entry called `name` by one entry `(name, value)`, which
    /// comes last.
    pub fn set(&mut self, name: &str, value: &str)
        ensures
            final(self)@ == with_only(old(self)@, name@, value@),
    {
        self.remove(name);
        self.append(name, value);
    }
}

} // verus!
