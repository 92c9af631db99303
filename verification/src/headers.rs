//! The header map of a request or a response: names with their values, kept
//! in the order in which the names first came in.

use vstd::prelude::*;
use crate::text::str_eq;

verus! {

/// Whether some field of `fields` has the name `name`.
pub open spec fn has_name(fields: Seq<(Seq<char>, Seq<char>)>, name: Seq<char>) -> bool {
    exists|i: int| 0 <= i < fields.len() && (#[trigger] fields[i]).0 == name
}

/// The place of a field of `fields` whose name is `name`.
pub open spec fn position(fields: Seq<(Seq<char>, Seq<char>)>, name: Seq<char>) -> int {
    choose|i: int| 0 <= i < fields.len() && (#[trigger] fields[i]).0 == name
}

/// No name occurs in two fields.
pub open spec fn distinct_names(fields: Seq<(Seq<char>, Seq<char>)>) -> bool {
    forall|i: int, j: int|
        0 <= i < j < fields.len() ==> (#[trigger] fields[i]).0 != (#[trigger] fields[j]).0
}

/// The value that `fields` holds under `name`.
pub open spec fn lookup(fields: Seq<(Seq<char>, Seq<char>)>, name: Seq<char>) -> Option<Seq<char>> {
    if has_name(fields, name) {
        Some(fields[position(fields, name)].1)
    } else {
        None
    }
}

/// `fields` after `name` is given `value`: a name that is already there keeps
/// its place and takes the new value; a new name goes to the end.
pub open spec fn insert_field(
    fields: Seq<(Seq<char>, Seq<char>)>,
    name: Seq<char>,
    value: Seq<char>,
) -> Seq<(Seq<char>, Seq<char>)> {
    if has_name(fields, name) {
        fields.update(position(fields, name), (name, value))
    } else {
        fields.push((name, value))
    }
}

/// Inserting keeps names distinct.
pub proof fn lemma_insert_keeps_names_distinct(
    fields: Seq<(Seq<char>, Seq<char>)>,
    name: Seq<char>,
    value: Seq<char>,
)
    requires
        distinct_names(fields),
    ensures
        distinct_names(insert_field(fields, name, value)),
{
    let after = insert_field(fields, name, value);
    if has_name(fields, name) {
        let p = position(fields, name);
        assert forall|i: int, j: int| 0 <= i < j < after.len() implies (#[trigger] after[i]).0 != (
        #[trigger] after[j]).0 by {
            assert(after[i].0 == fields[i].0);
            assert(after[j].0 == fields[j].0);
        }
    } else {
        assert forall|i: int, j: int| 0 <= i < j < after.len() implies (#[trigger] after[i]).0 != (
        #[trigger] after[j]).0 by {
            if j == fields.len() {
                assert(after[i] == fields[i]);
            } else {
                assert(after[i] == fields[i]);
                assert(after[j] == fields[j]);
            }
        }
    }
}

/// After an insertion the name is found with the value given, and every
/// other name is found as before.
pub proof fn lemma_lookup_after_insert(
    fields: Seq<(Seq<char>, Seq<char>)>,
    name: Seq<char>,
    value: Seq<char>,
    other: Seq<char>,
)
    requires
        distinct_names(fields),
    ensures
        lookup(insert_field(fields, name, value), name) == Some(value),
        other != name ==> lookup(insert_field(fields, name, value), other) == lookup(fields, other),
{
    let after = insert_field(fields, name, value);
    lemma_insert_keeps_names_distinct(fields, name, value);
    let at = if has_name(fields, name) {
        position(fields, name)
    } else {
        fields.len() as int
    };
    assert(after[at] == (name, value));
    assert(has_name(after, name));
    assert(position(after, name) == at) by {
        let q = position(after, name);
        if q < at {
            assert(after[q].0 != after[at].0);
        } else if at < q {
            assert(after[at].0 != after[q].0);
        }
    }
    if other != name {
        if has_name(fields, other) {
            let p = position(fields, other);
            assert(after[p] == fields[p]);
            assert(has_name(after, other));
            let q = position(after, other);
            if q < p {
                assert(after[q].0 != after[p].0);
            } else if p < q {
                assert(after[p].0 != after[q].0);
            }
        } else {
            if has_name(after, other) {
                let q = position(after, other);
                assert(q != at);
                assert(after[q] == fields[q]);
                assert(has_name(fields, other));
            }
        }
    }
}

/// A header map: each name once, in the order in which the names were
/// first inserted.
#[derive(Debug)]
pub struct HeaderMap {
    entries: Vec<(String, String)>,
}

impl View for HeaderMap {
    type V = Seq<(Seq<char>, Seq<char>)>;

    closed spec fn view(&self) -> Seq<(Seq<char>, Seq<char>)> {
        fields_of(self.entries@)
    }
}

/// The names and values of `entries` as character sequences.
spec fn fields_of(entries: Seq<(String, String)>) -> Seq<(Seq<char>, Seq<char>)> {
    entries.map_values(|e: (String, String)| (e.0@, e.1@))
}

impl HeaderMap {
    #[verifier::type_invariant]
    spec fn names_are_distinct(self) -> bool {
        distinct_names(self@)
    }

    /// The empty map.
    pub fn new() -> (map: Self)
        ensures
            map@ == Seq::<(Seq<char>, Seq<char>)>::empty(),
    {
        let map = HeaderMap { entries: Vec::new() };
        assert(map@ =~= Seq::<(Seq<char>, Seq<char>)>::empty());
        map
    }

    /// The number of names in the map.
    pub fn len(&self) -> (n: usize)
        ensures
            n == self@.len(),
            distinct_names(self@),
    {
        proof {
            use_type_invariant(self);
        }
        self.entries.len()
    }

    /// The name at place `i`.
    pub fn name_at(&self, i: usize) -> (name: &String)
        requires
            i < self@.len(),
        ensures
            name@ == self@[i as int].0,
    {
        &self.entries[i].0
    }

    /// The value at place `i`.
    pub fn value_at(&self, i: usize) -> (value: &String)
        requires
            i < self@.len(),
        ensures
            value@ == self@[i as int].1,
    {
        &self.entries[i].1
    }

    /// The place of `name`, if the map holds it.
    fn find(&self, name: &str) -> (found: Option<usize>)
        ensures
            found is Some == has_name(self@, name@),
            found matches Some(i) ==> i == position(self@, name@) && i < self@.len(),
    {
        proof {
            use_type_invariant(self);
        }
        let mut i: usize = 0;
        while i < self.entries.len()
            invariant
                i <= self@.len(),
                self@.len() == self.entries@.len(),
                distinct_names(self@),
                forall|j: int| 0 <= j < i ==> (#[trigger] self@[j]).0 != name@,
            decreases self@.len() - i,
        {
            if str_eq(self.entries[i].0.as_str(), name) {
                proof {
                    assert(self@[i as int].0 == name@);
                    let q = position(self@, name@);
                    if i < q {
                        assert(self@[i as int].0 != self@[q].0);
                    }
                }
                return Some(i);
            }
            i += 1;
        }
        None
    }

    /// The value held under `name`.
    pub fn get(&self, name: &str) -> (value: Option<&String>)
        ensures
            value is Some == lookup(self@, name@) is Some,
            value matches Some(v) ==> lookup(self@, name@) == Some(v@),
    {
        match self.find(name) {
            Some(i) => Some(&self.entries[i].1),
            None => None,
        }
    }

    /// Gives `name` the value `value`: in place if the map holds the name,
    /// at the end if it does not.
    pub fn insert(&mut self, name: String, value: String)
        ensures
            final(self)@ == insert_field(old(self)@, name@, value@),
            distinct_names(final(self)@),
    {
        proof {
            use_type_invariant(&*self);
            lemma_insert_keeps_names_distinct(self@, name@, value@);
        }
        let ghost before = self@;
        let found = self.find(name.as_str());
        let ghost entry = (name@, value@);
        // the entries change outside the map, which is whole at every step
        let mut entries: Vec<(String, String)> = Vec::new();
        core::mem::swap(&mut self.entries, &mut entries);
        match found {
            Some(i) => {
                entries.set(i, (name, value));
            },
            None => {
                entries.push((name, value));
            },
        }
        assert(fields_of(entries@) =~= insert_field(before, entry.0, entry.1));
        self.entries = entries;
    }
}

} // verus!
