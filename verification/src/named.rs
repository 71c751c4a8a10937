//! A small map from names to values that remembers insertion order.
use vstd::prelude::*;

verus! {

/// No name occurs twice among the entries.
pub open spec fn names_unique<V>(s: Seq<(Seq<char>, V)>) -> bool {
    forall|i: int, j: int|
        0 <= i < s.len() && 0 <= j < s.len() && i != j ==> #[trigger] s[i].0 != #[trigger] s[j].0
}

/// Position of the entry named `name`, or -1 where there is none.
pub open spec fn name_position<V>(s: Seq<(Seq<char>, V)>, name: Seq<char>) -> int {
    if exists|i: int| 0 <= i < s.len() && #[trigger] s[i].0 == name {
        choose|i: int| 0 <= i < s.len() && #[trigger] s[i].0 == name
    } else {
        -1
    }
}

/// The entries after inserting `value` under `name`: an existing entry of
/// that name gets the new value in place; otherwise the entry is appended.
pub open spec fn inserted<V>(s: Seq<(Seq<char>, V)>, name: Seq<char>, value: V) -> Seq<
    (Seq<char>, V),
> {
    let p = name_position(s, name);
    if p >= 0 {
        s.update(p, (name, value))
    } else {
        s.push((name, value))
    }
}

/// A map from names to values, kept as a list of entries in insertion order
/// in which no name occurs twice.
#[derive(Debug)]
pub struct NamedMap<V: View> {
    entries: Vec<(String, V)>,
}

impl<V: View> View for NamedMap<V> {
    type V = Seq<(Seq<char>, V::V)>;

    closed spec fn view(&self) -> Seq<(Seq<char>, V::V)> {
        self.entries@.map_values(|e: (String, V)| (e.0@, e.1@))
    }
}

impl<V: View> NamedMap<V> {
    /// No name occurs twice.
    #[verifier::type_invariant]
    spec fn well_formed(self) -> bool {
        names_unique(self@)
    }

    /// Creates an empty map.
    pub fn new() -> (m: Self)
        ensures
            m@ == Seq::<(Seq<char>, V::V)>::empty(),
    {
        let m = NamedMap { entries: Vec::new() };
        assert(m@ =~= Seq::<(Seq<char>, V::V)>::empty());
        m
    }

    /// Number of entries (no name occurs twice among them).
    pub fn len(&self) -> (n: usize)
        ensures
            n == self@.len(),
            names_unique(self@),
    {
        proof {
            use_type_invariant(self);
        }
        self.entries.len()
    }

    /// Name of the entry at position `i`.
    pub fn name_at(&self, i: usize) -> (k: &String)
        requires
            i < self@.len(),
        ensures
            k@ == self@[i as int].0,
    {
        &self.entries[i].0
    }

    /// Value of the entry at position `i`.
    pub fn value_at(&self, i: usize) -> (v: &V)
        requires
            i < self@.len(),
        ensures
            v@ == self@[i as int].1,
    {
        &self.entries[i].1
    }

    /// Inserts `value` under `name`, replacing the value of an existing entry
    /// of that name in place, or appending a new entry.
    pub fn insert(&mut self, name: String, value: V)
        ensures
            final(self)@ == inserted(old(self)@, name@, value@),
    {
        proof {
            use_type_invariant(&*self);
        }
        let ghost old_view = self@;
        let mut entries: Vec<(String, V)> = Vec::new();
        std::mem::swap(&mut entries, &mut self.entries);
        assert(entries@.map_values(|e: (String, V)| (e.0@, e.1@)) == old_view);
        let n = entries.len();
        let mut i: usize = 0;
        while i < n
            invariant
                n == entries@.len(),
                0 <= i <= n,
                entries@.map_values(|e: (String, V)| (e.0@, e.1@)) == old_view,
                forall|j: int| 0 <= j < i ==> #[trigger] old_view[j].0 != name@,
            ensures
                0 <= i <= n,
                i < n ==> old_view[i as int].0 == name@,
                forall|j: int| 0 <= j < i ==> #[trigger] old_view[j].0 != name@,
            decreases n - i,
        {
            if entries[i].0 == name {
                assert(old_view[i as int] == (entries@[i as int].0@, entries@[i as int].1@));
                break;
            }
            i = i + 1;
        }
        if i < n {
            assert(old_view[i as int].0 == name@);
            let ghost p = name_position(old_view, name@);
            assert(p == i) by {
                assert(0 <= p < old_view.len() && old_view[p].0 == name@);
                if p != i {
                    assert(names_unique(old_view));
                }
            }
            entries.set(i, (name, value));
            assert(entries@.map_values(|e: (String, V)| (e.0@, e.1@)) =~= inserted(old_view, name@, value@));
        } else {
            assert(name_position(old_view, name@) == -1);
            entries.push((name, value));
            assert(entries@.map_values(|e: (String, V)| (e.0@, e.1@)) =~= inserted(old_view, name@, value@));
        }
        self.entries = entries;
    }
}

impl<V: View + Clone> Clone for NamedMap<V> {
    /// Copies the map: the same names in the same order, each value cloned.
    fn clone(&self) -> (c: Self)
        ensures
            c@.len() == self@.len(),
            forall|i: int| 0 <= i < self@.len() ==> (#[trigger] c@[i]).0 == self@[i].0,
    {
        proof {
            use_type_invariant(self);
        }
        let n = self.entries.len();
        let mut entries: Vec<(String, V)> = Vec::new();
        let mut i: usize = 0;
        while i < n
            invariant
                n == self.entries@.len(),
                0 <= i <= n,
                entries@.len() == i,
                names_unique(self@),
                forall|j: int| 0 <= j < i ==> (#[trigger] entries@[j]).0@ == self.entries@[j].0@,
            decreases n - i,
        {
            let name = self.entries[i].0.clone();
            let value = self.entries[i].1.clone();
            entries.push((name, value));
            i = i + 1;
        }
        let ghost v = entries@.map_values(|e: (String, V)| (e.0@, e.1@));
        assert(names_unique(v)) by {
            assert forall|a: int, b: int|
                0 <= a < v.len() && 0 <= b < v.len() && a != b implies #[trigger] v[a].0
                != #[trigger] v[b].0 by {
                assert(v[a].0 == self@[a].0);
                assert(v[b].0 == self@[b].0);
            }
        }
        NamedMap { entries }
    }
}

/// Inserting under a name that no entry has appends the entry, and the
/// names stay unique.
pub proof fn lemma_insert_new_name<V>(s: Seq<(Seq<char>, V)>, name: Seq<char>, value: V)
    requires
        names_unique(s),
        forall|j: int| 0 <= j < s.len() ==> #[trigger] s[j].0 != name,
    ensures
        inserted(s, name, value) == s.push((name, value)),
        names_unique(s.push((name, value))),
{
    assert(name_position(s, name) == -1);
}

} // verus!
