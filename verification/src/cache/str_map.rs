//! A map keyed by names, kept as a list of entries with distinct names.
use vstd::prelude::*;

use crate::text::str_equals;

verus! {

/// Whether no two entries have the same name.
pub open spec fn names_distinct<V>(s: Seq<(String, V)>) -> bool {
    forall|i: int, j: int| 0 <= i < s.len() && 0 <= j < s.len() && i != j ==> #[trigger] s[i].0@ != #[trigger] s[j].0@
}

/// Whether some entry has the name `k`.
pub open spec fn has_name<V>(s: Seq<(String, V)>, k: Seq<char>) -> bool {
    exists|i: int| 0 <= i < s.len() && #[trigger] s[i].0@ == k
}

/// The map of names to values that a list of entries stands for.
pub open spec fn entries_map<V>(s: Seq<(String, V)>) -> Map<Seq<char>, V> {
    Map::new(
        |k: Seq<char>| has_name(s, k),
        |k: Seq<char>| s[choose|i: int| 0 <= i < s.len() && #[trigger] s[i].0@ == k].1,
    )
}

proof fn lemma_entry_value<V>(s: Seq<(String, V)>, i: int)
    requires
        names_distinct(s),
        0 <= i < s.len(),
    ensures
        entries_map(s).dom().contains(s[i].0@),
        entries_map(s)[s[i].0@] == s[i].1,
{
    let k = s[i].0@;
    assert(has_name(s, k));
    let j = choose|j: int| 0 <= j < s.len() && #[trigger] s[j].0@ == k;
    assert(j == i);
}

/// A map from names to values.
#[derive(Debug)]
pub struct StrMap<V> {
    entries: Vec<(String, V)>,
}

impl<V> View for StrMap<V> {
    type V = Map<Seq<char>, V>;

    closed spec fn view(&self) -> Map<Seq<char>, V> {
        entries_map(self.entries@)
    }
}

impl<V> StrMap<V> {
    #[verifier::type_invariant]
    spec fn wf(self) -> bool {
        names_distinct(self.entries@)
    }

    /// An empty map.
    pub fn new() -> (r: StrMap<V>)
        ensures
            r@ == Map::<Seq<char>, V>::empty(),
    {
        let r = StrMap { entries: Vec::new() };
        assert(r@ =~= Map::<Seq<char>, V>::empty());
        r
    }

    /// The number of names in the map.
    pub fn len(&self) -> (r: usize)
        ensures
            r == self@.dom().len(),
    {
        proof {
            use_type_invariant(self);
            self.lemma_len();
        }
        self.entries.len()
    }

    proof fn lemma_len(&self)
        requires
            names_distinct(self.entries@),
        ensures
            self@.dom().finite(),
            self@.dom().len() == self.entries@.len(),
    {
        let s = self.entries@;
        let names = s.map_values(|e: (String, V)| e.0@);
        assert(self@.dom() =~= names.to_set()) by {
            assert forall|k: Seq<char>| self@.dom().contains(k) implies names.to_set().contains(k) by {
                let i = choose|i: int| 0 <= i < s.len() && #[trigger] s[i].0@ == k;
                assert(names[i] == k);
            }
            assert forall|k: Seq<char>| names.to_set().contains(k) implies self@.dom().contains(k) by {
                let i = choose|i: int| 0 <= i < names.len() && names[i] == k;
                assert(s[i].0@ == k);
            }
        }
        assert(names.no_duplicates()) by {
            assert forall|i: int, j: int| 0 <= i < names.len() && 0 <= j < names.len() && i != j implies names[i] != names[j] by {
                assert(s[i].0@ != s[j].0@);
            }
        }
        names.unique_seq_to_set();
    }

    /// The position of the entry named `key`, if there is one.
    fn find(&self, key: &str) -> (r: Option<usize>)
        ensures
            match r {
                Some(i) => i < self.entries@.len() && self.entries@[i as int].0@ == key@,
                None => !has_name(self.entries@, key@),
            },
    {
        let mut i: usize = 0;
        while i < self.entries.len()
            invariant
                i <= self.entries@.len(),
                forall|j: int| 0 <= j < i ==> #[trigger] self.entries@[j].0@ != key@,
            decreases self.entries@.len() - i,
        {
            if str_equals(self.entries[i].0.as_str(), key) {
                return Some(i);
            }
            i = i + 1;
        }
        None
    }

    /// Whether the map has a value under `key`.
    pub fn contains_key(&self, key: &str) -> (r: bool)
        ensures
            r == self@.dom().contains(key@),
    {
        self.find(key).is_some()
    }

    /// The value under `key`, if there is one.
    pub fn get(&self, key: &str) -> (r: Option<&V>)
        ensures
            self@.dom().contains(key@) ==> r == Some(&self@[key@]),
            !self@.dom().contains(key@) ==> r is None,
    {
        proof {
            use_type_invariant(self);
        }
        match self.find(key) {
            Some(i) => {
                proof {
                    lemma_entry_value(self.entries@, i as int);
                }
                Some(&self.entries[i].1)
            },
            None => None,
        }
    }

    /// Stores `value` under `key`, replacing the value it had.
    pub fn insert(&mut self, key: String, value: V)
        ensures
            final(self)@ == old(self)@.insert(key@, value),
    {
        proof {
            use_type_invariant(&*self);
        }
        let _ = self.remove(key.as_str());
        proof {
            use_type_invariant(&*self);
        }
        let ghost before = self.entries@;
        proof {
            assert(entries_map(before) == old(self)@.remove(key@));
            assert(!entries_map(before).dom().contains(key@));
            assert(!has_name(before, key@));
        }
        let mut entries: Vec<(String, V)> = Vec::new();
        std::mem::swap(&mut entries, &mut self.entries);
        entries.push((key, value));
        proof {
            let s = entries@;
            assert(names_distinct(s)) by {
                assert forall|i: int, j: int| 0 <= i < s.len() && 0 <= j < s.len() && i != j implies #[trigger] s[i].0@ != #[trigger] s[j].0@ by {
                    assert(s.len() == before.len() + 1);
                    if i == s.len() - 1 {
                        assert(s[j] == before[j]);
                        assert(s[i].0@ == key@);
                        assert(before[j].0@ != key@);
                    } else if j == s.len() - 1 {
                        assert(s[i] == before[i]);
                        assert(s[j].0@ == key@);
                        assert(before[i].0@ != key@);
                    } else {
                        assert(s[i] == before[i] && s[j] == before[j]);
                    }
                }
            }
            assert forall|k: Seq<char>| #[trigger] entries_map(s).dom().contains(k) == old(self)@.insert(key@, value).dom().contains(k) by {
                assert(entries_map(before).dom().contains(k) == has_name(before, k));
                if has_name(before, k) {
                    let i = choose|i: int| 0 <= i < before.len() && #[trigger] before[i].0@ == k;
                    assert(s[i] == before[i]);
                }
                if has_name(s, k) && k != key@ {
                    let i = choose|i: int| 0 <= i < s.len() && #[trigger] s[i].0@ == k;
                    assert(s[i] == before[i]);
                }
                if k == key@ {
                    assert(s[s.len() - 1].0@ == k);
                }
            }
            assert forall|k: Seq<char>| #[trigger] entries_map(s).dom().contains(k) implies entries_map(s)[k] == old(self)@.insert(key@, value)[k] by {
                let i = choose|i: int| 0 <= i < s.len() && #[trigger] s[i].0@ == k;
                lemma_entry_value(s, i);
                if i < s.len() - 1 {
                    assert(s[i] == before[i]);
                    lemma_entry_value(before, i);
                }
            }
            assert(entries_map(s) =~= old(self)@.insert(key@, value));
        }
        self.entries = entries;
    }

    /// Removes the value under `key` and returns it, if there was one.
    pub fn remove(&mut self, key: &str) -> (r: Option<V>)
        ensures
            final(self)@ == old(self)@.remove(key@),
            old(self)@.dom().contains(key@) ==> r == Some(old(self)@[key@]),
            !old(self)@.dom().contains(key@) ==> r is None,
    {
        proof {
            use_type_invariant(&*self);
        }
        match self.find(key) {
            Some(i) => {
                let ghost before = self.entries@;
                proof {
                    lemma_entry_value(before, i as int);
                }
                let mut entries: Vec<(String, V)> = Vec::new();
                std::mem::swap(&mut entries, &mut self.entries);
                let (_, value) = entries.remove(i);
                proof {
                    let s = entries@;
                    assert(names_distinct(s)) by {
                        assert forall|a: int, b: int| 0 <= a < s.len() && 0 <= b < s.len() && a != b implies #[trigger] s[a].0@ != #[trigger] s[b].0@ by {
                            let a0 = if a < i { a } else { a + 1 };
                            let b0 = if b < i { b } else { b + 1 };
                            assert(s[a] == before[a0] && s[b] == before[b0]);
                        }
                    }
                    assert forall|k: Seq<char>| #[trigger] entries_map(s).dom().contains(k) == old(self)@.remove(key@).dom().contains(k) by {
                        if has_name(s, k) {
                            let a = choose|a: int| 0 <= a < s.len() && #[trigger] s[a].0@ == k;
                            let a0 = if a < i { a } else { a + 1 };
                            assert(s[a] == before[a0]);
                        }
                        if has_name(before, k) && k != key@ {
                            let a0 = choose|a: int| 0 <= a < before.len() && #[trigger] before[a].0@ == k;
                            assert(a0 != i);
                            let a = if a0 < i { a0 } else { a0 - 1 };
                            assert(s[a] == before[a0]);
                        }
                    }
                    assert forall|k: Seq<char>| #[trigger] entries_map(s).dom().contains(k) implies entries_map(s)[k] == old(self)@.remove(key@)[k] by {
                        let a = choose|a: int| 0 <= a < s.len() && #[trigger] s[a].0@ == k;
                        let a0 = if a < i { a } else { a + 1 };
                        assert(s[a] == before[a0]);
                        lemma_entry_value(s, a);
                        lemma_entry_value(before, a0);
                    }
                    assert(entries_map(s) =~= old(self)@.remove(key@));
                }
                self.entries = entries;
                Some(value)
            },
            None => {
                proof {
                    assert(self@ =~= old(self)@.remove(key@));
                }
                None
            },
        }
    }
}

proof fn lemma_map_drop_last<V>(s: Seq<(String, V)>)
    requires
        names_distinct(s),
        s.len() > 0,
    ensures
        entries_map(s) == entries_map(s.drop_last()).insert(s.last().0@, s.last().1),
        !entries_map(s.drop_last()).dom().contains(s.last().0@),
{
    let t = s.drop_last();
    let n = s.len() - 1;
    assert(names_distinct(t)) by {
        assert forall|i: int, j: int| 0 <= i < t.len() && 0 <= j < t.len() && i != j implies #[trigger] t[i].0@ != #[trigger] t[j].0@ by {
            assert(t[i] == s[i] && t[j] == s[j]);
        }
    }
    assert(!has_name(t, s.last().0@)) by {
        if has_name(t, s.last().0@) {
            let i = choose|i: int| 0 <= i < t.len() && #[trigger] t[i].0@ == s.last().0@;
            assert(t[i] == s[i]);
            assert(s[i].0@ == s[n].0@);
        }
    }
    let m = entries_map(t).insert(s.last().0@, s.last().1);
    assert forall|k: Seq<char>| #[trigger] entries_map(s).dom().contains(k) == m.dom().contains(k) by {
        if has_name(s, k) && k != s.last().0@ {
            let i = choose|i: int| 0 <= i < s.len() && #[trigger] s[i].0@ == k;
            assert(i != n);
            assert(t[i] == s[i]);
        }
        if has_name(t, k) {
            let i = choose|i: int| 0 <= i < t.len() && #[trigger] t[i].0@ == k;
            assert(t[i] == s[i]);
        }
        if k == s.last().0@ {
            assert(s[n].0@ == k);
        }
    }
    assert forall|k: Seq<char>| #[trigger] entries_map(s).dom().contains(k) implies entries_map(s)[k] == m[k] by {
        let i = choose|i: int| 0 <= i < s.len() && #[trigger] s[i].0@ == k;
        lemma_entry_value(s, i);
        if i < n {
            assert(t[i] == s[i]);
            lemma_entry_value(t, i);
        }
    }
    assert(entries_map(s) =~= m);
}

impl<V> StrMap<V> {
    /// Stores every value of `other` under its name, replacing the values
    /// that this map had under the same names.
    pub fn extend(&mut self, other: StrMap<V>)
        ensures
            final(self)@ == old(self)@.union_prefer_right(other@),
    {
        proof {
            use_type_invariant(&other);
        }
        let StrMap { entries: mut rest } = other;
        let ghost whole = entries_map(rest@);
        while rest.len() > 0
            invariant
                names_distinct(rest@),
                self@.union_prefer_right(entries_map(rest@)) == old(self)@.union_prefer_right(whole),
            decreases rest@.len(),
        {
            let ghost before_rest = rest@;
            let ghost before_self = self@;
            proof {
                lemma_map_drop_last(before_rest);
            }
            let (key, value) = rest.pop().unwrap();
            proof {
                assert(rest@ =~= before_rest.drop_last());
                assert(names_distinct(rest@)) by {
                    assert forall|i: int, j: int| 0 <= i < rest@.len() && 0 <= j < rest@.len() && i != j implies #[trigger] rest@[i].0@ != #[trigger] rest@[j].0@ by {
                        assert(rest@[i] == before_rest[i] && rest@[j] == before_rest[j]);
                    }
                }
            }
            self.insert(key, value);
            proof {
                let m_rest = entries_map(rest@);
                assert(self@.union_prefer_right(m_rest) =~= before_self.union_prefer_right(
                    m_rest.insert(key@, value),
                ));
            }
        }
        proof {
            assert(entries_map(rest@) =~= Map::<Seq<char>, V>::empty());
            assert(self@.union_prefer_right(entries_map(rest@)) =~= self@);
        }
    }
}

} // verus!
