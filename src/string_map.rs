use vstd::prelude::*;

verus! {

/// A map from string keys to string values, held as a list of entries
/// whose keys are pairwise distinct.
#[derive(Debug)]
pub struct StringMap {
    entries: Vec<(String, String)>,
}

/// Whether some entry of `entries` has key `k`.
pub open spec fn has_key(entries: Seq<(String, String)>, k: Seq<char>) -> bool {
    exists|i: int| 0 <= i < entries.len() && (#[trigger] entries[i]).0@ == k
}

/// The character sequences that a list of strings holds.
pub open spec fn views_of(v: Seq<String>) -> Seq<Seq<char>> {
    v.map_values(|s: String| s@)
}

/// Whether `v` holds a string equal to `s`.
pub fn contains_string(v: &Vec<String>, s: &String) -> (r: bool)
    ensures
        r == views_of(v@).contains(s@),
{
    let mut i: usize = 0;
    while i < v.len()
        invariant
            i <= v@.len(),
            forall|j: int| 0 <= j < i ==> (#[trigger] v@[j])@ != s@,
        decreases v@.len() - i,
    {
        if v[i] == *s {
            assert(views_of(v@)[i as int] == s@);
            return true;
        }
        i = i + 1;
    }
    assert forall|j: int| 0 <= j < views_of(v@).len() implies views_of(v@)[j] != s@ by {
        assert(v@[j]@ != s@);
    }
    false
}

impl StringMap {
    /// The entries, in the order they were first inserted.
    pub closed spec fn entries(&self) -> Seq<(String, String)> {
        self.entries@
    }

    /// No two entries share a key.
    #[verifier::type_invariant]
    pub closed spec fn wf(&self) -> bool {
        forall|i: int, j: int|
            0 <= i < self.entries().len() && 0 <= j < self.entries().len() && i != j
                ==> (#[trigger] self.entries()[i]).0@ != (#[trigger] self.entries()[j]).0@
    }

    /// The map that the entries describe.
    pub open spec fn view(&self) -> Map<Seq<char>, Seq<char>> {
        Map::new(
            |k: Seq<char>| has_key(self.entries(), k),
            |k: Seq<char>|
                self.entries()[choose|i: int|
                    0 <= i < self.entries().len() && (#[trigger] self.entries()[i]).0@ == k].1@,
        )
    }

    /// The distinct values that the map holds.
    pub open spec fn value_set(&self) -> Set<Seq<char>> {
        self@.values()
    }

    /// The values of the entries.
    closed spec fn entry_values(&self) -> Set<Seq<char>> {
        Set::new(
            |v: Seq<char>|
                exists|i: int| 0 <= i < self.entries().len() && (#[trigger] self.entries()[i]).1@ == v,
        )
    }

    proof fn lemma_entry_values(&self)
        requires
            self.wf(),
        ensures
            self.entry_values() == self.value_set(),
    {
        assert forall|x: Seq<char>| self.entry_values().contains(x) implies self@.values().contains(x) by {
            let i = choose|i: int| 0 <= i < self.entries().len() && (#[trigger] self.entries()[i]).1@ == x;
            self.lemma_lookup(i);
            assert(self@.dom().contains(self.entries()[i].0@));
        }
        assert forall|x: Seq<char>| self@.values().contains(x) implies self.entry_values().contains(x) by {
            let k = choose|k: Seq<char>| #[trigger] self@.dom().contains(k) && self@[k] == x;
            let i = choose|i: int| 0 <= i < self.entries().len() && (#[trigger] self.entries()[i]).0@ == k;
            self.lemma_lookup(i);
            assert(self.entries()[i].1@ == x);
        }
        assert(self.entry_values() =~= self.value_set());
    }

    proof fn lemma_lookup(&self, i: int)
        requires
            self.wf(),
            0 <= i < self.entries().len(),
        ensures
            self@.contains_key(self.entries()[i].0@),
            self@[self.entries()[i].0@] == self.entries()[i].1@,
    {
        let k = self.entries()[i].0@;
        assert(has_key(self.entries(), k));
        let j = choose|j: int| 0 <= j < self.entries().len() && (#[trigger] self.entries()[j]).0@ == k;
        assert(i == j);
    }

    /// An empty map.
    pub fn new() -> (r: StringMap)
        ensures
            r@ == Map::<Seq<char>, Seq<char>>::empty(),
    {
        let r = StringMap { entries: Vec::new() };
        assert(r@ =~= Map::<Seq<char>, Seq<char>>::empty());
        r
    }

    /// The number of keys.
    pub fn len(&self) -> (r: usize)
        ensures
            r == self@.dom().len(),
    {
        proof {
            use_type_invariant(self);
            self.lemma_dom_len();
        }
        self.entries.len()
    }

    proof fn lemma_dom_len(&self)
        requires
            self.wf(),
        ensures
            self@.dom().len() == self.entries().len(),
            self@.dom().finite(),
    {
        let keys = self.entries().map_values(|e: (String, String)| e.0@);
        assert forall|i: int, j: int| 0 <= i < keys.len() && 0 <= j < keys.len() && i != j
            implies keys[i] != keys[j] by {
            assert(self.entries()[i].0@ != self.entries()[j].0@);
        }
        assert(keys.no_duplicates());
        assert(self@.dom() =~= keys.to_set()) by {
            assert forall|k: Seq<char>| self@.dom().contains(k) implies keys.to_set().contains(k) by {
                let i = choose|i: int| 0 <= i < self.entries().len() && (#[trigger] self.entries()[i]).0@ == k;
                assert(keys[i] == k);
            }
            assert forall|k: Seq<char>| keys.to_set().contains(k) implies self@.dom().contains(k) by {
                let i = choose|i: int| 0 <= i < keys.len() && keys[i] == k;
                assert(self.entries()[i].0@ == k);
            }
        }
        keys.unique_seq_to_set();
    }

    /// The value stored under `key`, if any.
    pub fn get(&self, key: &String) -> (r: Option<&String>)
        ensures
            r is Some <==> self@.contains_key(key@),
            r is Some ==> r->Some_0@ == self@[key@],
    {
        proof {
            use_type_invariant(self);
        }
        let mut i: usize = 0;
        while i < self.entries.len()
            invariant
                self.wf(),
                i <= self.entries@.len(),
                forall|j: int| 0 <= j < i ==> (#[trigger] self.entries@[j]).0@ != key@,
            decreases self.entries@.len() - i,
        {
            if self.entries[i].0 == *key {
                proof {
                    self.lemma_lookup(i as int);
                }
                return Some(&self.entries[i].1);
            }
            i = i + 1;
        }
        None
    }

    /// Each distinct value once, in the order of its first entry.
    pub fn distinct_values(&self) -> (r: Vec<String>)
        ensures
            views_of(r@).no_duplicates(),
            views_of(r@).to_set() == self.value_set(),
    {
        proof {
            use_type_invariant(self);
            self.lemma_entry_values();
        }
        let mut r: Vec<String> = Vec::new();
        let mut i: usize = 0;
        while i < self.entries.len()
            invariant
                i <= self.entries@.len(),
                views_of(r@).no_duplicates(),
                forall|x: Seq<char>| views_of(r@).contains(x) <==>
                    exists|j: int| 0 <= j < i && (#[trigger] self.entries@[j]).1@ == x,
            decreases self.entries@.len() - i,
        {
            let ghost prev = r@;
            if !contains_string(&r, &self.entries[i].1) {
                r.push(self.entries[i].1.clone());
                proof {
                    assert(views_of(r@) =~= views_of(prev).push(self.entries@[i as int].1@));
                }
            }
            proof {
                assert forall|x: Seq<char>| views_of(r@).contains(x) <==>
                    exists|j: int| 0 <= j < i + 1 && (#[trigger] self.entries@[j]).1@ == x by {
                    if views_of(r@).contains(x) && x != self.entries@[i as int].1@ {
                        assert(views_of(prev).contains(x));
                    }
                    if exists|j: int| 0 <= j < i + 1 && (#[trigger] self.entries@[j]).1@ == x {
                        let j = choose|j: int| 0 <= j < i + 1 && (#[trigger] self.entries@[j]).1@ == x;
                        if j < i {
                            assert(views_of(prev).contains(x));
                            let t = choose|t: int| 0 <= t < prev.len() && views_of(prev)[t] == x;
                            assert(views_of(r@)[t] == x);
                        } else {
                            if views_of(prev).contains(x) {
                                let t = choose|t: int| 0 <= t < prev.len() && views_of(prev)[t] == x;
                                assert(views_of(r@)[t] == x);
                            } else {
                                assert(views_of(r@)[r@.len() - 1] == x);
                            }
                        }
                    }
                }
            }
            i = i + 1;
        }
        assert(views_of(r@).to_set() =~= self.entry_values());
        r
    }

    /// Stores `value` under `key`, replacing what was stored there before.
    pub fn insert(&mut self, key: String, value: String)
        ensures
            final(self)@ == old(self)@.insert(key@, value@),
    {
        let ghost k = key@;
        let ghost v = value@;
        proof {
            use_type_invariant(&*self);
        }
        let ghost before = *self;
        let mut taken = StringMap { entries: Vec::new() };
        std::mem::swap(self, &mut taken);
        let mut entries = taken.entries;
        let mut i: usize = 0;
        let mut found = false;
        while i < entries.len()
            invariant_except_break
                !found,
            invariant
                before.wf(),
                k == key@,
                v == value@,
                entries@ == before.entries(),
                i <= entries@.len(),
                forall|j: int| 0 <= j < i ==> (#[trigger] entries@[j]).0@ != k,
            ensures
                found ==> i < entries@.len() && entries@[i as int].0@ == k,
                !found ==> i == entries@.len(),
            decreases entries@.len() - i,
        {
            if entries[i].0 == key {
                found = true;
                break;
            }
            i = i + 1;
        }
        if found {
            entries.set(i, (key, value));
        } else {
            entries.push((key, value));
        }
        proof {
            let n = before.entries().len() as int;
            assert(0 <= i <= n);
            assert(entries@[i as int].0@ == k && entries@[i as int].1@ == v);
            assert forall|j: int| 0 <= j < n && j != i implies (#[trigger] entries@[j]) == before.entries()[j] by {}
            assert forall|j: int| 0 <= j < entries@.len() && j != i implies (#[trigger] entries@[j]).0@ != k by {
                if found {
                    assert(before.entries()[i as int].0@ == k);
                }
            }
            assert forall|a: int, b: int|
                0 <= a < entries@.len() && 0 <= b < entries@.len() && a != b
                    implies (#[trigger] entries@[a]).0@ != (#[trigger] entries@[b]).0@ by {
                if a != i && b != i {
                    assert(before.entries()[a].0@ != before.entries()[b].0@);
                }
            }
        }
        *self = StringMap { entries };
        proof {
            self.lemma_lookup(i as int);
            assert(self@ =~= before@.insert(k, v)) by {
                assert forall|x: Seq<char>| #[trigger] self@.contains_key(x)
                    == before@.insert(k, v).contains_key(x) by {
                    if x != k {
                        if has_key(before.entries(), x) {
                            let j = choose|j: int| 0 <= j < before.entries().len()
                                && (#[trigger] before.entries()[j]).0@ == x;
                            assert(self.entries()[j].0@ == x);
                        }
                        if has_key(self.entries(), x) {
                            let j = choose|j: int| 0 <= j < self.entries().len()
                                && (#[trigger] self.entries()[j]).0@ == x;
                            assert(before.entries()[j].0@ == x);
                        }
                    }
                }
                assert forall|x: Seq<char>| #[trigger] self@.contains_key(x) && x != k
                    implies self@[x] == before@[x] by {
                    let j = choose|j: int| 0 <= j < self.entries().len()
                        && (#[trigger] self.entries()[j]).0@ == x;
                    self.lemma_lookup(j);
                    before.lemma_lookup(j);
                }
            }
        }
    }
}

} // verus!
