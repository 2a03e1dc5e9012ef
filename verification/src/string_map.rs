//! A small map from strings to strings, kept in insertion order.

use vstd::prelude::*;

verus! {

/// Index of the first element of `keys` equal to `k`, or `keys.len()` if there is none.
spec fn first_slot(keys: Seq<Seq<char>>, k: Seq<char>) -> int
    decreases keys.len(),
{
    if keys.len() == 0 {
        0
    } else if keys[0] == k {
        0
    } else {
        1 + first_slot(keys.skip(1), k)
    }
}

/// A finite map from string keys to string values.
///
/// Entries are kept in the order in which their keys were first inserted, and no key
/// occurs twice.
#[derive(Debug, PartialEq, Eq)]
pub struct StringMap {
    keys: Vec<String>,
    values: Vec<String>,
}

impl View for StringMap {
    type V = Map<Seq<char>, Seq<char>>;

    closed spec fn view(&self) -> Map<Seq<char>, Seq<char>> {
        Map::new(
            |k: Seq<char>| first_slot(self.key_seq(), k) < self.keys.len(),
            |k: Seq<char>| self.values[first_slot(self.key_seq(), k)]@,
        )
    }
}

impl StringMap {
    #[verifier::type_invariant]
    closed spec fn distinct_keys(&self) -> bool {
        &&& self.keys.len() == self.values.len()
        &&& forall|i: int, j: int|
            0 <= i < j < self.keys.len() ==> (#[trigger] self.keys[i])@ != (#[trigger] self.keys[j])@
    }

    /// The keys, in insertion order.
    pub closed spec fn key_seq(&self) -> Seq<Seq<char>> {
        self.keys@.map_values(|s: String| s@)
    }

    /// A map without entries.
    pub fn new() -> (m: StringMap)
        ensures
            m@ == Map::<Seq<char>, Seq<char>>::empty(),
            m.key_seq() == Seq::<Seq<char>>::empty(),
    {
        let m = StringMap { keys: Vec::new(), values: Vec::new() };
        assert(m.key_seq() =~= Seq::<Seq<char>>::empty());
        assert(m@ =~= Map::<Seq<char>, Seq<char>>::empty());
        m
    }

    /// Number of entries. The keys are those of the map, each once.
    pub fn len(&self) -> (n: usize)
        ensures
            n == self.key_seq().len(),
            n == self@.dom().len(),
            self@.dom().finite(),
            self.key_seq().no_duplicates(),
            self@.dom() == self.key_seq().to_set(),
    {
        proof {
            use_type_invariant(self);
            let keys = self.key_seq();
            assert forall|k: Seq<char>| self@.dom().contains(k) == keys.to_set().contains(k) by {
                lemma_first_slot_range(keys, k);
                if first_slot(keys, k) < keys.len() {
                    lemma_first_slot_is_key(keys, k);
                }
                if keys.contains(k) {
                    let i = choose|i: int| 0 <= i < keys.len() && keys[i] == k;
                    lemma_first_slot_bound(keys, k, i);
                }
            }
            assert(self@.dom() =~= keys.to_set());
            assert forall|i: int, j: int| 0 <= i < keys.len() && 0 <= j < keys.len() && i != j implies keys[i]
                != keys[j] by {
                assert(keys[i] == self.keys[i]@ && keys[j] == self.keys[j]@);
            }
            keys.unique_seq_to_set();
        }
        self.keys.len()
    }

    /// Index of the entry with key `key`, or the number of entries if there is none.
    fn find(&self, key: &str) -> (slot: usize)
        ensures
            slot == first_slot(self.key_seq(), key@),
            slot <= self.keys.len(),
    {
        let probe = key.to_owned();
        let mut i: usize = 0;
        assert(self.key_seq().skip(0) =~= self.key_seq());
        while i < self.keys.len()
            invariant
                i <= self.keys.len(),
                probe@ == key@,
                first_slot(self.key_seq(), key@) == i + first_slot(self.key_seq().skip(i as int), key@),
            decreases self.keys.len() - i,
        {
            if self.keys[i] == probe {
                return i;
            }
            assert(self.key_seq().skip(i as int).skip(1) =~= self.key_seq().skip(i + 1));
            i += 1;
        }
        i
    }

    /// Whether `key` has an entry.
    pub fn contains_key(&self, key: &str) -> (b: bool)
        ensures
            b == self@.contains_key(key@),
    {
        self.find(key) < self.keys.len()
    }

    /// The value stored under `key`, if any.
    pub fn get(&self, key: &str) -> (v: Option<&String>)
        ensures
            match v {
                Some(s) => self@.contains_key(key@) && self@[key@] == s@,
                None => !self@.contains_key(key@),
            },
    {
        let slot = self.find(key);
        proof {
            use_type_invariant(self);
        }
        if slot < self.keys.len() {
            Some(&self.values[slot])
        } else {
            None
        }
    }

    /// The key of the entry at `index`, in insertion order.
    pub fn key_at(&self, index: usize) -> (k: &String)
        requires
            index < self.key_seq().len(),
        ensures
            k@ == self.key_seq()[index as int],
            self@.contains_key(k@),
    {
        proof {
            lemma_first_slot_bound(self.key_seq(), self.keys[index as int]@, index as int);
        }
        &self.keys[index]
    }

    /// The value of the entry at `index`, in insertion order.
    pub fn value_at(&self, index: usize) -> (v: &String)
        requires
            index < self.key_seq().len(),
        ensures
            self@.contains_key(self.key_seq()[index as int]),
            v@ == self@[self.key_seq()[index as int]],
    {
        proof {
            use_type_invariant(self);
            lemma_first_slot_bound(self.key_seq(), self.keys[index as int]@, index as int);
            lemma_first_slot_is_key(self.key_seq(), self.keys[index as int]@);
        }
        &self.values[index]
    }

    /// Stores `value` under `key`, replacing what was stored there before.
    pub fn insert(&mut self, key: String, value: String)
        ensures
            final(self)@ == old(self)@.insert(key@, value@),
            old(self)@.contains_key(key@) ==> final(self).key_seq() == old(self).key_seq(),
            !old(self)@.contains_key(key@) ==> final(self).key_seq() == old(self).key_seq().push(
                key@,
            ),
    {
        proof {
            use_type_invariant(&*self);
        }
        let slot = self.find(key.as_str());
        let mut taken = StringMap::new();
        std::mem::swap(self, &mut taken);
        let StringMap { mut keys, mut values } = taken;
        assert(keys@ == old(self).keys@ && values@ == old(self).values@);
        if slot < keys.len() {
            proof {
                lemma_first_slot_is_key(old(self).key_seq(), key@);
            }
            values.set(slot, value);
            *self = StringMap { keys, values };
            assert(self.key_seq() == old(self).key_seq());
            assert forall|k: Seq<char>| #[trigger]
                self@.contains_key(k) implies self@[k] == old(self)@.insert(key@, value@)[k] by {
                lemma_first_slot_range(self.key_seq(), k);
                lemma_first_slot_is_key(self.key_seq(), k);
            }
            assert(self@ =~= old(self)@.insert(key@, value@));
        } else {
            proof {
                lemma_first_slot_absent(old(self).key_seq(), key@);
                assert forall|i: int| 0 <= i < keys.len() implies (#[trigger] keys[i])@ != key@ by {
                    assert(old(self).key_seq()[i] == keys[i]@);
                }
                assert forall|k: Seq<char>|
                    #[trigger] first_slot(old(self).key_seq().push(key@), k) == (if first_slot(
                        old(self).key_seq(),
                        k,
                    ) < old(self).keys.len() || k == key@ {
                        first_slot(old(self).key_seq(), k)
                    } else {
                        old(self).keys.len() as int + 1
                    }) by {
                    lemma_first_slot_push(old(self).key_seq(), key@, k);
                }
            }
            keys.push(key);
            values.push(value);
            *self = StringMap { keys, values };
            assert(self.key_seq() =~= old(self).key_seq().push(key@));
            assert forall|k: Seq<char>|
                self@.contains_key(k) == #[trigger] old(self)@.insert(key@, value@).contains_key(
                    k,
                ) by {
                lemma_first_slot_range(old(self).key_seq(), k);
            }
            assert forall|k: Seq<char>| #[trigger]
                self@.contains_key(k) implies self@[k] == old(self)@.insert(key@, value@)[k] by {
                lemma_first_slot_range(old(self).key_seq(), k);
            }
            assert(self@ =~= old(self)@.insert(key@, value@));
        }
    }
}

impl Clone for StringMap {
    /// A map with the same entries in the same order.
    fn clone(&self) -> (copy: StringMap)
        ensures
            copy@ == self@,
            copy.key_seq() == self.key_seq(),
    {
        proof {
            use_type_invariant(self);
        }
        let mut keys: Vec<String> = Vec::new();
        let mut values: Vec<String> = Vec::new();
        let mut i: usize = 0;
        while i < self.keys.len()
            invariant
                i <= self.keys.len(),
                self.keys.len() == self.values.len(),
                keys.len() == i,
                values.len() == i,
                forall|j: int| 0 <= j < i ==> (#[trigger] keys[j])@ == self.keys[j]@,
                forall|j: int| 0 <= j < i ==> (#[trigger] values[j])@ == self.values[j]@,
            decreases self.keys.len() - i,
        {
            keys.push(self.keys[i].clone());
            values.push(self.values[i].clone());
            i += 1;
        }
        let copy = StringMap { keys, values };
        assert(copy.key_seq() =~= self.key_seq());
        assert forall|k: Seq<char>| #[trigger] copy@.contains_key(k) implies copy@[k] == self@[k] by {
            lemma_first_slot_range(self.key_seq(), k);
        }
        assert(copy@ =~= self@);
        copy
    }
}

proof fn lemma_first_slot_range(keys: Seq<Seq<char>>, k: Seq<char>)
    ensures
        0 <= first_slot(keys, k) <= keys.len(),
    decreases keys.len(),
{
    if keys.len() > 0 && keys[0] != k {
        lemma_first_slot_range(keys.skip(1), k);
    }
}

proof fn lemma_first_slot_is_key(keys: Seq<Seq<char>>, k: Seq<char>)
    requires
        first_slot(keys, k) < keys.len(),
    ensures
        0 <= first_slot(keys, k),
        keys[first_slot(keys, k)] == k,
    decreases keys.len(),
{
    if keys.len() > 0 && keys[0] != k {
        lemma_first_slot_is_key(keys.skip(1), k);
    }
}

proof fn lemma_first_slot_bound(keys: Seq<Seq<char>>, k: Seq<char>, at: int)
    requires
        0 <= at < keys.len(),
        keys[at] == k,
    ensures
        0 <= first_slot(keys, k) <= at,
    decreases keys.len(),
{
    if keys[0] != k {
        lemma_first_slot_bound(keys.skip(1), k, at - 1);
    }
}

proof fn lemma_first_slot_absent(keys: Seq<Seq<char>>, k: Seq<char>)
    requires
        first_slot(keys, k) >= keys.len(),
    ensures
        first_slot(keys, k) == keys.len(),
        forall|i: int| 0 <= i < keys.len() ==> #[trigger] keys[i] != k,
    decreases keys.len(),
{
    lemma_first_slot_range(keys, k);
    if keys.len() > 0 {
        lemma_first_slot_absent(keys.skip(1), k);
        assert forall|i: int| 0 <= i < keys.len() implies #[trigger] keys[i] != k by {
            if i > 0 {
                assert(keys.skip(1)[i - 1] == keys[i]);
            }
        }
    }
}

proof fn lemma_first_slot_push(keys: Seq<Seq<char>>, added: Seq<char>, k: Seq<char>)
    ensures
        first_slot(keys.push(added), k) == (if first_slot(keys, k) < keys.len() {
            first_slot(keys, k)
        } else if added == k {
            keys.len() as int
        } else {
            keys.len() as int + 1
        }),
    decreases keys.len(),
{
    lemma_first_slot_range(keys, k);
    if keys.len() == 0 {
        assert(keys.push(added).skip(1) =~= keys);
    } else if keys[0] != k {
        lemma_first_slot_push(keys.skip(1), added, k);
        assert(keys.push(added).skip(1) =~= keys.skip(1).push(added));
    }
}

} // verus!
