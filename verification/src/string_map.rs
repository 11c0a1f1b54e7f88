//! A map from strings to values of any type, kept as a list in which no key
//! occurs twice.

use crate::text::same_text;
use vstd::prelude::*;
use vstd::string::*;

verus! {

#[derive(Debug)]
struct Slot<T> {
    key: String,
    value: T,
}

/// A map from strings to values.
#[derive(Debug)]
pub struct StringMap<T> {
    slots: Vec<Slot<T>>,
}

spec fn slot_at<T>(slots: Seq<Slot<T>>, key: Seq<char>, i: int) -> bool {
    0 <= i < slots.len() && slots[i].key@ == key
}

spec fn keys_unique<T>(slots: Seq<Slot<T>>) -> bool {
    forall|i: int, j: int|
        0 <= i < j < slots.len() ==> (#[trigger] slots[i]).key@ != (#[trigger] slots[j]).key@
}

spec fn slots_map<T>(slots: Seq<Slot<T>>) -> Map<Seq<char>, T> {
    Map::new(
        |key: Seq<char>| exists|i: int| slot_at(slots, key, i),
        |key: Seq<char>| slots[choose|i: int| slot_at(slots, key, i)].value,
    )
}

proof fn lemma_slot<T>(slots: Seq<Slot<T>>, i: int)
    requires
        keys_unique(slots),
        0 <= i < slots.len(),
    ensures
        slots_map(slots).dom().contains(slots[i].key@),
        slots_map(slots)[slots[i].key@] == slots[i].value,
{
    let key = slots[i].key@;
    assert(slot_at(slots, key, i));
    let c = choose|c: int| slot_at(slots, key, c);
    assert(slot_at(slots, key, c));
    if c < i {
        assert(slots[c].key@ != slots[i].key@);
    } else if i < c {
        assert(slots[i].key@ != slots[c].key@);
    }
}

proof fn lemma_replace<T>(slots: Seq<Slot<T>>, i: int, slot: Slot<T>)
    requires
        keys_unique(slots),
        0 <= i < slots.len(),
        slots[i].key@ == slot.key@,
    ensures
        keys_unique(slots.update(i, slot)),
        slots_map(slots.update(i, slot)) == slots_map(slots).insert(slot.key@, slot.value),
{
    let after = slots.update(i, slot);
    assert forall|a: int, b: int| 0 <= a < b < after.len() implies (#[trigger] after[a]).key@ != (
    #[trigger] after[b]).key@ by {
        assert(after[a].key@ == slots[a].key@);
        assert(after[b].key@ == slots[b].key@);
    }
    let expected = slots_map(slots).insert(slot.key@, slot.value);
    assert forall|key: Seq<char>| slots_map(after).dom().contains(key) implies #[trigger] expected.dom().contains(
        key,
    ) && slots_map(after)[key] == expected[key] by {
        let c = choose|c: int| slot_at(after, key, c);
        assert(slot_at(after, key, c));
        lemma_slot(after, c);
        if c != i {
            assert(slot_at(slots, key, c));
            lemma_slot(slots, c);
            assert(slots[c].key@ != slots[i].key@);
        }
    }
    assert forall|key: Seq<char>| expected.dom().contains(key) implies #[trigger] slots_map(
        after,
    ).dom().contains(key) by {
        if key == slot.key@ {
            assert(slot_at(after, key, i));
        } else {
            let c = choose|c: int| slot_at(slots, key, c);
            assert(slot_at(slots, key, c));
            assert(slot_at(after, key, c));
        }
    }
    assert(slots_map(after) =~= expected);
}

proof fn lemma_push<T>(slots: Seq<Slot<T>>, slot: Slot<T>)
    requires
        keys_unique(slots),
        !slots_map(slots).dom().contains(slot.key@),
    ensures
        keys_unique(slots.push(slot)),
        slots_map(slots.push(slot)) == slots_map(slots).insert(slot.key@, slot.value),
{
    let after = slots.push(slot);
    let last = slots.len() as int;
    assert forall|a: int, b: int| 0 <= a < b < after.len() implies (#[trigger] after[a]).key@ != (
    #[trigger] after[b]).key@ by {
        if b == last {
            assert(after[a] == slots[a]);
            if slots[a].key@ == slot.key@ {
                assert(slot_at(slots, slot.key@, a));
            }
        } else {
            assert(after[a] == slots[a]);
            assert(after[b] == slots[b]);
        }
    }
    let expected = slots_map(slots).insert(slot.key@, slot.value);
    assert forall|key: Seq<char>| slots_map(after).dom().contains(key) implies #[trigger] expected.dom().contains(
        key,
    ) && slots_map(after)[key] == expected[key] by {
        let c = choose|c: int| slot_at(after, key, c);
        assert(slot_at(after, key, c));
        lemma_slot(after, c);
        if c != last {
            assert(slot_at(slots, key, c));
            lemma_slot(slots, c);
        }
    }
    assert forall|key: Seq<char>| expected.dom().contains(key) implies #[trigger] slots_map(
        after,
    ).dom().contains(key) by {
        if key == slot.key@ {
            assert(slot_at(after, key, last));
        } else {
            let c = choose|c: int| slot_at(slots, key, c);
            assert(slot_at(slots, key, c));
            assert(slot_at(after, key, c));
        }
    }
    assert(slots_map(after) =~= expected);
}

proof fn lemma_remove<T>(slots: Seq<Slot<T>>, i: int)
    requires
        keys_unique(slots),
        0 <= i < slots.len(),
    ensures
        keys_unique(slots.remove(i)),
        slots_map(slots.remove(i)) == slots_map(slots).remove(slots[i].key@),
{
    let after = slots.remove(i);
    let gone = slots[i].key@;
    assert forall|a: int| 0 <= a < after.len() implies #[trigger] after[a] == slots[if a < i {
        a
    } else {
        a + 1
    }] by {}
    assert forall|a: int, b: int| 0 <= a < b < after.len() implies (#[trigger] after[a]).key@ != (
    #[trigger] after[b]).key@ by {
        let x = if a < i {
            a
        } else {
            a + 1
        };
        let y = if b < i {
            b
        } else {
            b + 1
        };
        assert(after[a] == slots[x]);
        assert(after[b] == slots[y]);
        assert(slots[x].key@ != slots[y].key@);
    }
    let expected = slots_map(slots).remove(gone);
    assert forall|key: Seq<char>| slots_map(after).dom().contains(key) implies #[trigger] expected.dom().contains(
        key,
    ) && slots_map(after)[key] == expected[key] by {
        let c = choose|c: int| slot_at(after, key, c);
        assert(slot_at(after, key, c));
        lemma_slot(after, c);
        let x = if c < i {
            c
        } else {
            c + 1
        };
        assert(after[c] == slots[x]);
        assert(slot_at(slots, key, x));
        lemma_slot(slots, x);
        if x < i {
            assert(slots[x].key@ != slots[i].key@);
        } else {
            assert(slots[i].key@ != slots[x].key@);
        }
    }
    assert forall|key: Seq<char>| expected.dom().contains(key) implies #[trigger] slots_map(
        after,
    ).dom().contains(key) by {
        let c = choose|c: int| slot_at(slots, key, c);
        assert(slot_at(slots, key, c));
        assert(c != i);
        let a = if c < i {
            c
        } else {
            c - 1
        };
        assert(after[a] == slots[c]);
        assert(slot_at(after, key, a));
    }
    assert(slots_map(after) =~= expected);
}

impl<T> View for StringMap<T> {
    type V = Map<Seq<char>, T>;

    closed spec fn view(&self) -> Map<Seq<char>, T> {
        slots_map(self.slots@)
    }
}

impl<T> StringMap<T> {
    #[verifier::type_invariant]
    spec fn one_slot_per_key(&self) -> bool {
        keys_unique(self.slots@)
    }

    /// The empty map.
    pub fn new() -> (map: Self)
        ensures
            map@ == Map::<Seq<char>, T>::empty(),
    {
        let map = StringMap { slots: Vec::new() };
        assert(map@ =~= Map::<Seq<char>, T>::empty()) by {
            assert forall|key: Seq<char>| !map@.dom().contains(key) by {
                if map@.dom().contains(key) {
                    let c = choose|c: int| slot_at(map.slots@, key, c);
                    assert(slot_at(map.slots@, key, c));
                }
            }
        }
        map
    }

    fn find(&self, key: &str) -> (found: Option<usize>)
        ensures
            keys_unique(self.slots@),
            match found {
                Some(i) => i < self.slots@.len() && self.slots@[i as int].key@ == key@
                    && self@.dom().contains(key@) && self@[key@] == self.slots@[i as int].value,
                None => !self@.dom().contains(key@),
            },
    {
        proof {
            use_type_invariant(self);
        }
        let mut i: usize = 0;
        while i < self.slots.len()
            invariant
                i <= self.slots@.len(),
                keys_unique(self.slots@),
                forall|j: int| 0 <= j < i ==> (#[trigger] self.slots@[j]).key@ != key@,
            decreases self.slots.len() - i,
        {
            if same_text(self.slots[i].key.as_str(), key) {
                proof {
                    lemma_slot(self.slots@, i as int);
                }
                return Some(i);
            }
            i = i + 1;
        }
        proof {
            if self@.dom().contains(key@) {
                let c = choose|c: int| slot_at(self.slots@, key@, c);
                assert(slot_at(self.slots@, key@, c));
            }
        }
        None
    }

    /// Number of keys.
    pub fn len(&self) -> (count: usize)
        ensures
            count == self@.dom().len(),
            self@.dom().finite(),
    {
        proof {
            use_type_invariant(self);
            lemma_count(self.slots@);
        }
        self.slots.len()
    }

    /// Whether `key` is a key of the map.
    pub fn contains(&self, key: &str) -> (yes: bool)
        ensures
            yes == self@.dom().contains(key@),
    {
        self.find(key).is_some()
    }

    /// The value stored under `key`, if there is one.
    pub fn get(&self, key: &str) -> (value: Option<&T>)
        ensures
            match value {
                Some(h) => self@.dom().contains(key@) && self@[key@] == *h,
                None => !self@.dom().contains(key@),
            },
    {
        match self.find(key) {
            Some(i) => Some(&self.slots[i].value),
            None => None,
        }
    }

    /// Stores `value` under `key`, in place of the value stored there
    /// before, if any.
    pub fn set(&mut self, key: &str, value: T)
        ensures
            final(self)@ == old(self)@.insert(key@, value),
    {
        let position = self.find(key);
        let slot = Slot { key: String::from_str(key), value };
        let mut slots: Vec<Slot<T>> = Vec::new();
        std::mem::swap(&mut slots, &mut self.slots);
        match position {
            Some(i) => {
                proof {
                    lemma_replace(slots@, i as int, slot);
                }
                slots.set(i, slot);
            },
            None => {
                proof {
                    lemma_push(slots@, slot);
                }
                slots.push(slot);
            },
        }
        self.slots = slots;
    }

    /// Takes out what is stored under `key` and hands it back.
    pub fn remove(&mut self, key: &str) -> (value: Option<T>)
        ensures
            final(self)@ == old(self)@.remove(key@),
            match value {
                Some(h) => old(self)@.dom().contains(key@) && old(self)@[key@] == h,
                None => !old(self)@.dom().contains(key@),
            },
    {
        match self.find(key) {
            Some(i) => {
                let mut slots: Vec<Slot<T>> = Vec::new();
                std::mem::swap(&mut slots, &mut self.slots);
                proof {
                    lemma_remove(slots@, i as int);
                }
                let slot = slots.remove(i);
                self.slots = slots;
                Some(slot.value)
            },
            None => {
                assert(self@.remove(key@) =~= self@);
                None
            },
        }
    }
}

proof fn lemma_count<T>(slots: Seq<Slot<T>>)
    requires
        keys_unique(slots),
    ensures
        slots_map(slots).dom().finite(),
        slots_map(slots).dom().len() == slots.len(),
    decreases slots.len(),
{
    if slots.len() == 0 {
        assert(slots_map(slots).dom() =~= Set::<Seq<char>>::empty()) by {
            assert forall|key: Seq<char>| !slots_map(slots).dom().contains(key) by {
                if slots_map(slots).dom().contains(key) {
                    let c = choose|c: int| slot_at(slots, key, c);
                    assert(slot_at(slots, key, c));
                }
            }
        }
    } else {
        let last = slots.len() - 1;
        let rest = slots.remove(last);
        lemma_remove(slots, last);
        lemma_count(rest);
        lemma_slot(slots, last);
        let key = slots[last].key@;
        assert(slots_map(rest).dom() == slots_map(slots).dom().remove(key));
        assert(slots_map(slots).dom() =~= slots_map(rest).dom().insert(key));
    }
}

} // verus!
