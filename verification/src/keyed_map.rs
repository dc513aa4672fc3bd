//! A map whose keys are byte strings of one length.

use crate::text::same_bytes;
use vstd::prelude::*;

verus! {

/// Values by keys of `N` bytes. No key has two values.
#[derive(Debug)]
pub struct KeyedMap<const N: usize, V> {
    entries: Vec<([u8; N], V)>,
}

impl<const N: usize, V> View for KeyedMap<N, V> {
    type V = Map<Seq<u8>, V>;

    closed spec fn view(&self) -> Map<Seq<u8>, V> {
        Map::new(
            |key: Seq<u8>| has_key(self.entries@, key),
            |key: Seq<u8>| self.entries@[place_of(self.entries@, key)].1,
        )
    }
}

/// Whether the key `key` stands at the place `i`.
spec fn key_at<const N: usize, V>(entries: Seq<([u8; N], V)>, i: int, key: Seq<u8>) -> bool {
    0 <= i < entries.len() && entries[i].0@ == key
}

spec fn has_key<const N: usize, V>(entries: Seq<([u8; N], V)>, key: Seq<u8>) -> bool {
    exists|i: int| key_at(entries, i, key)
}

spec fn place_of<const N: usize, V>(entries: Seq<([u8; N], V)>, key: Seq<u8>) -> int {
    choose|i: int| key_at(entries, i, key)
}

impl<const N: usize, V> KeyedMap<N, V> {
    /// No key stands at two places.
    pub closed spec fn wf(self) -> bool {
        forall|i: int, j: int|
            0 <= i < j < self.entries@.len() ==> self.entries@[i].0@ != self.entries@[j].0@
    }

    /// A map without keys.
    pub fn new() -> (map: KeyedMap<N, V>)
        ensures
            map.wf(),
            map@ == Map::<Seq<u8>, V>::empty(),
    {
        let map = KeyedMap { entries: Vec::new() };
        assert(map@ =~= Map::<Seq<u8>, V>::empty());
        map
    }

    /// Where the key stands.
    fn position(&self, key: &[u8; N]) -> (position: Option<usize>)
        ensures
            match position {
                Some(i) => key_at(self.entries@, i as int, key@),
                None => !self@.contains_key(key@),
            },
    {
        let mut i: usize = 0;
        while i < self.entries.len()
            invariant
                i <= self.entries@.len(),
                forall|j: int| 0 <= j < i ==> self.entries@[j].0@ != key@,
            decreases self.entries@.len() - i,
        {
            if same_bytes(self.entries[i].0.as_slice(), key.as_slice()) {
                return Some(i);
            }
            i = i + 1;
        }
        None
    }

    /// The value of the key.
    pub fn get(&self, key: &[u8; N]) -> (value: Option<&V>)
        requires
            self.wf(),
        ensures
            match value {
                Some(value) => self@.contains_key(key@) && *value == self@[key@],
                None => !self@.contains_key(key@),
            },
    {
        match self.position(key) {
            Some(i) => Some(&self.entries[i].1),
            None => None,
        }
    }

    /// Gives the key a value, in place of the one that it had.
    pub fn insert(&mut self, key: [u8; N], value: V)
        requires
            old(self).wf(),
        ensures
            final(self).wf(),
            final(self)@ == old(self)@.insert(key@, value),
    {
        match self.position(&key) {
            Some(i) => {
                self.entries.set(i, (key, value));
                proof {
                    let before = old(self).entries@;
                    let after = self.entries@;
                    assert forall|k: Seq<u8>| has_key(before, k) implies has_key(after, k) by {
                        assert(key_at(after, place_of(before, k), k));
                    }
                    assert(key_at(after, i as int, key@));
                    assert forall|k: Seq<u8>| has_key(after, k) implies has_key(before, k) by {
                        assert(key_at(before, place_of(after, k), k));
                    }
                    assert(self@ =~= old(self)@.insert(key@, value));
                }
            },
            None => {
                self.entries.push((key, value));
                proof {
                    let before = old(self).entries@;
                    let after = self.entries@;
                    assert(key_at(after, before.len() as int, key@));
                    assert forall|j: int| 0 <= j < before.len() implies before[j].0@ != key@ by {
                        if before[j].0@ == key@ {
                            assert(key_at(before, j, key@));
                        }
                    }
                    assert forall|k: Seq<u8>| has_key(before, k) implies has_key(after, k) by {
                        assert(key_at(after, place_of(before, k), k));
                    }
                    assert forall|k: Seq<u8>| has_key(after, k) && k != key@ implies has_key(
                        before,
                        k,
                    ) by {
                        assert(key_at(before, place_of(after, k), k));
                    }
                    assert(self@ =~= old(self)@.insert(key@, value));
                }
            },
        }
    }
}

/// The keys in a list.
pub open spec fn listed<const N: usize>(keys: Seq<[u8; N]>) -> Set<Seq<u8>> {
    Set::new(|key: Seq<u8>| exists|i: int| 0 <= i < keys.len() && #[trigger] keys[i]@ == key)
}

/// Whether the key is in the list.
fn is_listed<const N: usize>(keys: &[[u8; N]], key: &[u8; N]) -> (found: bool)
    ensures
        found == listed(keys@).contains(key@),
{
    let mut i: usize = 0;
    while i < keys.len()
        invariant
            i <= keys@.len(),
            forall|j: int| 0 <= j < i ==> (#[trigger] keys@[j])@ != key@,
        decreases keys@.len() - i,
    {
        if same_bytes(keys[i].as_slice(), key.as_slice()) {
            return true;
        }
        i = i + 1;
    }
    false
}

impl<const N: usize, V> KeyedMap<N, V> {
    /// The map without the keys that are not in the list.
    pub fn retain_listed(self, keys: &[[u8; N]]) -> (kept: KeyedMap<N, V>)
        requires
            self.wf(),
        ensures
            kept.wf(),
            kept@ == self@.restrict(listed(keys@)),
            forall|key: Seq<u8>| #[trigger]
                kept@.contains_key(key) <==> self@.contains_key(key) && exists|i: int|
                    0 <= i < keys@.len() && #[trigger] keys@[i]@ == key,
            forall|key: Seq<u8>| #[trigger]
                kept@.contains_key(key) ==> kept@[key] == self@[key],
    {
        let ghost all = self.entries@;
        let ghost whole = self@;
        let ghost wanted = listed(keys@);
        let ghost mut from: Seq<int> = Seq::empty();
        let mut rest = self.entries;
        let mut entries: Vec<([u8; N], V)> = Vec::new();
        assert(all.take(all.len() as int) =~= all);
        while rest.len() > 0
            invariant
                wanted == listed(keys@),
                rest@.len() <= all.len(),
                rest@ == all.take(rest@.len() as int),
                from.len() == entries@.len(),
                forall|j: int|
                    0 <= j < from.len() ==> {
                        &&& rest@.len() <= #[trigger] from[j] < all.len()
                        &&& entries@[j] == all[from[j]]
                        &&& wanted.contains(all[from[j]].0@)
                    },
                forall|j: int, k: int| 0 <= j < k < from.len() ==> from[j] > from[k],
                forall|m: int|
                    rest@.len() <= m < all.len() && wanted.contains((#[trigger] all[m]).0@)
                        ==> from.contains(m),
            decreases rest@.len(),
        {
            let ghost before = from;
            let ghost last = rest@.len() - 1;
            if let Some(entry) = rest.pop() {
                assert(entry == all[last]);
                if is_listed(keys, &entry.0) {
                    entries.push(entry);
                    proof {
                        from = before.push(last);
                        assert(from[before.len() as int] == last);
                        assert forall|m: int|
                            last <= m < all.len() && wanted.contains(
                                (#[trigger] all[m]).0@,
                            ) implies from.contains(m) by {
                            if m > last {
                                let j = choose|j: int| 0 <= j < before.len() && before[j] == m;
                                assert(from[j] == m);
                            }
                        }
                    }
                }
                assert(rest@ =~= all.take(last));
            }
        }
        let kept = KeyedMap { entries };
        proof {
            let after = kept.entries@;
            assert forall|i: int, j: int| 0 <= i < j < after.len() implies after[i].0@
                != after[j].0@ by {
                assert(from[i] > from[j]);
                assert(all[from[i]].0@ != all[from[j]].0@);
            }
            assert forall|k: Seq<u8>| #[trigger] has_key(after, k) implies has_key(
                all,
                k,
            ) && wanted.contains(k) && after[place_of(after, k)].1 == all[place_of(all, k)].1 by {
                let i = place_of(after, k);
                assert(key_at(after, i, k));
                assert(key_at(all, from[i], k));
                assert(key_at(all, place_of(all, k), k));
            }
            assert forall|k: Seq<u8>| #[trigger] has_key(all, k) && wanted.contains(
                k,
            ) implies has_key(
                after,
                k,
            ) by {
                let m = place_of(all, k);
                assert(key_at(all, m, k));
                assert(wanted.contains(all[m].0@));
                let j = choose|j: int| 0 <= j < from.len() && from[j] == m;
                assert(key_at(after, j, k));
            }
            assert(kept@ =~= whole.restrict(wanted));
        }
        kept
    }

    /// The keys with their values, in no particular order.
    pub fn entries(&self) -> (entries: &[([u8; N], V)])
        requires
            self.wf(),
        ensures
            forall|i: int|
                0 <= i < entries@.len() ==> {
                    &&& self@.contains_key((#[trigger] entries@[i]).0@)
                    &&& self@[entries@[i].0@] == entries@[i].1
                },
            forall|i: int, j: int| 0 <= i < j < entries@.len() ==> entries@[i].0@ != entries@[j].0@,
            forall|key: Seq<u8>| #[trigger]
                self@.contains_key(key) ==> exists|i: int|
                    0 <= i < entries@.len() && #[trigger] entries@[i].0@ == key,
    {
        proof {
            let all = self.entries@;
            assert forall|i: int| 0 <= i < all.len() implies self@.contains_key(
                (#[trigger] all[i]).0@,
            ) && self@[all[i].0@] == all[i].1 by {
                assert(key_at(all, i, all[i].0@));
                assert(key_at(all, place_of(all, all[i].0@), all[i].0@));
            }
            assert forall|key: Seq<u8>| #[trigger] self@.contains_key(key) implies exists|i: int|
                0 <= i < all.len() && #[trigger] all[i].0@ == key by {
                assert(key_at(all, place_of(all, key), key));
            }
        }
        self.entries.as_slice()
    }
}

/// The listed keys are those at some place of the list, whichever place it is.
pub proof fn every_place_of_the_list_counts<const N: usize>(keys: Seq<[u8; N]>, key: Seq<u8>)
    ensures
        listed(keys).contains(key) <==> exists|i: int|
            0 <= i < keys.len() && #[trigger] keys[i]@ == key,
{
}

} // verus!
