//! A hash map keyed by a pair of integers.
use std::collections::HashMap;
use vstd::prelude::*;

verus! {

/// The single integer under which the pair `(first, second)` is stored.
pub open spec fn pair_code(first: u64, second: u64) -> int {
    first * 0x1_0000_0000_0000_0000 + second
}

fn pack(first: u64, second: u64) -> (code: u128)
    ensures
        code == pair_code(first, second),
{
    (first as u128) * 0x1_0000_0000_0000_0000u128 + second as u128
}

/// A map from pairs of integers to values.
pub struct DoubleMap<V> {
    entries: HashMap<u128, V>,
}

impl<V> View for DoubleMap<V> {
    type V = Map<(u64, u64), V>;

    closed spec fn view(&self) -> Map<(u64, u64), V> {
        Map::new(
            |key: (u64, u64)| self.entries@.contains_key(pair_code(key.0, key.1) as u128),
            |key: (u64, u64)| self.entries@[pair_code(key.0, key.1) as u128],
        )
    }
}

impl<V> DoubleMap<V> {
    /// An empty map.
    pub fn new() -> (map: Self)
        ensures
            map@ == Map::<(u64, u64), V>::empty(),
    {
        let map = DoubleMap { entries: HashMap::new() };
        assert(map@ =~= Map::<(u64, u64), V>::empty());
        map
    }

    /// Whether `(first, second)` has a value.
    pub fn contains_key(&self, first: u64, second: u64) -> (found: bool)
        ensures
            found == self@.contains_key((first, second)),
    {
        self.entries.contains_key(&pack(first, second))
    }

    /// The value of `(first, second)`.
    pub fn get(&self, first: u64, second: u64) -> (value: Option<&V>)
        ensures
            value == (if self@.contains_key((first, second)) {
                Some(&self@[(first, second)])
            } else {
                None
            }),
    {
        self.entries.get(&pack(first, second))
    }

    /// Sets the value of `(first, second)`.
    pub fn insert(&mut self, first: u64, second: u64, value: V)
        ensures
            final(self)@ == old(self)@.insert((first, second), value),
    {
        let code: u128 = pack(first, second);
        self.entries.insert(code, value);
        assert(self@ =~= old(self)@.insert((first, second), value));
    }

    /// Takes the value of `(first, second)` out of the map.
    pub fn remove(&mut self, first: u64, second: u64) -> (value: Option<V>)
        ensures
            final(self)@ == old(self)@.remove((first, second)),
            value == (if old(self)@.contains_key((first, second)) {
                Some(old(self)@[(first, second)])
            } else {
                None
            }),
    {
        let code: u128 = pack(first, second);
        let value = self.entries.remove(&code);
        assert(self@ =~= old(self)@.remove((first, second)));
        value
    }
}

/// What was set for a pair is found under it, until it is taken out, and under no other
/// pair; what is taken out is what was found.
pub proof fn lemma_what_is_set_is_found<V>(
    new: DoubleMap<V>,
    set: &mut DoubleMap<V>,
    taken: &mut DoubleMap<V>,
    first: u64,
    second: u64,
    value: V,
    nothing: (),
    out: Option<V>,
    map: &DoubleMap<V>,
    found: Option<&V>,
    is_there: bool,
)
    requires
        call_ensures(DoubleMap::<V>::new, (), new),
        call_ensures(DoubleMap::<V>::insert, (set, first, second, value), nothing),
        call_ensures(DoubleMap::<V>::remove, (taken, first, second), out),
        call_ensures(DoubleMap::<V>::get, (map, first, second), found),
        call_ensures(DoubleMap::<V>::contains_key, (map, first, second), is_there),
    ensures
        forall|key: (u64, u64)| !#[trigger] new@.contains_key(key),
        final(set)@.contains_key((first, second)),
        final(set)@[(first, second)] == value,
        forall|key: (u64, u64)|
            #![trigger final(set)@.contains_key(key)]
            #![trigger old(set)@.contains_key(key)]
            key != (first, second) ==> final(set)@.contains_key(key) == old(set)@.contains_key(key)
                && final(set)@[key] == old(set)@[key],
        forall|key: (u64, u64)|
            #![trigger final(taken)@.contains_key(key)]
            #![trigger old(taken)@.contains_key(key)]
            final(taken)@.contains_key(key) == (key != (first, second) && old(taken)@.contains_key(key)) && (key != (first, second) ==> final(taken)@[key] == old(taken)@[key]),
        out is Some <==> old(taken)@.contains_key((first, second)),
        out is Some ==> out->0 == old(taken)@[(first, second)],
        found is Some <==> map@.contains_key((first, second)),
        found is Some ==> *found->0 == map@[(first, second)],
        is_there == map@.contains_key((first, second)),
{
}

} // verus!
