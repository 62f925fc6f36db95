//! The cache of the data that came with block announcements.
//!
//! The entries are modelled as a sequence, the one used last in front.
use crate::network::primitives::BlockHash;
use lru::LruCache;
use vstd::prelude::*;

verus! {

/// The least-recently-used cache of the `lru` crate.
#[verifier::external_type_specification]
#[verifier::external_body]
#[verifier::reject_recursive_types(K)]
#[verifier::reject_recursive_types(V)]
#[verifier::reject_recursive_types(S)]
pub struct ExLruCache<K, V, S>(LruCache<K, V, S>);

/// The hasher that `lru::LruCache` uses unless told otherwise.
#[verifier::external_type_specification]
#[verifier::external_body]
pub struct ExDefaultHasher(lru::DefaultHasher);

/// The entries of a cache, the one used last in front.
pub uninterp spec fn cache_entries(cache: LruCache<[u8; 32], Vec<u8>, lru::DefaultHasher>) -> Seq<
    ([u8; 32], Seq<u8>),
>;

/// The number of entries that a cache was made for.
pub uninterp spec fn cache_capacity(
    cache: LruCache<[u8; 32], Vec<u8>, lru::DefaultHasher>,
) -> nat;

/// Whether some entry has the key `hash`.
pub open spec fn has_entry(entries: Seq<(BlockHash, Seq<u8>)>, hash: BlockHash) -> bool {
    exists|i: int| 0 <= i < entries.len() && (#[trigger] entries[i]).0 == hash
}

/// The data stored under `hash`.
pub open spec fn lookup(entries: Seq<(BlockHash, Seq<u8>)>, hash: BlockHash) -> Option<Seq<u8>>
    decreases entries.len(),
{
    if entries.len() == 0 {
        None
    } else if entries[0].0 == hash {
        Some(entries[0].1)
    } else {
        lookup(entries.drop_first(), hash)
    }
}

/// Tells the entries with another key than `hash`.
pub open spec fn has_other_key(hash: BlockHash) -> spec_fn((BlockHash, Seq<u8>)) -> bool {
    |entry: (BlockHash, Seq<u8>)| entry.0 != hash
}

/// The entries with another key than `hash`, in their order.
pub open spec fn without(
    entries: Seq<(BlockHash, Seq<u8>)>,
    hash: BlockHash,
) -> Seq<(BlockHash, Seq<u8>)> {
    entries.filter(has_other_key(hash))
}

/// The entries after `hash` was read: its entry, where it has one, comes to the
/// front.
pub open spec fn after_get(
    entries: Seq<(BlockHash, Seq<u8>)>,
    hash: BlockHash,
) -> Seq<(BlockHash, Seq<u8>)> {
    match lookup(entries, hash) {
        Some(data) => seq![(hash, data)] + without(entries, hash),
        None => entries,
    }
}

/// The entries after `data` was stored under `hash`: the new entry is in front,
/// an earlier one with that key is gone, and where the cache was full of other
/// keys the entry used longest ago is gone. A cache made for no entries stays as
/// it is.
pub open spec fn after_put(
    entries: Seq<(BlockHash, Seq<u8>)>,
    capacity: nat,
    hash: BlockHash,
    data: Seq<u8>,
) -> Seq<(BlockHash, Seq<u8>)> {
    if has_entry(entries, hash) {
        seq![(hash, data)] + without(entries, hash)
    } else if capacity == 0 {
        entries
    } else if entries.len() == capacity {
        seq![(hash, data)] + entries.drop_last()
    } else {
        seq![(hash, data)] + entries
    }
}

/// Calls `lru::LruCache::new`: the cache is empty and made for `capacity`
/// entries. The bound keeps the size in bytes of the table that is set aside for
/// them within `isize::MAX`, beyond which the call panics.
#[verifier::external_body]
pub(crate) fn cache_new(capacity: usize) -> (cache: LruCache<[u8; 32], Vec<u8>>)
    requires
        capacity <= usize::MAX / 128,
    ensures
        cache_entries(cache) == Seq::<([u8; 32], Seq<u8>)>::empty(),
        cache_capacity(cache) == capacity,
{
    LruCache::new(capacity)
}

/// Calls `lru::LruCache::get`: returns the data stored under `hash` and makes its
/// entry the one used last.
#[verifier::external_body]
pub(crate) fn cache_get(
    cache: &mut LruCache<[u8; 32], Vec<u8>>,
    hash: &BlockHash,
) -> (data: Option<Vec<u8>>)
    ensures
        cache_entries(*final(cache)) == after_get(cache_entries(*old(cache)), *hash),
        cache_capacity(*final(cache)) == cache_capacity(*old(cache)),
        match data {
            Some(bytes) => lookup(cache_entries(*old(cache)), *hash) == Some(bytes@),
            None => lookup(cache_entries(*old(cache)), *hash) is None,
        },
{
    cache.get(hash).cloned()
}

/// Calls `lru::LruCache::put`: stores `data` under `hash` as the entry used last,
/// in place of an earlier entry with that key or, where the cache is full, of the
/// entry used longest ago.
#[verifier::external_body]
pub(crate) fn cache_put(
    cache: &mut LruCache<[u8; 32], Vec<u8>>,
    hash: BlockHash,
    data: Vec<u8>,
)
    ensures
        cache_entries(*final(cache)) == after_put(
            cache_entries(*old(cache)),
            cache_capacity(*old(cache)),
            hash,
            data@,
        ),
        cache_capacity(*final(cache)) == cache_capacity(*old(cache)),
{
    cache.put(hash, data);
}

/// Dropping the entries of one key does not change what another key finds.
proof fn lemma_lookup_without(
    entries: Seq<(BlockHash, Seq<u8>)>,
    hash: BlockHash,
    other: BlockHash,
)
    requires
        other != hash,
    ensures
        lookup(without(entries, hash), other) == lookup(entries, other),
    decreases entries.len(),
{
    let keep = has_other_key(hash);
    if entries.len() > 0 {
        let first = entries[0];
        let rest = entries.drop_first();
        assert(entries =~= seq![first] + rest);
        Seq::filter_distributes_over_add(seq![first], rest, keep);
        lemma_lookup_without(rest, hash, other);
        assert(seq![first].filter(keep) =~= if keep(first) { seq![first] } else {
            Seq::empty()
        }) by {
            reveal_with_fuel(Seq::filter, 2);
            assert(seq![first].drop_last() =~= Seq::<(BlockHash, Seq<u8>)>::empty());
        }
        if keep(first) {
            assert(without(entries, hash) =~= seq![first] + without(rest, hash));
            assert(without(entries, hash).drop_first() =~= without(rest, hash));
        } else {
            assert(without(entries, hash) =~= without(rest, hash));
        }
    } else {
        assert(entries.filter(keep) =~= entries) by {
            reveal(Seq::filter);
        }
    }
}

/// What a key finds is the data of some entry.
pub proof fn lemma_lookup_is_entry(entries: Seq<(BlockHash, Seq<u8>)>, hash: BlockHash)
    ensures
        lookup(entries, hash) matches Some(data) ==> exists|i: int|
            0 <= i < entries.len() && #[trigger] entries[i] == (hash, data),
        lookup(entries, hash) is Some <==> has_entry(entries, hash),
    decreases entries.len(),
{
    if entries.len() > 0 {
        let rest = entries.drop_first();
        lemma_lookup_is_entry(rest, hash);
        if entries[0].0 != hash {
            if has_entry(rest, hash) {
                let i = choose|i: int| 0 <= i < rest.len() && (#[trigger] rest[i]).0 == hash;
                assert(entries[i + 1] == rest[i]);
                let data = lookup(entries, hash)->0;
                let j = choose|j: int| 0 <= j < rest.len() && #[trigger] rest[j] == (hash, data);
                assert(entries[j + 1] == rest[j]);
            }
            if has_entry(entries, hash) {
                let i = choose|i: int| 0 <= i < entries.len() && (#[trigger] entries[i]).0 == hash;
                assert(rest[i - 1] == entries[i]);
            }
        }
    }
}

/// The entries of another key are entries of the cache, and there are no more of
/// them.
proof fn lemma_without_entries(entries: Seq<(BlockHash, Seq<u8>)>, hash: BlockHash)
    ensures
        without(entries, hash).len() <= entries.len(),
        has_entry(entries, hash) ==> without(entries, hash).len() < entries.len(),
        forall|i: int|
            0 <= i < without(entries, hash).len() ==> entries.contains(
                #[trigger] without(entries, hash)[i],
            ),
{
    let keep = has_other_key(hash);
    entries.lemma_filter_len(keep);
    assert forall|i: int| 0 <= i < without(entries, hash).len() implies entries.contains(
        #[trigger] without(entries, hash)[i],
    ) by {
        entries.lemma_filter_contains_rev(keep, without(entries, hash)[i]);
    }
    if has_entry(entries, hash) {
        let i = choose|i: int| 0 <= i < entries.len() && (#[trigger] entries[i]).0 == hash;
        let front = entries.take(i);
        let back = entries.skip(i + 1);
        assert(entries =~= front + (seq![entries[i]] + back));
        Seq::filter_distributes_over_add(front, seq![entries[i]] + back, keep);
        Seq::filter_distributes_over_add(seq![entries[i]], back, keep);
        front.lemma_filter_len(keep);
        back.lemma_filter_len(keep);
        assert(seq![entries[i]].filter(keep).len() == 0) by {
            reveal_with_fuel(Seq::filter, 2);
        }
    }
}

/// A read adds no entry and drops none but those it brings to the front.
pub proof fn lemma_get_entries(entries: Seq<(BlockHash, Seq<u8>)>, hash: BlockHash)
    ensures
        after_get(entries, hash).len() <= entries.len(),
        forall|i: int|
            0 <= i < after_get(entries, hash).len() ==> entries.contains(
                #[trigger] after_get(entries, hash)[i],
            ),
{
    lemma_lookup_is_entry(entries, hash);
    lemma_without_entries(entries, hash);
    let after = after_get(entries, hash);
    assert forall|i: int| 0 <= i < after.len() implies entries.contains(#[trigger] after[i]) by {
        if lookup(entries, hash) is Some && i > 0 {
            assert(after[i] == without(entries, hash)[i - 1]);
        }
    }
}

/// A store adds the new entry only.
pub proof fn lemma_put_entries(
    entries: Seq<(BlockHash, Seq<u8>)>,
    capacity: nat,
    hash: BlockHash,
    data: Seq<u8>,
)
    ensures
        forall|i: int|
            0 <= i < after_put(entries, capacity, hash, data).len() ==> after_put(
                entries,
                capacity,
                hash,
                data,
            )[i] == (hash, data) || entries.contains(
                #[trigger] after_put(entries, capacity, hash, data)[i],
            ),
{
    lemma_without_entries(entries, hash);
    let after = after_put(entries, capacity, hash, data);
    assert forall|i: int| 0 <= i < after.len() implies after[i] == (hash, data)
        || entries.contains(#[trigger] after[i]) by {
        if i > 0 {
            if has_entry(entries, hash) {
                assert(after[i] == without(entries, hash)[i - 1]);
            } else if capacity != 0 {
                assert(after[i] == entries[i - 1]);
            }
        }
    }
}

/// What was stored last under a hash is what the next read of it returns, in
/// every cache made for at least one entry.
pub proof fn lemma_put_then_get(
    entries: Seq<(BlockHash, Seq<u8>)>,
    capacity: nat,
    hash: BlockHash,
    data: Seq<u8>,
)
    requires
        capacity > 0,
    ensures
        lookup(after_put(entries, capacity, hash, data), hash) == Some(data),
{
}

/// A read changes the order of the entries only: every key finds after it what it
/// found before.
pub proof fn lemma_get_keeps_contents(
    entries: Seq<(BlockHash, Seq<u8>)>,
    hash: BlockHash,
    other: BlockHash,
)
    ensures
        lookup(after_get(entries, hash), other) == lookup(entries, other),
{
    match lookup(entries, hash) {
        Some(data) => {
            let after = seq![(hash, data)] + without(entries, hash);
            assert(after.drop_first() =~= without(entries, hash));
            if other != hash {
                lemma_lookup_without(entries, hash, other);
            }
        },
        None => {},
    }
}

/// A cache never holds more entries than it was made for.
pub proof fn lemma_put_keeps_capacity(
    entries: Seq<(BlockHash, Seq<u8>)>,
    capacity: nat,
    hash: BlockHash,
    data: Seq<u8>,
)
    requires
        entries.len() <= capacity,
    ensures
        after_put(entries, capacity, hash, data).len() <= capacity,
{
    lemma_without_entries(entries, hash);
}

} // verus!
