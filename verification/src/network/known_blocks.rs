//! A bounded set of block hashes that forgets the oldest one.
use crate::network::primitives::{hash_eq, BlockHash};
use vstd::prelude::*;

verus! {

/// A set of block hashes in the order of their last insertion, oldest first, that
/// stays below its limit.
pub struct LruHashSet {
    set: Vec<BlockHash>,
    limit: usize,
}

impl View for LruHashSet {
    type V = Seq<BlockHash>;

    closed spec fn view(&self) -> Seq<BlockHash> {
        self.set@
    }
}

/// The hashes after `hash` was inserted into `known`: it is the newest one. Where
/// it is new and would bring the set to `limit`, the oldest one leaves.
pub open spec fn after_insert(
    known: Seq<BlockHash>,
    limit: nat,
    hash: BlockHash,
) -> Seq<BlockHash> {
    if known.contains(hash) {
        known.remove_value(hash).push(hash)
    } else if known.len() + 1 == limit {
        known.push(hash).drop_first()
    } else {
        known.push(hash)
    }
}

impl LruHashSet {
    /// The limit that the set was made with.
    pub closed spec fn limit(&self) -> nat {
        self.limit as nat
    }

    /// No hash occurs twice, and the set is below its limit.
    pub open spec fn wf(&self) -> bool {
        &&& self@.no_duplicates()
        &&& self@.len() < self.limit()
    }

    /// An empty set.
    pub fn new(limit: usize) -> (known: LruHashSet)
        requires
            limit > 0,
        ensures
            known@ == Seq::<BlockHash>::empty(),
            known.limit() == limit,
            known.wf(),
    {
        LruHashSet { set: Vec::new(), limit }
    }

    /// Where `hash` stands in the set.
    fn position(&self, hash: &BlockHash) -> (position: Option<usize>)
        ensures
            match position {
                Some(i) => i < self@.len() && self@[i as int] == *hash,
                None => !self@.contains(*hash),
            },
    {
        let mut i: usize = 0;
        while i < self.set.len()
            invariant
                i <= self.set@.len(),
                forall|j: int| 0 <= j < i ==> self.set@[j] != *hash,
            decreases self.set@.len() - i,
        {
            if hash_eq(&self.set[i], hash) {
                return Some(i);
            }
            i = i + 1;
        }
        None
    }

    /// Inserts `hash` as the newest one and tells whether it was new.
    pub fn insert(&mut self, hash: BlockHash) -> (inserted: bool)
        requires
            old(self).wf(),
        ensures
            inserted == !old(self)@.contains(hash),
            final(self)@ == after_insert(old(self)@, old(self).limit(), hash),
            final(self).limit() == old(self).limit(),
            final(self).wf(),
    {
        proof {
            lemma_insert(self@, self.limit(), hash);
        }
        match self.position(&hash) {
            Some(i) => {
                proof {
                    self@.index_of_first_ensures(hash);
                    assert(self@.index_of_first(hash) == Some(i as int));
                }
                self.set.remove(i);
                self.set.push(hash);
                false
            },
            None => {
                self.set.push(hash);
                if self.set.len() == self.limit {
                    self.set.remove(0);
                    assert(self@ =~= old(self)@.push(hash).drop_first());
                }
                true
            },
        }
    }
}

impl Clone for LruHashSet {
    fn clone(&self) -> (known: LruHashSet)
        ensures
            known@ == self@,
            known.limit() == self.limit(),
    {
        let mut set: Vec<BlockHash> = Vec::new();
        let mut i: usize = 0;
        while i < self.set.len()
            invariant
                i <= self.set@.len(),
                set@ == self.set@.take(i as int),
            decreases self.set@.len() - i,
        {
            set.push(self.set[i]);
            i = i + 1;
            assert(set@ =~= self.set@.take(i as int));
        }
        assert(set@ =~= self.set@);
        LruHashSet { set, limit: self.limit }
    }
}

/// Inserting keeps every hash single and the set below its limit, and forgets no
/// more than the oldest hash.
pub proof fn lemma_insert(known: Seq<BlockHash>, limit: nat, hash: BlockHash)
    requires
        known.no_duplicates(),
        known.len() < limit,
    ensures
        after_insert(known, limit, hash).no_duplicates(),
        after_insert(known, limit, hash).len() < limit,
        forall|other: BlockHash| #[trigger]
            after_insert(known, limit, hash).contains(other) ==> other == hash || known.contains(
                other,
            ),
        forall|i: int|
            1 <= i < known.len() ==> after_insert(known, limit, hash).contains(
                #[trigger] known[i],
            ),
{
    let after = after_insert(known, limit, hash);
    known.index_of_first_ensures(hash);
    if known.contains(hash) {
        let at = known.index_of_first(hash)->0;
        assert forall|i: int| 1 <= i < known.len() implies after.contains(#[trigger] known[i]) by {
            if i < at {
                assert(after[i] == known[i]);
            } else if i == at {
                assert(after[after.len() - 1] == known[i]);
            } else {
                assert(after[i - 1] == known[i]);
            }
        }
    } else {
        assert forall|i: int| 1 <= i < known.len() implies after.contains(#[trigger] known[i]) by {
            if known.len() + 1 == limit {
                assert(after[i - 1] == known[i]);
            } else {
                assert(after[i] == known[i]);
            }
        }
    }
}

/// A hash that was just inserted is known, unless the limit is one, at which the
/// set keeps nothing.
pub proof fn lemma_inserted_is_known(known: Seq<BlockHash>, limit: nat, hash: BlockHash)
    requires
        known.no_duplicates(),
        known.len() < limit,
        limit > 1,
    ensures
        after_insert(known, limit, hash).contains(hash),
        after_insert(known, limit, hash).last() == hash,
{
    let after = after_insert(known, limit, hash);
    known.index_of_first_ensures(hash);
    assert(after[after.len() - 1] == hash);
}

} // verus!
