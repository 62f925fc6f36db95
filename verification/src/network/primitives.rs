//! The values that the networking modules exchange.
use crate::scale;
use vstd::prelude::*;

verus! {

/// A peer, numbered by the embedding node: equal numbers stand for equal peers.
pub type PeerId = u64;

/// The index of a set of peers.
pub type SetId = usize;

/// The hash of a block.
pub type BlockHash = [u8; 32];

/// The number of a block.
pub type BlockNumber = u32;

/// Whether two hashes are equal.
pub fn hash_eq(a: &BlockHash, b: &BlockHash) -> (equal: bool)
    ensures
        equal == (*a == *b),
{
    let mut i: usize = 0;
    while i < 32
        invariant
            i <= 32,
            forall|j: int| 0 <= j < i ==> a@[j] == b@[j],
        decreases 32 - i,
    {
        if a[i] != b[i] {
            return false;
        }
        i = i + 1;
    }
    assert(a@ =~= b@);
    assert(*a =~= *b);
    true
}

/// The roles that a node fulfils, one bit each: 1 for a full node, 2 for a light
/// client, 4 for an authority.
#[derive(Clone, Copy, PartialEq, Eq, Structural, Debug)]
pub struct Roles {
    /// The bits.
    pub bits: u8,
}

impl Roles {
    /// Whether the node holds the full chain: it is a full node or an authority.
    #[verifier::allow_in_spec]
    pub fn is_full(&self) -> bool
        returns
            self.bits & 0b101u8 != 0,
    {
        self.bits & 0b101u8 != 0
    }

    /// Whether the bits name only roles that the network knows.
    #[verifier::allow_in_spec]
    pub fn is_known(&self) -> bool
        returns
            scale::known_role_bits(self.bits),
    {
        self.bits <= 7
    }

    /// Whether the node does not hold the full chain.
    #[verifier::allow_in_spec]
    pub fn is_light(&self) -> bool
        returns
            !self.is_full(),
    {
        !self.is_full()
    }
}

/// A change of a peer's reputation.
#[derive(Clone, Copy, PartialEq, Eq, Debug)]
pub struct ReputationChange {
    /// By how much the reputation changes.
    pub value: i32,
    /// Why it changes.
    pub reason: &'static str,
}

/// A peer that misbehaved, and what that does to its reputation.
#[derive(Clone, Copy, PartialEq, Eq, Debug)]
pub struct BadPeer(pub PeerId, pub ReputationChange);

/// Whether an announced block is the best one of its sender.
#[derive(Clone, Copy, PartialEq, Eq, Structural, Debug)]
pub enum BlockState {
    /// The block is not the best one.
    Normal,
    /// The block is the best one.
    Best,
}

/// A block header.
#[derive(Debug)]
pub struct Header {
    /// The number of the block.
    pub number: BlockNumber,
    /// The header's wire form.
    pub encoded: Vec<u8>,
}

impl Header {
    /// The number is that of the header whose wire form is given.
    pub open spec fn is_valid(&self) -> bool {
        scale::header_number_of(self.encoded@) == Some(self.number)
    }

    /// Reads a header from its wire form. `None` where the bytes are not one.
    pub fn decode_all(encoded: Vec<u8>) -> (header: Option<Header>)
        ensures
            match header {
                Some(header) => header.is_valid() && header.encoded == encoded,
                None => scale::header_number_of(encoded@) is None,
            },
    {
        match scale::decode_header(encoded.as_slice()) {
            Some(number) => Some(Header { number, encoded }),
            None => None,
        }
    }

    /// The hash of the header: the digest of its wire form.
    pub open spec fn spec_hash(&self) -> BlockHash {
        scale::blake2_256_of(self.encoded@)
    }

    /// The hash of the header.
    pub fn hash(&self) -> (hash: BlockHash)
        ensures
            hash == self.spec_hash(),
    {
        scale::blake2_256(self.encoded.as_slice())
    }
}

/// The announcement of a block.
#[derive(Debug)]
pub struct BlockAnnounce {
    /// The header of the block.
    pub header: Header,
    /// What the sender says of the block, where it says anything.
    pub state: Option<BlockState>,
    /// Data that goes with the announcement.
    pub data: Option<Vec<u8>>,
}

/// The parts of a block, one bit each.
#[derive(Clone, Copy, PartialEq, Eq, Structural, Debug)]
pub struct BlockAttributes {
    /// The bits.
    pub bits: u8,
}

impl BlockAttributes {
    /// The justification alone.
    #[verifier::allow_in_spec]
    pub fn justification() -> BlockAttributes
        returns
            (BlockAttributes { bits: 0b0001_0000 }),
    {
        BlockAttributes { bits: 0b0001_0000 }
    }
}

/// Where a sequence of blocks starts.
#[derive(Clone, Copy, Debug)]
pub enum FromBlock {
    /// At the block with this hash.
    BlockHash(BlockHash),
    /// At the block with this number.
    Number(BlockNumber),
}

/// The direction of a sequence of blocks.
#[derive(Clone, Copy, PartialEq, Eq, Structural, Debug)]
pub enum Direction {
    /// From parent to child.
    Ascending,
    /// From child to parent.
    Descending,
}

/// A request for blocks.
#[derive(Clone, Copy, Debug)]
pub struct BlockRequest {
    /// The request's identifier.
    pub id: u64,
    /// The parts of the blocks that are asked for.
    pub fields: BlockAttributes,
    /// Where the sequence starts.
    pub from: FromBlock,
    /// The direction of the sequence.
    pub direction: Direction,
    /// How many blocks to return at most.
    pub max: Option<u32>,
}

/// What a response holds of one block.
#[derive(Debug)]
pub struct BlockData {
    /// The hash of the header.
    pub hash: BlockHash,
    /// The header.
    pub header: Option<Header>,
    /// The extrinsics, each in its wire form.
    pub body: Option<Vec<Vec<u8>>>,
    /// The indexed transactions.
    pub indexed_body: Option<Vec<Vec<u8>>>,
    /// The receipt.
    pub receipt: Option<Vec<u8>>,
    /// The message queue.
    pub message_queue: Option<Vec<u8>>,
    /// The justification.
    pub justification: Option<Vec<u8>>,
    /// The justifications, each with the consensus engine it belongs to.
    pub justifications: Option<Vec<([u8; 4], Vec<u8>)>>,
}

/// The response to a request for blocks.
#[derive(Debug)]
pub struct BlockResponse {
    /// The identifier of the request.
    pub id: u64,
    /// The blocks.
    pub blocks: Vec<BlockData>,
}

} // verus!
