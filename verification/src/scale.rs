//! The SCALE wire format, as far as the crate reads and writes it.
//!
//! Integers travel in little-endian order, fixed arrays as their bytes, and a
//! tuple as the concatenation of its parts.
use parity_scale_codec::{Decode, DecodeAll, Encode};
use sc_network_common::role::Roles;
use sc_network_common::sync::message::{BlockAnnounce, BlockState};
use sp_runtime::generic::Header;
use sp_runtime::traits::BlakeTwo256;
use vstd::prelude::*;

verus! {

/// The four bytes of `x`, least significant first.
pub open spec fn u32_le(x: u32) -> Seq<u8> {
    seq![
        (x % 0x100) as u8,
        (x / 0x100 % 0x100) as u8,
        (x / 0x1_0000 % 0x100) as u8,
        (x / 0x100_0000) as u8,
    ]
}

/// The number that four bytes stand for, least significant first.
pub open spec fn u32_le_value(bytes: Seq<u8>) -> int {
    bytes[0] + bytes[1] * 0x100 + bytes[2] * 0x1_0000 + bytes[3] * 0x100_0000
}

/// The two bytes of `x`, least significant first.
pub open spec fn u16_le(x: int) -> Seq<u8> {
    seq![(x % 0x100) as u8, (x / 0x100) as u8]
}

/// The prefix that tells how many bytes a byte string holds: one, two, four or
/// five bytes, with the two low bits of the first byte telling which.
pub open spec fn compact_len(len: int) -> Seq<u8> {
    if len < 0x40 {
        seq![(len * 4) as u8]
    } else if len < 0x4000 {
        u16_le(len * 4 + 1)
    } else if len < 0x4000_0000 {
        u32_le((len * 4 + 2) as u32)
    } else {
        seq![3u8] + u32_le(len as u32)
    }
}

/// The wire form of a byte string.
pub open spec fn byte_string(data: Seq<u8>) -> Seq<u8> {
    compact_len(data.len() as int) + data
}

/// Whether `bits` names only roles that the network knows.
pub open spec fn known_role_bits(bits: u8) -> bool {
    bits <= 7
}

/// The wire form of the four fields of a block announces handshake.
pub open spec fn handshake_bytes(
    roles: u8,
    best_number: u32,
    best_hash: [u8; 32],
    genesis_hash: [u8; 32],
) -> Seq<u8> {
    seq![roles] + u32_le(best_number) + best_hash@ + genesis_hash@
}

/// What a block announcement holds, as plain values: the number of its header,
/// the wire form of its header, whether it claims to be the best block, and its
/// data. `None` where `bytes` is no block announcement.
pub uninterp spec fn block_announce_of(bytes: Seq<u8>) -> Option<
    (u32, Seq<u8>, Option<bool>, Option<Seq<u8>>),
>;

/// The number of the header whose wire form `bytes` are. `None` where they are not
/// the wire form of a header.
pub uninterp spec fn header_number_of(bytes: Seq<u8>) -> Option<u32>;

/// The wire form of what follows the header in a block announcement with a state and
/// data.
pub open spec fn announce_body(is_best: bool, data: Seq<u8>) -> Seq<u8> {
    seq![if is_best { 1u8 } else { 0u8 }] + byte_string(data)
}

/// The same plain values with the byte strings taken by their contents.
pub open spec fn announce_parts_view(
    parts: Option<(u32, Vec<u8>, Option<bool>, Option<Vec<u8>>)>,
) -> Option<(u32, Seq<u8>, Option<bool>, Option<Seq<u8>>)> {
    match parts {
        Some((number, header, is_best, Some(data))) => Some(
            (number, header@, is_best, Some(data@)),
        ),
        Some((number, header, is_best, None)) => Some((number, header@, is_best, None)),
        None => None,
    }
}

/// The BLAKE2b digest, 32 bytes long, of `data`.
pub uninterp spec fn blake2_256_of(data: Seq<u8>) -> [u8; 32];

/// Calls `parity_scale_codec::Encode::encode` on an `u32`: the result is the
/// number's four bytes, least significant first.
#[verifier::external_body]
pub(crate) fn encode_u32(x: u32) -> (bytes: Vec<u8>)
    ensures
        bytes@ == u32_le(x),
{
    x.encode()
}

/// Calls `parity_scale_codec::Decode::decode` for an `u32`: it succeeds exactly on inputs
/// of at least four bytes, and reads the number from the first four, least significant
/// first.
#[verifier::external_body]
pub(crate) fn decode_u32(bytes: &[u8]) -> (number: Option<u32>)
    ensures
        match number {
            Some(x) => bytes@.len() >= 4 && x == u32_le_value(bytes@.take(4)),
            None => bytes@.len() < 4,
        },
{
    u32::decode(&mut &bytes[..]).ok()
}

/// Calls `parity_scale_codec::Encode::encode` on a tuple: the result is the wire
/// forms of its four parts one after the other, an array being its own bytes.
#[verifier::external_body]
pub(crate) fn encode_handshake(
    roles: u8,
    best_number: u32,
    best_hash: [u8; 32],
    genesis_hash: [u8; 32],
) -> (bytes: Vec<u8>)
    ensures
        bytes@ == handshake_bytes(roles, best_number, best_hash, genesis_hash),
{
    (roles, best_number, best_hash, genesis_hash).encode()
}

/// Calls `parity_scale_codec::DecodeAll::decode_all` for a tuple of
/// `sc_network_common::role::Roles`, an `u32` and two arrays: it succeeds exactly
/// on inputs of their joint length whose first byte names known roles, and then
/// reads each part from its place.
#[verifier::external_body]
pub(crate) fn decode_handshake(bytes: &[u8]) -> (parts: Option<(u8, u32, [u8; 32], [u8; 32])>)
    ensures
        match parts {
            Some((roles, best_number, best_hash, genesis_hash)) => {
                &&& bytes@.len() == 69
                &&& known_role_bits(bytes@[0])
                &&& roles == bytes@[0]
                &&& best_number == u32_le_value(bytes@.subrange(1, 5))
                &&& best_hash@ == bytes@.subrange(5, 37)
                &&& genesis_hash@ == bytes@.subrange(37, 69)
            },
            None => bytes@.len() != 69 || !known_role_bits(bytes@[0]),
        },
{
    let parts = <(Roles, u32, [u8; 32], [u8; 32])>::decode_all(&mut &bytes[..]);
    parts.ok().map(|(roles, number, best, genesis)| (roles.bits(), number, best, genesis))
}

/// Calls `parity_scale_codec::DecodeAll::decode_all` for
/// `sc_network_common::role::Roles`: it succeeds exactly on a single byte that
/// names known roles, and returns that byte.
#[verifier::external_body]
pub(crate) fn decode_roles(bytes: &[u8]) -> (roles: Option<u8>)
    ensures
        roles == (if bytes@.len() == 1 && known_role_bits(bytes@[0]) {
            Some(bytes@[0])
        } else {
            None
        }),
{
    Roles::decode_all(&mut &bytes[..]).ok().map(|roles| roles.bits())
}

/// Calls `parity_scale_codec::DecodeAll::decode_all` for
/// `sp_runtime::generic::Header<u32, BlakeTwo256>`, and takes the number out of the
/// result.
#[verifier::external_body]
pub(crate) fn decode_header(bytes: &[u8]) -> (number: Option<u32>)
    ensures
        number == header_number_of(bytes@),
{
    Header::<u32, BlakeTwo256>::decode_all(&mut &bytes[..]).ok().map(|header| header.number)
}

/// Calls `parity_scale_codec::Decode::decode` for
/// `sc_network_common::sync::message::BlockAnnounce` over
/// `sp_runtime::generic::Header<u32, BlakeTwo256>`, and takes the result apart
/// into the header's number, the header's wire form, the claim to be the best
/// block, and the data. The parts of an announcement follow one another and each
/// is read from its place: the wire form of a header, one byte for the state and a
/// byte string are read as that header, that state and those bytes.
#[verifier::external_body]
pub(crate) fn decode_block_announce(bytes: &[u8]) -> (parts: Option<
    (u32, Vec<u8>, Option<bool>, Option<Vec<u8>>),
>)
    ensures
        announce_parts_view(parts) == block_announce_of(bytes@),
        forall|header: Seq<u8>, is_best: bool, data: Seq<u8>|
            #![trigger header_number_of(header), announce_body(is_best, data)]
            header_number_of(header) is Some && data.len() <= u32::MAX && bytes@ == header
                + announce_body(is_best, data) ==> announce_parts_view(parts) == Some(
                (header_number_of(header)->0, header, Some(is_best), Some(data)),
            ),
{
    let announce = BlockAnnounce::<Header<u32, BlakeTwo256>>::decode(&mut &bytes[..]).ok()?;
    let is_best = announce.state.map(|state| match state {
        BlockState::Best => true,
        BlockState::Normal => false,
    });
    Some((announce.header.number, announce.header.encode(), is_best, announce.data))
}

/// Calls `parity_scale_codec::Encode::encode` on
/// `sc_network_common::sync::message::BlockAnnounce` with a state and data and,
/// in the header's place, `()`, which has no wire form of its own: the result is
/// one byte for the state (1 for the best block, 0 for any other) followed by the
/// data as a byte string.
#[verifier::external_body]
pub(crate) fn encode_announce_body(is_best: bool, data: &Vec<u8>) -> (bytes: Vec<u8>)
    requires
        data@.len() <= u32::MAX,
    ensures
        bytes@ == announce_body(is_best, data@),
{
    let state = if is_best { BlockState::Best } else { BlockState::Normal };
    BlockAnnounce { header: (), state: Some(state), data: Some(data.clone()) }.encode()
}

/// Calls `sp_runtime::traits::Hash::hash` for `BlakeTwo256`, the digest that a
/// header's hash is taken with.
#[verifier::external_body]
pub(crate) fn blake2_256(data: &[u8]) -> (digest: [u8; 32])
    ensures
        digest == blake2_256_of(data@),
{
    <BlakeTwo256 as sp_runtime::traits::Hash>::hash(data).0
}

/// Reading the four bytes of a number gives that number back.
pub proof fn lemma_u32_le_round_trip(x: u32)
    ensures
        u32_le(x).len() == 4,
        u32_le_value(u32_le(x)) == x,
{
}

/// The bytes of the number that four bytes stand for are those bytes.
pub proof fn lemma_u32_le_of_value(bytes: Seq<u8>, x: u32)
    requires
        bytes.len() == 4,
        x == u32_le_value(bytes),
    ensures
        u32_le(x) == bytes,
{
    let (b0, b1, b2, b3) = (bytes[0] as int, bytes[1] as int, bytes[2] as int, bytes[3] as int);
    let high = b1 + b2 * 0x100 + b3 * 0x1_0000;
    let higher = b2 + b3 * 0x100;
    assert(x == b0 + high * 0x100);
    assert(x as int / 0x100 == high && x as int % 0x100 == b0);
    assert(high == b1 + higher * 0x100);
    assert(high % 0x100 == b1);
    assert(x == b0 + b1 * 0x100 + higher * 0x1_0000);
    assert(x as int / 0x1_0000 == higher);
    assert(higher % 0x100 == b2);
    assert(x as int / 0x100_0000 == b3);
    assert(u32_le(x) =~= bytes);
}

/// How many bytes a byte string holds is told by its prefix: the two low bits of the first
/// byte tell the length of the prefix, and the number is in the other bits, least
/// significant first, or in the four bytes behind where it is too great for that.
pub proof fn lemma_prefix_tells_the_length(data: Seq<u8>, rest: Seq<u8>)
    requires
        data.len() <= u32::MAX,
    ensures
        ({
            let bytes = byte_string(data) + rest;
            let kind = bytes[0] as int % 4;
            let prefix: int = if kind == 0 {
                1
            } else if kind == 1 {
                2
            } else if kind == 2 {
                4
            } else {
                5
            };
            let two = bytes[0] + bytes[1] * 0x100;
            let four = two + bytes[2] * 0x1_0000 + bytes[3] * 0x100_0000;
            let behind = bytes[1] + bytes[2] * 0x100 + bytes[3] * 0x1_0000 + bytes[4] * 0x100_0000;
            &&& data.len() == if kind == 0 {
                bytes[0] as int / 4
            } else if kind == 1 {
                two / 4
            } else if kind == 2 {
                four / 4
            } else {
                behind
            }
            &&& byte_string(data).len() == prefix + data.len()
            &&& bytes.subrange(prefix, prefix + data.len()) == data
            &&& kind == 3 ==> bytes[0] == 3
            &&& kind == 0 <==> data.len() < 64
            &&& kind <= 1 <==> data.len() < 16384
            &&& kind <= 2 <==> data.len() < 1073741824
        }),
{
    let len = data.len() as int;
    let prefix = compact_len(len);
    let bytes = byte_string(data) + rest;
    assert(bytes.subrange(prefix.len() as int, (prefix.len() + data.len()) as int)
        =~= data);
    assert forall|i: int| 0 <= i < prefix.len() implies #[trigger] bytes[i] == prefix[i] by {}
    if len < 0x40 {
        assert(prefix[0] == len * 4);
    } else if len < 0x4000 {
        let x = len * 4 + 1;
        assert(prefix[0] == x % 0x100 && prefix[1] == x / 0x100);
    } else if len < 0x4000_0000 {
        let x = (len * 4 + 2) as u32;
        lemma_u32_le_round_trip(x);
        assert(prefix[0] == x % 0x100);
    } else {
        lemma_u32_le_round_trip(len as u32);
        assert(prefix[0] == 3);
        assert(prefix.skip(1) =~= u32_le(len as u32));
    }
}

} // verus!
