//! Messages and pages of messages.
use crate::scale;
use frame_support::traits::ConstU32;
use frame_support::BoundedSlice;
use vstd::prelude::*;
use vstd::slice::{slice_subrange, slice_to_vec};

verus! {

/// Where a message comes from.
#[derive(Clone, Copy, PartialEq, Eq, Structural, Debug)]
pub enum MessageOrigin {
    /// From here.
    Here,
    /// From there.
    There,
    /// From a numbered place.
    Everywhere(u32),
}

impl From<u32> for MessageOrigin {
    fn from(i: u32) -> (origin: MessageOrigin) {
        MessageOrigin::Everywhere(i)
    }
}

impl vstd::std_specs::convert::FromSpecImpl<u32> for MessageOrigin {
    open spec fn obeys_from_spec() -> bool {
        true
    }

    open spec fn from_spec(i: u32) -> MessageOrigin {
        MessageOrigin::Everywhere(i)
    }
}

impl MessageOrigin {
    /// The wire form: a byte that tells the kind of origin, and the number of a numbered
    /// place.
    pub open spec fn wire(&self) -> Seq<u8> {
        match *self {
            MessageOrigin::Here => seq![0u8],
            MessageOrigin::There => seq![1u8],
            MessageOrigin::Everywhere(i) => seq![2u8] + scale::u32_le(i),
        }
    }

    /// Writes the origin down.
    pub fn encode(&self) -> (bytes: Vec<u8>)
        ensures
            bytes@ == self.wire(),
    {
        let mut bytes: Vec<u8> = Vec::new();
        match *self {
            MessageOrigin::Here => bytes.push(0),
            MessageOrigin::There => bytes.push(1),
            MessageOrigin::Everywhere(i) => {
                bytes.push(2);
                let mut number = scale::encode_u32(i);
                bytes.append(&mut number);
            },
        }
        bytes
    }

    /// Reads an origin from the start of the bytes, and tells how many of them it takes
    /// up. `None` where they start with no origin.
    pub fn decode(bytes: &[u8]) -> (read: Option<(MessageOrigin, usize)>)
        ensures
            match read {
                Some((origin, len)) => len <= bytes@.len() && bytes@.take(len as int)
                    == origin.wire(),
                None => forall|origin: MessageOrigin| !origin.wire().is_prefix_of(bytes@),
            },
    {
        proof {
            lemma_origin_wire_kind(bytes@);
        }
        if bytes.len() == 0 {
            return None;
        }
        match bytes[0] {
            0 => {
                assert(bytes@.take(1) =~= seq![0u8]);
                Some((MessageOrigin::Here, 1))
            },
            1 => {
                assert(bytes@.take(1) =~= seq![1u8]);
                Some((MessageOrigin::There, 1))
            },
            2 => match scale::decode_u32(slice_subrange(bytes, 1, bytes.len())) {
                Some(i) => {
                    proof {
                        let number = bytes@.subrange(1, bytes@.len() as int).take(4);
                        scale::lemma_u32_le_of_value(number, i);
                        assert(bytes@.take(5) =~= seq![2u8] + number);
                    }
                    Some((MessageOrigin::Everywhere(i), 5))
                },
                None => None,
            },
            _ => None,
        }
    }
}

/// Where the wire form of an origin starts the bytes, its kind is the first byte, and all
/// of it is there.
proof fn lemma_origin_wire_kind(bytes: Seq<u8>)
    ensures
        forall|origin: MessageOrigin| #[trigger]
            origin.wire().is_prefix_of(bytes) ==> origin.wire().len() <= bytes.len() && bytes[0]
                == origin.wire()[0] && bytes[0] <= 2 && (bytes[0] == 2 ==> bytes.len() >= 5),
{
    assert forall|origin: MessageOrigin| #[trigger]
        origin.wire().is_prefix_of(bytes) implies origin.wire().len() <= bytes.len() && bytes[0]
        == origin.wire()[0] && bytes[0] <= 2 && (bytes[0] == 2 ==> bytes.len() >= 5) by {
        assert(origin.wire()[0] == bytes.take(origin.wire().len() as int)[0]);
    }
}

/// The longest wire form that an origin has.
pub const MAX_ORIGIN_LEN: u32 = 5;

/// The length of the header of a message in a page.
pub const ITEM_HEADER_LEN: u32 = 5;

/// Calls `frame_support::BoundedSlice::truncate_from`: the result is the slice up to
/// the bound.
#[verifier::external_body]
fn truncate_from<'a, const N: u32>(bytes: &'a [u8]) -> (bounded: &'a [u8])
    ensures
        bounded@ == bytes@.take(
            if bytes@.len() < N {
                bytes@.len() as int
            } else {
                N as int
            },
        ),
{
    BoundedSlice::<u8, ConstU32<N>>::truncate_from(bytes).into()
}

/// A message with this text, up to `N` bytes of it.
pub fn msg<const N: u32>(x: &'static str) -> (message: &'static [u8])
    ensures
        message@ == vstd::utf8::encode_utf8(x@).take(
            if vstd::utf8::encode_utf8(x@).len() < N {
                vstd::utf8::encode_utf8(x@).len() as int
            } else {
                N as int
            },
        ),
{
    truncate_from::<N>(x.as_bytes())
}

/// A message with this text.
pub fn vmsg(x: &'static str) -> (message: Vec<u8>)
    ensures
        message@ == vstd::utf8::encode_utf8(x@),
{
    slice_to_vec(x.as_bytes())
}

/// A page of messages that takes up at most `HEAP_SIZE` bytes.
pub struct Page<const HEAP_SIZE: u32> {
    /// How many messages remain to be processed.
    pub remaining: u32,
    /// The size of all those messages.
    pub remaining_size: u32,
    /// How many messages stand before the first one that can be processed.
    pub first_index: u32,
    /// Where the first message that can be processed starts.
    pub first: u32,
    /// Where the last message starts.
    pub last: u32,
    /// The messages, each with a header and its origin in front.
    pub heap: Vec<u8>,
}

/// What stands in a page for a message: the length of what follows the header, a byte
/// for whether it was processed, the origin and the message.
pub open spec fn item(message: Seq<u8>, origin: Seq<u8>) -> Seq<u8> {
    scale::u32_le((origin.len() + message.len()) as u32) + seq![0u8] + origin + message
}

/// What stands in a page for empty messages from the first so many numbered places.
pub open spec fn empty_items(count: nat) -> Seq<u8>
    decreases count,
{
    if count == 0 {
        Seq::empty()
    } else {
        empty_items((count - 1) as nat) + item(
            Seq::empty(),
            MessageOrigin::Everywhere((count - 1) as u32).wire(),
        )
    }
}

impl<const HEAP_SIZE: u32> Page<HEAP_SIZE> {
    /// The page takes up no more than it may.
    pub open spec fn wf(&self) -> bool {
        self.heap@.len() <= HEAP_SIZE
    }

    /// A page without messages.
    pub fn empty() -> (page: Self)
        ensures
            page.wf(),
            page.remaining == 0,
            page.remaining_size == 0,
            page.first_index == 0,
            page.first == 0,
            page.last == 0,
            page.heap@.len() == 0,
    {
        Page {
            remaining: 0,
            remaining_size: 0,
            first_index: 0,
            first: 0,
            last: 0,
            heap: Vec::new(),
        }
    }

    /// Whether a message of the given length from an origin with a wire form of the
    /// given length fits into the page.
    pub open spec fn fits(&self, message: nat, origin: nat) -> bool {
        self.heap@.len() + ITEM_HEADER_LEN + origin + message <= HEAP_SIZE
    }

    /// Appends a message where it fits.
    pub fn try_append_message(&mut self, message: &[u8], origin: &[u8]) -> (result: Result<(), ()>)
        requires
            old(self).wf(),
            message@.len() <= u32::MAX,
            origin@.len() <= MAX_ORIGIN_LEN,
        ensures
            final(self).wf(),
            result is Ok <==> old(self).fits(message@.len(), origin@.len()),
            match result {
                Ok(()) => {
                    let size = (origin@.len() + message@.len()) as u32;
                    &&& final(self).heap@ == old(self).heap@ + item(message@, origin@)
                    &&& final(self).last == old(self).heap@.len()
                    &&& final(self).remaining == if old(self).remaining < u32::MAX {
                        old(self).remaining + 1
                    } else {
                        u32::MAX as int
                    }
                    &&& final(self).remaining_size == if old(self).remaining_size + size
                        <= u32::MAX {
                        old(self).remaining_size + size
                    } else {
                        u32::MAX as int
                    }
                    &&& final(self).first == old(self).first
                    &&& final(self).first_index == old(self).first_index
                },
                Err(()) => *final(self) == *old(self),
            },
    {
        let data_len: u64 = ITEM_HEADER_LEN as u64 + origin.len() as u64 + message.len() as u64;
        if (HEAP_SIZE as u64) - (self.heap.len() as u64) < data_len {
            return Err(());
        }
        let payload_len: u32 = origin.len() as u32 + message.len() as u32;
        let pos: u32 = self.heap.len() as u32;
        let mut header = scale::encode_u32(payload_len);
        header.push(0);
        self.heap.append(&mut header);
        let mut origin = slice_to_vec(origin);
        self.heap.append(&mut origin);
        let mut message = slice_to_vec(message);
        self.heap.append(&mut message);
        self.last = pos;
        self.remaining = self.remaining.saturating_add(1);
        self.remaining_size = self.remaining_size.saturating_add(payload_len);
        Ok(())
    }
}

/// A page with one message.
pub fn page<const HEAP_SIZE: u32>(msg: &[u8], origin: MessageOrigin) -> (page: Page<HEAP_SIZE>)
    requires
        msg@.len() + MAX_ORIGIN_LEN + ITEM_HEADER_LEN <= HEAP_SIZE,
    ensures
        page.wf(),
        page.heap@ == item(msg@, origin.wire()),
        page.remaining == 1,
        page.remaining_size == origin.wire().len() + msg@.len(),
        page.first_index == 0,
        page.first == 0,
        page.last == 0,
{
    let mut page = Page::empty();
    let origin = origin.encode();
    let result = page.try_append_message(msg, origin.as_slice());
    assert(result is Ok);
    page
}

/// The origins next to one in the ring of those with messages.
#[derive(Clone, Copy, PartialEq, Eq, Structural, Debug)]
pub struct Neighbours {
    /// The one before.
    pub prev: MessageOrigin,
    /// The one after.
    pub next: MessageOrigin,
}

/// The pages of an origin.
#[derive(Clone, Copy, PartialEq, Eq, Structural, Debug)]
pub struct BookState {
    /// The first page with messages to process.
    pub begin: u32,
    /// One more than the last page.
    pub end: u32,
    /// The number of pages.
    pub count: u32,
    /// The neighbours in the ring of origins with messages, if it is in there.
    pub ready_neighbours: Option<Neighbours>,
}

/// A book with a single page.
pub fn single_page_book() -> (book: BookState)
    ensures
        book == (BookState { begin: 0, end: 1, count: 1, ready_neighbours: None }),
{
    BookState { begin: 0, end: 1, count: 1, ready_neighbours: None }
}

/// How many bytes an empty message from a numbered place takes up in a page.
pub const EMPTY_ITEM_LEN: u32 = 10;

/// A page filled with empty messages, and their number.
pub fn full_page<const HEAP_SIZE: u32>() -> (filled: (Page<HEAP_SIZE>, usize))
    requires
        HEAP_SIZE >= EMPTY_ITEM_LEN,
    ensures
        filled.0.wf(),
        filled.1 == HEAP_SIZE / EMPTY_ITEM_LEN,
        filled.1 > 0,
        filled.0.heap@ == empty_items(filled.1 as nat),
        filled.0.remaining == filled.1,
        filled.0.remaining_size == filled.1 * MAX_ORIGIN_LEN,
        filled.0.first_index == 0,
        filled.0.first == 0,
        filled.0.last == (filled.1 - 1) * EMPTY_ITEM_LEN,
        !filled.0.fits(0, MAX_ORIGIN_LEN as nat),
{
    let mut page: Page<HEAP_SIZE> = Page::empty();
    let mut msgs: u32 = 0;
    let message: Vec<u8> = Vec::new();
    assert(page.heap@ =~= empty_items(0));
    while msgs < u32::MAX
        invariant
            page.wf(),
            message@.len() == 0,
            page.heap@ == empty_items(msgs as nat),
            page.heap@.len() == msgs * EMPTY_ITEM_LEN,
            page.remaining == msgs,
            page.remaining_size == msgs * MAX_ORIGIN_LEN,
            page.first_index == 0,
            page.first == 0,
            msgs > 0 ==> page.last == (msgs - 1) * EMPTY_ITEM_LEN,
            HEAP_SIZE >= EMPTY_ITEM_LEN,
        ensures
            msgs == HEAP_SIZE / EMPTY_ITEM_LEN,
        decreases u32::MAX - msgs,
    {
        let origin = MessageOrigin::Everywhere(msgs).encode();
        if page.try_append_message(message.as_slice(), origin.as_slice()).is_err() {
            break;
        }
        assert(message@ =~= Seq::<u8>::empty());
        msgs = msgs + 1;
    }
    (page, msgs as usize)
}

/// The header of a message in a page tells how many bytes follow it, so that the next
/// message is found.
pub proof fn lemma_header_tells_length(message: Seq<u8>, origin: Seq<u8>)
    requires
        origin.len() + message.len() <= u32::MAX,
    ensures
        item(message, origin).len() == ITEM_HEADER_LEN + scale::u32_le_value(
            item(message, origin).take(4),
        ),
        item(message, origin).skip(ITEM_HEADER_LEN as int) == origin + message,
{
    let size = (origin.len() + message.len()) as u32;
    scale::lemma_u32_le_round_trip(size);
    assert(item(message, origin).take(4) =~= scale::u32_le(size));
    assert(item(message, origin).skip(ITEM_HEADER_LEN as int) =~= origin + message);
}

/// At most one origin stands at the start of the same bytes, so that an origin is read
/// back whatever follows it.
pub proof fn lemma_origin_is_read_back(a: MessageOrigin, b: MessageOrigin, bytes: Seq<u8>)
    requires
        a.wire().is_prefix_of(bytes),
        b.wire().is_prefix_of(bytes),
    ensures
        a == b,
{
    lemma_origin_wire_kind(bytes);
    assert(a.wire().len() == b.wire().len());
    lemma_origin_wire_is_injective(a, b);
}

/// Different origins have different wire forms.
pub proof fn lemma_origin_wire_is_injective(a: MessageOrigin, b: MessageOrigin)
    requires
        a.wire() == b.wire(),
    ensures
        a == b,
{
    let kind = a.wire()[0];
    assert(kind == b.wire()[0]);
    match (a, b) {
        (MessageOrigin::Everywhere(i), MessageOrigin::Everywhere(j)) => {
            assert(scale::u32_le(i) =~= a.wire().skip(1));
            assert(scale::u32_le(j) =~= b.wire().skip(1));
            scale::lemma_u32_le_round_trip(i);
            scale::lemma_u32_le_round_trip(j);
        },
        (MessageOrigin::Everywhere(i), _) => {
            assert(kind == (seq![2u8] + scale::u32_le(i))[0]);
        },
        (_, MessageOrigin::Everywhere(j)) => {
            assert(kind == (seq![2u8] + scale::u32_le(j))[0]);
        },
        _ => {},
    }
}

} // verus!
