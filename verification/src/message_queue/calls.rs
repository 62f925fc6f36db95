//! What the calls of the message queue do, told from their arguments and results alone.
use crate::message_queue::page::{
    self, full_page, msg, single_page_book, vmsg, BookState, MessageOrigin, Page,
};
use crate::message_queue::processor::{
    self, parse_weight, ProcessMessageError, SimpleTestMessageProcessor, TestMessageProcessor,
};
use crate::message_queue::weight::{IntoWeight, MockedWeightInfo, Weight};
use crate::scale;
use vstd::prelude::*;

verus! {

/// The text `weight=`.
pub open spec fn weight_text() -> Seq<u8> {
    seq![119u8, 101u8, 105u8, 103u8, 104u8, 116u8, 61u8]
}

/// Whether a byte is a digit from 0 to 9.
pub open spec fn is_decimal(byte: u8) -> bool {
    48 <= byte <= 57
}

/// The text is the prefix.
proof fn lemma_weight_text()
    ensures
        weight_text() == processor::weight_prefix(),
{
    assert(weight_text() =~= processor::weight_prefix());
}

/// A message that does not start with the text `weight=` takes the weight one, and one
/// where no digit follows that text takes none.
pub proof fn lemma_messages_without_a_number(message: &[u8], weight: Option<u64>)
    requires
        call_ensures(parse_weight, (message,), weight),
    ensures
        !(message@.len() >= 7 && message@.take(7) == weight_text()) ==> weight == Some(1u64),
        message@.len() >= 7 && message@.take(7) == weight_text() && (message@.len() == 7
            || !is_decimal(message@[7])) ==> weight == Some(0u64),
{
    lemma_weight_text();
    if message@.len() >= 7 && message@.take(7) == weight_text() && (message@.len() == 7
        || !is_decimal(message@[7])) {
        let rest = message@.skip(7);
        if rest.len() > 0 {
            assert(rest[0] == message@[7]);
        }
        assert(processor::digits_at_start(rest) == 0);
        assert(rest.take(0) =~= Seq::<u8>::empty());
    }
}

/// One more digit makes the number ten times as great and adds the digit, whatever follows
/// the digits. A number of more than 64 bits is none.
pub proof fn lemma_one_more_digit(
    message: &[u8],
    longer: &[u8],
    digits: Seq<u8>,
    digit: u8,
    rest: Seq<u8>,
    other_rest: Seq<u8>,
    weight: Option<u64>,
    longer_weight: Option<u64>,
)
    requires
        forall|i: int| 0 <= i < digits.len() ==> is_decimal(#[trigger] digits[i]),
        is_decimal(digit),
        rest.len() > 0 ==> !is_decimal(rest[0]),
        other_rest.len() > 0 ==> !is_decimal(other_rest[0]),
        message@ == weight_text() + digits + rest,
        longer@ == weight_text() + digits.push(digit) + other_rest,
        call_ensures(parse_weight, (message,), weight),
        call_ensures(parse_weight, (longer,), longer_weight),
    ensures
        weight is None ==> longer_weight is None,
        weight is Some && weight->0 * 10 + (digit - 48) <= u64::MAX ==> longer_weight is Some
            && longer_weight->0 == weight->0 * 10 + (digit - 48),
        weight is Some && weight->0 * 10 + (digit - 48) > u64::MAX ==> longer_weight is None,
{
    lemma_weight_text();
    let more = digits.push(digit);
    assert forall|i: int| 0 <= i < more.len() implies processor::is_digit(#[trigger] more[i]) by {
        if i < digits.len() {
            assert(is_decimal(digits[i]));
        }
    }
    assert forall|i: int| 0 <= i < digits.len() implies processor::is_digit(
        #[trigger] digits[i],
    ) by {
        assert(is_decimal(digits[i]));
    }
    processor::lemma_told_weight(digits, rest);
    processor::lemma_told_weight(more, other_rest);
    assert(more.drop_last() =~= digits);
}

/// What follows the digits does not count.
pub proof fn lemma_what_follows_does_not_count(
    message: &[u8],
    other: &[u8],
    digits: Seq<u8>,
    rest: Seq<u8>,
    other_rest: Seq<u8>,
    weight: Option<u64>,
    other_weight: Option<u64>,
)
    requires
        forall|i: int| 0 <= i < digits.len() ==> is_decimal(#[trigger] digits[i]),
        rest.len() > 0 ==> !is_decimal(rest[0]),
        other_rest.len() > 0 ==> !is_decimal(other_rest[0]),
        message@ == weight_text() + digits + rest,
        other@ == weight_text() + digits + other_rest,
        call_ensures(parse_weight, (message,), weight),
        call_ensures(parse_weight, (other,), other_weight),
    ensures
        weight == other_weight,
{
    lemma_weight_text();
    assert forall|i: int| 0 <= i < digits.len() implies processor::is_digit(
        #[trigger] digits[i],
    ) by {
        assert(is_decimal(digits[i]));
    }
    processor::lemma_told_weight(digits, rest);
    processor::lemma_told_weight(digits, other_rest);
}

/// A message is processed exactly where neither component of the limit is below its
/// weight, and then takes exactly that weight in both. It is remembered behind the others,
/// with its origin; one that is not processed is not. Whoever processes it, the result is
/// the same.
pub proof fn lemma_messages_are_processed_within_the_limit(
    remembering: &mut TestMessageProcessor,
    counting: &mut SimpleTestMessageProcessor,
    message: &[u8],
    origin: MessageOrigin,
    limit: Weight,
    weight: Option<u64>,
    result: Result<(bool, Weight), ProcessMessageError>,
    other_result: Result<(bool, Weight), ProcessMessageError>,
)
    requires
        weight is Some,
        call_ensures(parse_weight, (message,), weight),
        call_ensures(
            TestMessageProcessor::process_message,
            (remembering, message, origin, limit),
            result,
        ),
        call_ensures(
            SimpleTestMessageProcessor::process_message,
            (counting, message, origin, limit),
            other_result,
        ),
    ensures
        other_result == result,
        ({
            let n = weight->0;
            let fits = n <= limit.ref_time && n <= limit.proof_size;
            let before = old(remembering)@;
            let after = final(remembering)@;
            &&& result is Ok <==> fits
            &&& fits ==> {
                &&& result->Ok_0.0
                &&& result->Ok_0.1.ref_time == n
                &&& result->Ok_0.1.proof_size == n
                &&& after.len() == before.len() + 1
                &&& after[before.len() as int] == (message@, origin)
                &&& forall|i: int| 0 <= i < before.len() ==> #[trigger] after[i] == before[i]
                &&& final(counting)@ == old(counting)@ + 1
            }
            &&& !fits ==> {
                &&& result->Err_0 == ProcessMessageError::Overweight(
                    Weight { ref_time: n, proof_size: n },
                )
                &&& after == before
                &&& final(counting)@ == old(counting)@
            }
        }),
{
}

/// A new processor has processed nothing, and what one tells is what it has processed.
pub proof fn lemma_what_processors_tell(
    new: TestMessageProcessor,
    new_counting: SimpleTestMessageProcessor,
    remembering: &TestMessageProcessor,
    counting: &SimpleTestMessageProcessor,
    messages: &Vec<(Vec<u8>, MessageOrigin)>,
    count: usize,
)
    requires
        call_ensures(TestMessageProcessor::new, (), new),
        call_ensures(SimpleTestMessageProcessor::new, (), new_counting),
        call_ensures(TestMessageProcessor::messages_processed, (remembering,), messages),
        call_ensures(SimpleTestMessageProcessor::num_messages_processed, (counting,), count),
    ensures
        new@.len() == 0,
        new_counting@ == 0,
        messages@.len() == remembering@.len(),
        forall|i: int|
            0 <= i < messages@.len() ==> (#[trigger] messages@[i]).0@ == remembering@[i].0
                && messages@[i].1 == remembering@[i].1,
        count == counting@,
{
    let views = processor::messages_view(messages@);
    assert(views.len() == messages@.len());
    assert forall|i: int| 0 <= i < messages@.len() implies (#[trigger] messages@[i]).0@
        == remembering@[i].0 && messages@[i].1 == remembering@[i].1 by {
        assert(views[i] == (messages@[i].0@, messages@[i].1));
    }
}

/// Whether this is the weight of the call: the one that was set for it, or none.
pub open spec fn is_weight_of(info: MockedWeightInfo, call_name: Seq<char>, weight: Weight) -> bool {
    &&& info@.contains_key(call_name) ==> weight == info@[call_name]
    &&& !info@.contains_key(call_name) ==> weight.ref_time == 0 && weight.proof_size == 0
}

/// Each call has the weight that was set for it under its own name, and none where none
/// was. At first none is set, and setting one changes no other.
pub proof fn lemma_weights_of_calls(
    new: MockedWeightInfo,
    changed: &mut MockedWeightInfo,
    call_name: &str,
    weight: Weight,
    nothing: (),
    info: &MockedWeightInfo,
    page_base: Weight,
    queue_base: Weight,
    process_message: Weight,
    bump_head: Weight,
    page_item: Weight,
    ring_unknit: Weight,
)
    requires
        call_ensures(MockedWeightInfo::new, (), new),
        call_ensures(MockedWeightInfo::set_weight, (changed, call_name, weight), nothing),
        call_ensures(MockedWeightInfo::service_page_base, (info,), page_base),
        call_ensures(MockedWeightInfo::service_queue_base, (info,), queue_base),
        call_ensures(MockedWeightInfo::service_page_process_message, (info,), process_message),
        call_ensures(MockedWeightInfo::bump_service_head, (info,), bump_head),
        call_ensures(MockedWeightInfo::service_page_item, (info,), page_item),
        call_ensures(MockedWeightInfo::ready_ring_unknit, (info,), ring_unknit),
    ensures
        forall|name: Seq<char>| !#[trigger] new@.contains_key(name),
        final(changed)@.contains_key(call_name@),
        final(changed)@[call_name@] == weight,
        forall|name: Seq<char>|
            #![trigger final(changed)@.contains_key(name)]
            #![trigger old(changed)@.contains_key(name)]
            name != call_name@ ==> final(changed)@.contains_key(name) == old(changed)@.contains_key(name) && final(changed)@[name] == old(changed)@[name],
        is_weight_of(*info, "service_page_base"@, page_base),
        is_weight_of(*info, "service_queue_base"@, queue_base),
        is_weight_of(*info, "service_page_process_message"@, process_message),
        is_weight_of(*info, "bump_service_head"@, bump_head),
        is_weight_of(*info, "service_page_item"@, page_item),
        is_weight_of(*info, "ready_ring_unknit"@, ring_unknit),
{
}

/// An origin that was written down is read back whatever follows it, with the number of its
/// bytes, and what is read starts the bytes.
pub proof fn lemma_written_origins_are_read(
    origin: &MessageOrigin,
    written: Vec<u8>,
    bytes: &[u8],
    read: Option<(MessageOrigin, usize)>,
    again: Vec<u8>,
)
    requires
        call_ensures(MessageOrigin::encode, (origin,), written),
        call_ensures(MessageOrigin::decode, (bytes,), read),
        read is Some ==> call_ensures(MessageOrigin::encode, (&(read->0).0,), again),
    ensures
        written@.is_prefix_of(bytes@) ==> read is Some && (read->0).0 == *origin && (read->0).1
            == written@.len(),
        read is Some ==> again@ == bytes@.take((read->0).1 as int),
        *origin is Here ==> written@.len() == 1,
        *origin is There ==> written@.len() == 1,
        *origin is Everywhere ==> written@.len() == 5,
        written@.len() > 0,
        written@[0] == match *origin {
            MessageOrigin::Here => 0u8,
            MessageOrigin::There => 1u8,
            MessageOrigin::Everywhere(_) => 2u8,
        },
        *origin matches MessageOrigin::Everywhere(i) ==> i == written@[1] + written@[2] * 0x100
            + written@[3] * 0x1_0000 + written@[4] * 0x100_0000,
{
    if written@.is_prefix_of(bytes@) {
        if read is Some {
            let found = (read->0).0;
            assert(found.wire().is_prefix_of(bytes@)) by {
                assert(bytes@.take((read->0).1 as int) =~= bytes@.take(found.wire().len() as int));
            }
            page::lemma_origin_is_read_back(*origin, found, bytes@);
        }
    }
    if let MessageOrigin::Everywhere(i) = *origin {
        scale::lemma_u32_le_round_trip(i);
        assert(written@.skip(1) =~= scale::u32_le(i));
    }
}

/// A message holds all of its text, or its first bytes where it is cut off.
pub proof fn lemma_messages_hold_their_text<const N: u32>(
    text: &'static str,
    cut: &'static [u8],
    whole: Vec<u8>,
)
    requires
        call_ensures(msg::<N>, (text,), cut),
        call_ensures(vmsg, (text,), whole),
    ensures
        whole@ == vstd::utf8::encode_utf8(text@),
        cut@.len() == vstd::math::min(whole@.len() as int, N as int),
        cut@.is_prefix_of(whole@),
{
}

/// A message is appended exactly where it fits with its origin and a header of five bytes.
/// What stands in the page stays where it is, and behind it come the length of what follows
/// the header in four bytes, a zero, the origin and the message. It counts as one more that
/// remains. One that does not fit changes nothing.
pub proof fn lemma_messages_are_appended<const HEAP_SIZE: u32>(
    page: &mut Page<HEAP_SIZE>,
    message: &[u8],
    origin: &[u8],
    result: Result<(), ()>,
)
    requires
        call_ensures(Page::<HEAP_SIZE>::try_append_message, (page, message, origin), result),
    ensures
        result is Ok <==> old(page).heap@.len() + 5 + origin@.len() + message@.len() <= HEAP_SIZE,
        result is Err ==> *final(page) == *old(page),
        result is Ok ==> {
            let before = old(page).heap@;
            let after = final(page).heap@;
            let start = before.len() as int;
            let size = origin@.len() + message@.len();
            &&& after.len() == before.len() + 5 + size
            &&& after.take(start) == before
            &&& after[start] + after[start + 1] * 0x100 + after[start + 2] * 0x1_0000 + after[start
                + 3] * 0x100_0000 == size
            &&& after[start + 4] == 0
            &&& after.subrange(start + 5, start + 5 + origin@.len()) == origin@
            &&& after.skip(start + 5 + origin@.len()) == message@
            &&& final(page).last == start
            &&& final(page).remaining == vstd::math::min(
                old(page).remaining + 1,
                u32::MAX as int,
            )
            &&& final(page).remaining_size == vstd::math::min(
                old(page).remaining_size + size,
                u32::MAX as int,
            )
            &&& final(page).first == old(page).first
            &&& final(page).first_index == old(page).first_index
        },
{
    if result is Ok {
        let before = old(page).heap@;
        let after = final(page).heap@;
        let start = before.len() as int;
        let size = (origin@.len() + message@.len()) as u32;
        scale::lemma_u32_le_round_trip(size);
        assert(after.subrange(start, start + 4) =~= scale::u32_le(size));
        assert forall|i: int| 0 <= i < 4 implies #[trigger] after[start + i] == scale::u32_le(
            size,
        )[i] by {
            assert(after.subrange(start, start + 4)[i] == after[start + i]);
        }
        assert(after[start] == scale::u32_le(size)[0]) by {
            assert(after[start + 0] == scale::u32_le(size)[0]);
        }
        assert(after.take(start) =~= before);
        assert(after.subrange(start + 5, start + 5 + origin@.len()) =~= origin@);
        assert(after.skip(start + 5 + origin@.len()) =~= message@);
    }
}

/// A page with one message is an empty page with that message appended.
pub proof fn lemma_a_page_with_one_message<const HEAP_SIZE: u32>(
    message: &[u8],
    origin: MessageOrigin,
    written: Vec<u8>,
    origin_bytes: &[u8],
    empty: Page<HEAP_SIZE>,
    page: Page<HEAP_SIZE>,
    other: &mut Page<HEAP_SIZE>,
    result: Result<(), ()>,
)
    requires
        message@.len() + 10 <= HEAP_SIZE,
        call_ensures(Page::<HEAP_SIZE>::empty, (), empty),
        call_ensures(MessageOrigin::encode, (&origin,), written),
        origin_bytes@ == written@,
        *old(other) == empty,
        call_ensures(
            Page::<HEAP_SIZE>::try_append_message,
            (other, message, origin_bytes),
            result,
        ),
        call_ensures(page::page::<HEAP_SIZE>, (message, origin), page),
    ensures
        result is Ok,
        page.heap@ == final(other).heap@,
        page.remaining == final(other).remaining == 1,
        page.remaining_size == final(other).remaining_size,
        page.first_index == final(other).first_index == 0,
        page.first == final(other).first == 0,
        page.last == final(other).last == 0,
        empty.heap@.len() == 0,
        empty.remaining == 0,
        empty.remaining_size == 0,
{
    assert(page.heap@ =~= final(other).heap@);
}

/// A full page holds as many empty messages as fit, ten bytes each, from numbered places in
/// their order, and no room for one more.
pub proof fn lemma_a_full_page<const HEAP_SIZE: u32>(filled: (Page<HEAP_SIZE>, usize))
    requires
        call_ensures(full_page::<HEAP_SIZE>, (), filled),
    ensures
        filled.0.heap@.len() == 10 * filled.1,
        filled.0.heap@.len() <= HEAP_SIZE < filled.0.heap@.len() + 10,
        filled.0.remaining == filled.1,
        filled.0.remaining_size == 5 * filled.1,
        filled.0.first_index == 0,
        filled.0.first == 0,
        filled.1 > 0,
        filled.0.last == filled.0.heap@.len() - 10,
        forall|i: int|
            0 <= i < filled.1 ==> #[trigger] filled.0.heap@.subrange(10 * i, 10 * i + 10)
                == seq![5u8, 0u8, 0u8, 0u8, 0u8, 2u8] + scale::u32_le(i as u32),
{
    lemma_empty_items(filled.1 as nat);
}

/// What empty messages take up, one after the other.
proof fn lemma_empty_items(count: nat)
    requires
        count <= u32::MAX,
    ensures
        page::empty_items(count).len() == 10 * count,
        forall|i: int|
            0 <= i < count ==> #[trigger] page::empty_items(count).subrange(10 * i, 10 * i + 10)
                == seq![5u8, 0u8, 0u8, 0u8, 0u8, 2u8] + scale::u32_le(i as u32),
    decreases count,
{
    if count > 0 {
        let fewer = (count - 1) as nat;
        lemma_empty_items(fewer);
        let before = page::empty_items(fewer);
        let all = page::empty_items(count);
        assert forall|i: int| 0 <= i < count implies #[trigger] all.subrange(10 * i, 10 * i + 10)
            == seq![5u8, 0u8, 0u8, 0u8, 0u8, 2u8] + scale::u32_le(i as u32) by {
            if i < fewer {
                assert(all.subrange(10 * i, 10 * i + 10) =~= before.subrange(10 * i, 10 * i + 10));
            } else {
                assert(all.subrange(10 * i, 10 * i + 10) =~= seq![5u8, 0u8, 0u8, 0u8, 0u8, 2u8]
                    + scale::u32_le(i as u32));
            }
        }
    }
}

/// A number is the origin of the place with that number, and stands for the weight with
/// that number in both components. A weight is within another one where neither component
/// is greater.
pub proof fn lemma_numbers_and_weights(
    i: u32,
    origin: MessageOrigin,
    n: u64,
    weight: Weight,
    m: u64,
    both: Weight,
    other: Weight,
    within: bool,
)
    requires
        call_ensures(<MessageOrigin as From<u32>>::from, (i,), origin),
        call_ensures(<u64 as IntoWeight>::into_weight, (n,), weight),
        call_ensures(Weight::from_parts, (n, m), both),
        call_ensures(Weight::all_lte, (both, other), within),
    ensures
        origin == MessageOrigin::Everywhere(i),
        weight.ref_time == n,
        weight.proof_size == n,
        both.ref_time == n,
        both.proof_size == m,
        within <==> n <= other.ref_time && m <= other.proof_size,
{
}

/// A book with a single page begins at its only page, and is in no ring.
pub proof fn lemma_a_book_with_a_single_page(book: BookState)
    requires
        call_ensures(single_page_book, (), book),
    ensures
        book.count == 1,
        book.begin == 0,
        book.end - book.begin == book.count,
        book.ready_neighbours is None,
{
}

} // verus!
