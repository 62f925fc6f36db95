//! Processors of messages that take a known weight.
use crate::message_queue::page::MessageOrigin;
use crate::message_queue::weight::Weight;
use vstd::prelude::*;
use vstd::slice::slice_to_vec;

verus! {

/// Why a message was not processed.
#[derive(Clone, Copy, PartialEq, Eq, Structural, Debug)]
pub enum ProcessMessageError {
    /// It takes this weight, which is more than it may take.
    Overweight(Weight),
}

/// Whether a byte is a decimal digit.
pub open spec fn is_digit(c: u8) -> bool {
    0x30 <= c <= 0x39
}

/// The number that decimal digits stand for.
pub open spec fn number(digits: Seq<u8>) -> nat
    decreases digits.len(),
{
    if digits.len() == 0 {
        0
    } else {
        number(digits.drop_last()) * 10 + (digits.last() - 0x30) as nat
    }
}

/// How many bytes at the start are decimal digits.
pub open spec fn digits_at_start(bytes: Seq<u8>) -> nat
    decreases bytes.len(),
{
    if bytes.len() > 0 && is_digit(bytes[0]) {
        1 + digits_at_start(bytes.drop_first())
    } else {
        0
    }
}

/// What a message starts with that tells its weight: the text `weight=`.
pub open spec fn weight_prefix() -> Seq<u8> {
    seq![0x77u8, 0x65u8, 0x69u8, 0x67u8, 0x68u8, 0x74u8, 0x3du8]
}

/// Whether a message tells its weight.
pub open spec fn tells_weight(message: Seq<u8>) -> bool {
    message.len() >= 7 && message.take(7) == weight_prefix()
}

/// The weight that a message takes, in each component: the number at its start where
/// it tells its weight, and one otherwise.
pub open spec fn message_weight(message: Seq<u8>) -> nat {
    if tells_weight(message) {
        let rest = message.skip(7);
        number(rest.take(digits_at_start(rest) as int))
    } else {
        1
    }
}

/// Numbers do not shrink with more digits.
proof fn lemma_number_grows(digits: Seq<u8>, count: int)
    requires
        0 <= count <= digits.len(),
    ensures
        number(digits.take(count)) <= number(digits),
    decreases digits.len(),
{
    if count < digits.len() {
        lemma_number_grows(digits.drop_last(), count);
        assert(digits.drop_last().take(count) =~= digits.take(count));
    } else {
        assert(digits.take(count) =~= digits);
    }
}

/// Where the digits end.
proof fn lemma_digits_end(bytes: Seq<u8>)
    ensures
        digits_at_start(bytes) <= bytes.len(),
        forall|i: int| 0 <= i < digits_at_start(bytes) ==> is_digit(#[trigger] bytes[i]),
        digits_at_start(bytes) < bytes.len() ==> !is_digit(bytes[digits_at_start(bytes) as int]),
    decreases bytes.len(),
{
    if bytes.len() > 0 && is_digit(bytes[0]) {
        let rest = bytes.drop_first();
        lemma_digits_end(rest);
        assert forall|i: int| 0 <= i < digits_at_start(bytes) implies is_digit(
            #[trigger] bytes[i],
        ) by {
            if i > 0 {
                assert(rest[i - 1] == bytes[i]);
            }
        }
    }
}

/// Whether a message tells its weight.
fn starts_with_weight(message: &[u8]) -> (tells: bool)
    ensures
        tells == tells_weight(message@),
{
    if message.len() < 7 {
        return false;
    }
    let tells = message[0] == 0x77 && message[1] == 0x65 && message[2] == 0x69 && message[3] == 0x67
        && message[4] == 0x68 && message[5] == 0x74 && message[6] == 0x3d;
    proof {
        let start = message@.take(7);
        assert(forall|i: int| 0 <= i < 7 ==> start[i] == message@[i]);
        if tells {
            assert(start =~= weight_prefix());
        }
    }
    tells
}

/// The weight that a message takes, in each component. `None` where it tells one of
/// more than sixty-four bits.
pub fn parse_weight(message: &[u8]) -> (weight: Option<u64>)
    ensures
        match weight {
            Some(weight) => weight == message_weight(message@),
            None => message_weight(message@) > u64::MAX,
        },
{
    if !starts_with_weight(message) {
        return Some(1);
    }
    let ghost rest = message@.skip(7);
    let ghost digits = rest.take(digits_at_start(rest) as int);
    proof {
        lemma_digits_end(rest);
    }
    let mut w: u64 = 0;
    let mut i: usize = 7;
    assert(i == message@.len() ==> digits.take(0) =~= digits);
    while i < message.len()
        invariant
            7 <= i <= message@.len(),
            tells_weight(message@),
            rest == message@.skip(7),
            digits_at_start(rest) <= rest.len(),
            digits == rest.take(digits_at_start(rest) as int),
            forall|j: int| 0 <= j < digits_at_start(rest) ==> is_digit(#[trigger] rest[j]),
            digits_at_start(rest) < rest.len() ==> !is_digit(rest[digits_at_start(rest) as int]),
            i - 7 <= digits.len(),
            w == number(digits.take(i - 7)),
            i == message@.len() ==> digits.take(i - 7) == digits,
        ensures
            w == number(digits),
        decreases message@.len() - i,
    {
        let c = message[i];
        assert(c == rest[i - 7]);
        if c >= 0x30 && c <= 0x39 {
            assert(i - 7 < digits.len());
            proof {
                let more = digits.take(i - 7 + 1);
                assert(more.drop_last() =~= digits.take(i - 7));
                lemma_number_grows(digits, i - 7 + 1);
            }
            let digit: u64 = (c - 0x30) as u64;
            w = match w.checked_mul(10) {
                Some(tens) => match tens.checked_add(digit) {
                    Some(sum) => sum,
                    None => return None,
                },
                None => return None,
            };
        } else {
            assert(i - 7 == digits.len());
            assert(digits.take(i - 7) =~= digits);
            break;
        }
        i = i + 1;
        assert(i == message@.len() ==> digits.take(i - 7) =~= digits);
    }
    Some(w)
}

/// The contents of processed messages, each with its origin.
pub open spec fn messages_view(messages: Seq<(Vec<u8>, MessageOrigin)>) -> Seq<
    (Seq<u8>, MessageOrigin),
> {
    messages.map_values(|message: (Vec<u8>, MessageOrigin)| (message.0@, message.1))
}

/// A processor that remembers the messages that it processed.
pub struct TestMessageProcessor {
    messages_processed: Vec<(Vec<u8>, MessageOrigin)>,
}

impl View for TestMessageProcessor {
    type V = Seq<(Seq<u8>, MessageOrigin)>;

    closed spec fn view(&self) -> Seq<(Seq<u8>, MessageOrigin)> {
        messages_view(self.messages_processed@)
    }
}

impl TestMessageProcessor {
    /// A processor that has processed nothing.
    pub fn new() -> (processor: TestMessageProcessor)
        ensures
            processor@ == Seq::<(Seq<u8>, MessageOrigin)>::empty(),
    {
        let processor = TestMessageProcessor { messages_processed: Vec::new() };
        assert(processor@ =~= Seq::<(Seq<u8>, MessageOrigin)>::empty());
        processor
    }

    /// The messages that were processed, in their order.
    pub fn messages_processed(&self) -> (messages: &Vec<(Vec<u8>, MessageOrigin)>)
        ensures
            messages_view(messages@) == self@,
    {
        &self.messages_processed
    }

    /// Processes a message unless it takes more weight than it may. A message that
    /// starts with `weight=n` takes exactly the weight `n` in each component, every
    /// other message takes the weight one.
    pub fn process_message(
        &mut self,
        message: &[u8],
        origin: MessageOrigin,
        weight_limit: Weight,
    ) -> (result: Result<(bool, Weight), ProcessMessageError>)
        requires
            message_weight(message@) <= u64::MAX,
        ensures
            ({
                let n = message_weight(message@) as u64;
                let weight = Weight { ref_time: n, proof_size: n };
                if weight.all_lte(weight_limit) {
                    &&& result == Ok::<(bool, Weight), ProcessMessageError>((true, weight))
                    &&& final(self)@ == old(self)@.push((message@, origin))
                } else {
                    &&& result == Err::<(bool, Weight), ProcessMessageError>(
                        ProcessMessageError::Overweight(weight),
                    )
                    &&& final(self)@ == old(self)@
                }
            }),
    {
        let n: u64 = match parse_weight(message) {
            Some(n) => n,
            None => 0,
        };
        let weight = Weight::from_parts(n, n);
        if weight.all_lte(weight_limit) {
            self.messages_processed.push((slice_to_vec(message), origin));
            assert(self@ =~= old(self)@.push((message@, origin)));
            Ok((true, weight))
        } else {
            Err(ProcessMessageError::Overweight(weight))
        }
    }
}

/// A processor that counts the messages that it processed.
pub struct SimpleTestMessageProcessor {
    num_messages_processed: usize,
}

impl View for SimpleTestMessageProcessor {
    type V = nat;

    closed spec fn view(&self) -> nat {
        self.num_messages_processed as nat
    }
}

impl SimpleTestMessageProcessor {
    /// A processor that has processed nothing.
    pub fn new() -> (processor: SimpleTestMessageProcessor)
        ensures
            processor@ == 0,
    {
        SimpleTestMessageProcessor { num_messages_processed: 0 }
    }

    /// How many messages were processed.
    pub fn num_messages_processed(&self) -> (count: usize)
        ensures
            count == self@,
    {
        self.num_messages_processed
    }

    /// Processes a message unless it takes more weight than it may. A message that
    /// starts with `weight=n` takes exactly the weight `n` in each component, every
    /// other message takes the weight one.
    pub fn process_message(
        &mut self,
        message: &[u8],
        origin: MessageOrigin,
        weight_limit: Weight,
    ) -> (result: Result<(bool, Weight), ProcessMessageError>)
        requires
            message_weight(message@) <= u64::MAX,
            old(self)@ < usize::MAX,
        ensures
            ({
                let n = message_weight(message@) as u64;
                let weight = Weight { ref_time: n, proof_size: n };
                if weight.all_lte(weight_limit) {
                    &&& result == Ok::<(bool, Weight), ProcessMessageError>((true, weight))
                    &&& final(self)@ == old(self)@ + 1
                } else {
                    &&& result == Err::<(bool, Weight), ProcessMessageError>(
                        ProcessMessageError::Overweight(weight),
                    )
                    &&& final(self)@ == old(self)@
                }
            }),
    {
        let n: u64 = match parse_weight(message) {
            Some(n) => n,
            None => 0,
        };
        let weight = Weight::from_parts(n, n);
        if weight.all_lte(weight_limit) {
            self.num_messages_processed = self.num_messages_processed + 1;
            Ok((true, weight))
        } else {
            Err(ProcessMessageError::Overweight(weight))
        }
    }
}

/// A message that tells its weight in decimal digits takes exactly that weight,
/// whatever follows them, as long as it is no digit.
pub proof fn lemma_told_weight(digits: Seq<u8>, rest: Seq<u8>)
    requires
        forall|i: int| 0 <= i < digits.len() ==> is_digit(#[trigger] digits[i]),
        rest.len() > 0 ==> !is_digit(rest[0]),
    ensures
        message_weight(weight_prefix() + digits + rest) == number(digits),
{
    let message = weight_prefix() + digits + rest;
    assert(message.take(7) =~= weight_prefix());
    assert(message.skip(7) =~= digits + rest);
    lemma_digits_are_counted(digits, rest);
    assert((digits + rest).take(digits.len() as int) =~= digits);
}

/// The digits at the start are all counted.
proof fn lemma_digits_are_counted(digits: Seq<u8>, rest: Seq<u8>)
    requires
        forall|i: int| 0 <= i < digits.len() ==> is_digit(#[trigger] digits[i]),
        rest.len() > 0 ==> !is_digit(rest[0]),
    ensures
        digits_at_start(digits + rest) == digits.len(),
    decreases digits.len(),
{
    if digits.len() > 0 {
        let fewer = digits.drop_first();
        assert forall|i: int| 0 <= i < fewer.len() implies is_digit(#[trigger] fewer[i]) by {
            assert(fewer[i] == digits[i + 1]);
        }
        lemma_digits_are_counted(fewer, rest);
        assert(is_digit(digits[0]));
        assert((digits + rest).drop_first() =~= fewer + rest);
    } else {
        assert(digits + rest =~= rest);
    }
}

} // verus!
