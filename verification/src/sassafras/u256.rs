//! Unsigned numbers of 256 bits.
use vstd::prelude::*;

verus! {

/// The greatest number of 256 bits.
pub open spec fn u256_max() -> nat {
    0xffff_ffff_ffff_ffff_ffff_ffff_ffff_ffff_ffff_ffff_ffff_ffff_ffff_ffff_ffff_ffffnat
}

/// The number that four words stand for, the least significant one first.
pub open spec fn words_value(words: [u64; 4]) -> nat {
    (words@[0] + words@[1] * 0x1_0000_0000_0000_0000int + words@[2]
        * 0x1_0000_0000_0000_0000_0000_0000_0000_0000int + words@[3]
        * 0x1_0000_0000_0000_0000_0000_0000_0000_0000_0000_0000_0000_0000int) as nat
}

/// The number that bytes stand for, the most significant one first.
pub open spec fn big_endian_value(bytes: Seq<u8>) -> nat
    decreases bytes.len(),
{
    if bytes.len() == 0 {
        0
    } else {
        big_endian_value(bytes.drop_last()) * 256 + bytes.last() as nat
    }
}

/// An unsigned number of 256 bits, in four words, the least significant one first.
#[derive(Clone, Copy, Debug)]
pub struct U256 {
    /// The words.
    pub words: [u64; 4],
}

impl View for U256 {
    type V = nat;

    open spec fn view(&self) -> nat {
        words_value(self.words)
    }
}

/// Calls `sp_core::U256::checked_div` with a divisor of one word: the quotient, rounded
/// down, unless the divisor is zero.
#[verifier::external_body]
fn words_checked_div(words: [u64; 4], divisor: u64) -> (quotient: Option<[u64; 4]>)
    ensures
        match quotient {
            Some(quotient) => divisor != 0 && words_value(quotient) == words_value(words) / (
            divisor as nat),
            None => divisor == 0,
        },
{
    sp_core::U256(words).checked_div(divisor.into()).map(|quotient| quotient.0)
}

/// Calls `sp_core::U256::saturating_mul` with a factor of one word: the product, or the
/// greatest number of 256 bits where the product is greater than that.
#[verifier::external_body]
fn words_saturating_mul(words: [u64; 4], factor: u64) -> (product: [u64; 4])
    ensures
        words_value(product) == if words_value(words) * (factor as nat) > u256_max() {
            u256_max()
        } else {
            words_value(words) * (factor as nat)
        },
{
    sp_core::U256(words).saturating_mul(factor.into()).0
}

/// Calls `sp_core::U256::from_big_endian`: the number that the bytes stand for, the
/// most significant one first.
#[verifier::external_body]
fn words_from_big_endian(bytes: &[u8; 32]) -> (words: [u64; 4])
    ensures
        words_value(words) == big_endian_value(bytes@),
{
    sp_core::U256::from_big_endian(bytes).0
}

impl U256 {
    /// The greatest number.
    pub fn max_value() -> (max: U256)
        ensures
            max@ == u256_max(),
    {
        U256 { words: [u64::MAX, u64::MAX, u64::MAX, u64::MAX] }
    }

    /// Zero.
    pub fn zero() -> (zero: U256)
        ensures
            zero@ == 0,
    {
        U256 { words: [0, 0, 0, 0] }
    }

    /// The quotient, rounded down. `None` where the divisor is zero.
    pub fn checked_div(self, divisor: u64) -> (quotient: Option<U256>)
        ensures
            match quotient {
                Some(quotient) => divisor != 0 && quotient@ == self@ / (divisor as nat),
                None => divisor == 0,
            },
    {
        match words_checked_div(self.words, divisor) {
            Some(words) => Some(U256 { words }),
            None => None,
        }
    }

    /// The product, or the greatest number where it is greater than that.
    pub fn saturating_mul(self, factor: u64) -> (product: U256)
        ensures
            product@ == if self@ * (factor as nat) > u256_max() {
                u256_max()
            } else {
                self@ * (factor as nat)
            },
    {
        U256 { words: words_saturating_mul(self.words, factor) }
    }

    /// The number that the bytes stand for, the most significant one first.
    pub fn from_big_endian(bytes: &[u8; 32]) -> (number: U256)
        ensures
            number@ == big_endian_value(bytes@),
    {
        U256 { words: words_from_big_endian(bytes) }
    }

    /// Whether the number is less than the other one.
    pub fn is_less_than(&self, other: &U256) -> (less: bool)
        ensures
            less == (self@ < other@),
    {
        if self.words[3] != other.words[3] {
            self.words[3] < other.words[3]
        } else if self.words[2] != other.words[2] {
            self.words[2] < other.words[2]
        } else if self.words[1] != other.words[1] {
            self.words[1] < other.words[1]
        } else {
            self.words[0] < other.words[0]
        }
    }
}

} // verus!
