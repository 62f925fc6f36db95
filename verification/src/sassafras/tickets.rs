//! The configuration of the tickets and their threshold.
use crate::sassafras::u256::{big_endian_value, u256_max, U256};
use vstd::prelude::*;

verus! {

/// The type of the keys, in four letters: `sass`.
pub const KEY_TYPE: [u8; 4] = [0x73, 0x61, 0x73, 0x73];

/// The name of the consensus engine, in four letters: `SASS`.
pub const SASSAFRAS_ENGINE_ID: [u8; 4] = [0x53, 0x41, 0x53, 0x53];

/// The length of a public key.
pub const PUBLIC_KEY_LENGTH: usize = 32;

/// The index of an authority.
pub type AuthorityIndex = u32;

/// The public key of an authority.
pub type AuthorityId = [u8; 32];

/// The weight of an authority.
pub type SassafrasAuthorityWeight = u64;

/// The weight of a block: one for a primary block, and zero for a secondary one.
pub type SassafrasBlockWeight = u32;

/// The randomness of an epoch.
pub type Randomness = [u8; 32];

/// A ticket: the output of a verifiable random function.
pub type Ticket = [u8; 32];

/// The proof that goes with a ticket.
pub type VRFProof = [u8; 64];

/// How long a slot takes.
#[derive(Clone, Copy, PartialEq, Eq, Structural, Debug)]
pub struct SlotDuration {
    /// In milliseconds.
    pub millis: u64,
}

/// The configuration of the tickets that may change from epoch to epoch.
#[derive(Clone, Copy, PartialEq, Eq, Structural, Debug, Default)]
pub struct SassafrasEpochConfiguration {
    /// The redundancy factor.
    pub redundancy_factor: u32,
    /// How many times an authority tries to get a ticket.
    pub attempts_number: u32,
}

/// The configuration of the consensus engine.
#[derive(Clone, PartialEq, Eq, Debug)]
pub struct SassafrasConfiguration {
    /// How long a slot takes, in milliseconds.
    pub slot_duration: u64,
    /// How many slots an epoch has.
    pub epoch_duration: u64,
    /// The authorities of the epoch, each with its weight.
    pub authorities: Vec<(AuthorityId, SassafrasAuthorityWeight)>,
    /// The randomness of the epoch.
    pub randomness: Randomness,
    /// The configuration of the tickets.
    pub threshold_params: SassafrasEpochConfiguration,
}

impl SassafrasConfiguration {
    /// How long a slot takes.
    pub fn slot_duration(&self) -> (duration: SlotDuration)
        ensures
            duration.millis == self.slot_duration,
    {
        SlotDuration { millis: self.slot_duration }
    }
}

/// What is known of a ticket.
#[derive(Clone, Copy, PartialEq, Eq, Debug)]
pub struct TicketInfo {
    /// The authority that it belongs to.
    pub authority_index: u32,
    /// The attempt that it came from.
    pub attempt: u32,
    /// The proof.
    pub proof: VRFProof,
}

/// The threshold for the part `num` of `den` of all tickets: that part of the greatest
/// number, and no more than that number. Zero where `den` is zero.
pub open spec fn threshold(num: nat, den: nat) -> nat {
    if den == 0 {
        0
    } else if u256_max() / den * num > u256_max() {
        u256_max()
    } else {
        u256_max() / den * num
    }
}

/// Computes the threshold for an epoch: the part `(redundancy * slots) / (attempts *
/// validators)` of all tickets is below it. The parameters should be such that this is
/// not more than all. Where `attempts * validators` is zero, so is the threshold.
pub fn compute_threshold(redundancy: u32, slots: u32, attempts: u32, validators: u32) -> (limit:
    U256)
    ensures
        limit@ == threshold((redundancy * slots) as nat, (attempts * validators) as nat),
{
    proof {
        lemma_product_fits(attempts, validators);
        lemma_product_fits(redundancy, slots);
    }
    let den: u64 = attempts as u64 * validators as u64;
    let num: u64 = redundancy as u64 * slots as u64;
    let unit = match U256::max_value().checked_div(den) {
        Some(unit) => unit,
        None => U256::zero(),
    };
    unit.saturating_mul(num)
}

/// The product of two numbers of 32 bits has at most 64 bits.
proof fn lemma_product_fits(a: u32, b: u32)
    ensures
        0 <= a * b <= 0xffff_ffff * 0xffff_ffff,
{
    assert(0 <= a * b <= 0xffff_ffff * 0xffff_ffff) by (nonlinear_arith)
        requires
            a <= 0xffff_ffff,
            b <= 0xffff_ffff,
    ;
}

/// Whether the ticket is below the threshold.
pub fn check_threshold(ticket: &Ticket, limit: U256) -> (below: bool)
    ensures
        below == (big_endian_value(ticket@) < limit@),
{
    U256::from_big_endian(ticket).is_less_than(&limit)
}

/// Where there are no attempts or no validators, no ticket is below the threshold.
pub proof fn lemma_no_attempts_no_tickets(num: nat, ticket: Ticket)
    ensures
        !(big_endian_value(ticket@) < threshold(num, 0)),
{
}

/// A part of all tickets gives that part of the greatest number, rounded down by less
/// than `num`, or by nothing where `num` is zero.
pub proof fn lemma_threshold_is_the_part(num: nat, den: nat)
    requires
        0 < den,
        num <= den,
    ensures
        threshold(num, den) * den <= u256_max() * num,
        u256_max() * num <= (threshold(num, den) + num) * den,
        num > 0 ==> u256_max() * num < (threshold(num, den) + num) * den,
{
    let max = u256_max();
    let unit = max / den;
    vstd::arithmetic::div_mod::lemma_fundamental_div_mod(max as int, den as int);
    let rest = max % den;
    assert(max == den * unit + rest && rest < den);
    assert(unit * num <= max) by (nonlinear_arith)
        requires
            max == den * unit + rest,
            0 <= rest,
            0 <= unit,
            0 <= num <= den,
    ;
    assert(unit * num * den <= max * num && max * num <= (unit * num + num) * den)
        by (nonlinear_arith)
        requires
            max == den * unit + rest,
            0 <= rest < den,
            0 <= num,
    ;
    if num > 0 {
        assert(max * num < (unit * num + num) * den) by (nonlinear_arith)
            requires
                max == den * unit + rest,
                rest < den,
                0 < num,
        ;
    }
}

/// More than all tickets gives the greatest number, for every number of attempts and
/// validators.
pub proof fn lemma_more_than_all(num: nat, den: nat)
    requires
        0 < den < num,
        den <= u64::MAX,
    ensures
        threshold(num, den) == u256_max(),
{
    let max = u256_max();
    let unit = max / den;
    vstd::arithmetic::div_mod::lemma_fundamental_div_mod(max as int, den as int);
    let rest = max % den;
    assert(max == den * unit + rest && rest < den);
    assert(unit >= den) by (nonlinear_arith)
        requires
            max == den * unit + rest,
            0 <= rest < den,
            0 < den <= 0xffff_ffff_ffff_ffff,
            0 <= unit,
            max == 0xffff_ffff_ffff_ffff_ffff_ffff_ffff_ffff_ffff_ffff_ffff_ffff_ffff_ffff_ffff_ffffnat,
    ;
    assert(unit * num > max) by (nonlinear_arith)
        requires
            max == den * unit + rest,
            rest < den,
            unit >= den,
            num >= den + 1,
            0 <= unit,
    ;
}

/// The threshold does not fall when the part grows: with more slots or redundancy, or
/// with fewer attempts or validators.
pub proof fn lemma_threshold_is_monotone(num: nat, more: nat, den: nat, fewer: nat)
    requires
        num <= more,
        0 < fewer <= den,
    ensures
        threshold(num, den) <= threshold(more, fewer),
{
    let max = u256_max();
    vstd::arithmetic::div_mod::lemma_div_is_ordered_by_denominator(
        max as int,
        fewer as int,
        den as int,
    );
    assert(max / den * num <= max / fewer * more) by (nonlinear_arith)
        requires
            max / den <= max / fewer,
            num <= more,
            0 <= max / den,
            0 <= num,
    ;
}

} // verus!
