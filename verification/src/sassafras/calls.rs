//! What the calls for tickets do, told from their arguments and results alone.
use crate::sassafras::tickets::{
    self, check_threshold, compute_threshold, SassafrasConfiguration, SlotDuration, Ticket,
    KEY_TYPE, PUBLIC_KEY_LENGTH, SASSAFRAS_ENGINE_ID,
};
use crate::sassafras::u256::{self, U256};
use vstd::prelude::*;

verus! {

/// The greatest number of 256 bits, by its words.
pub open spec fn is_greatest(number: U256) -> bool {
    forall|i: int| 0 <= i < 4 ==> #[trigger] number.words@[i] == u64::MAX
}

/// The threshold is the wanted part of all numbers: as often as there are tickets to share
/// out, it is the greatest number divided by the number of attempts of all validators.
/// Without attempts or validators it is zero, and where more tickets are wanted than there
/// are attempts it is the greatest number.
pub proof fn lemma_threshold_is_the_wanted_part(
    redundancy: u32,
    slots: u32,
    attempts: u32,
    validators: u32,
    limit: U256,
    greatest: U256,
)
    requires
        call_ensures(compute_threshold, (redundancy, slots, attempts, validators), limit),
        call_ensures(U256::max_value, (), greatest),
    ensures
        is_greatest(greatest),
        ({
            let wanted = redundancy * slots;
            let all = attempts * validators;
            &&& all == 0 ==> limit@ == 0
            &&& wanted == 0 ==> limit@ == 0
            &&& 0 < all && wanted <= all ==> limit@ == (greatest@ as int / all) * wanted
            &&& 0 < all < wanted ==> limit@ == greatest@
            &&& 0 < all && wanted <= all ==> limit@ * all <= greatest@ * wanted
            &&& 0 < all && 0 < wanted <= all ==> greatest@ * wanted < (limit@ + wanted) * all
        }),
{
    let wanted = redundancy * slots;
    let all = attempts * validators;
    assert(0 <= wanted && 0 <= all <= 0xffff_ffff_ffff_ffff) by (nonlinear_arith)
        requires
            wanted == redundancy * slots,
            all == attempts * validators,
            0 <= redundancy,
            0 <= slots,
            0 <= attempts <= 0xffff_ffff,
            0 <= validators <= 0xffff_ffff,
    ;
    if 0 < all {
        if wanted <= all {
            tickets::lemma_threshold_is_the_part(wanted as nat, all as nat);
            let max = greatest@ as int;
            let unit = max / all;
            vstd::arithmetic::div_mod::lemma_fundamental_div_mod(max, all);
            assert(wanted == 0 ==> unit * wanted == 0) by (nonlinear_arith);
            assert(unit * wanted <= max) by (nonlinear_arith)
                requires
                    max == all * unit + max % all,
                    0 <= max % all,
                    0 <= unit,
                    0 <= wanted <= all,
            ;
        } else {
            tickets::lemma_more_than_all(wanted as nat, all as nat);
        }
    }
}

/// The threshold does not fall when more tickets are wanted, nor when there are fewer
/// attempts.
pub proof fn lemma_threshold_grows_with_the_wanted_part(
    redundancy: u32,
    slots: u32,
    attempts: u32,
    validators: u32,
    more_redundancy: u32,
    more_slots: u32,
    fewer_attempts: u32,
    fewer_validators: u32,
    limit: U256,
    greater_limit: U256,
)
    requires
        redundancy <= more_redundancy,
        slots <= more_slots,
        0 < fewer_attempts <= attempts,
        0 < fewer_validators <= validators,
        call_ensures(compute_threshold, (redundancy, slots, attempts, validators), limit),
        call_ensures(
            compute_threshold,
            (more_redundancy, more_slots, fewer_attempts, fewer_validators),
            greater_limit,
        ),
    ensures
        limit@ <= greater_limit@,
{
    assert(redundancy * slots <= more_redundancy * more_slots && 0 <= redundancy * slots)
        by (nonlinear_arith)
        requires
            0 <= redundancy <= more_redundancy,
            0 <= slots <= more_slots,
    ;
    assert(0 < fewer_attempts * fewer_validators <= attempts * validators) by (nonlinear_arith)
        requires
            0 < fewer_attempts <= attempts,
            0 < fewer_validators <= validators,
    ;
    tickets::lemma_threshold_is_monotone(
        (redundancy * slots) as nat,
        (more_redundancy * more_slots) as nat,
        (attempts * validators) as nat,
        (fewer_attempts * fewer_validators) as nat,
    );
}

/// A ticket is below the number that another one stands for exactly where it is less in
/// the first byte in which they differ.
pub proof fn lemma_tickets_compare_byte_by_byte(
    ticket: &Ticket,
    other: &Ticket,
    limit: U256,
    below: bool,
)
    requires
        call_ensures(U256::from_big_endian, (other,), limit),
        call_ensures(check_threshold, (ticket, limit), below),
    ensures
        below <==> exists|i: int|
            #![trigger ticket@[i]]
            0 <= i < 32 && ticket@[i] < other@[i] && ticket@.take(i) == other@.take(i),
{
    let a = ticket@;
    let b = other@;
    lemma_first_difference(a, b);
    if a != b {
        let i = choose|i: int|
            #![trigger a[i]]
            0 <= i < a.len() && a[i] != b[i] && a.take(i) == b.take(i);
        if a[i] < b[i] {
            lemma_less_in_the_first_difference(a, b, i);
        } else {
            lemma_less_in_the_first_difference(b, a, i);
        }
    }
    if exists|i: int|
        #![trigger a[i]]
        0 <= i < 32 && a[i] < b[i] && a.take(i) == b.take(i) {
        let i = choose|i: int|
            #![trigger a[i]]
            0 <= i < 32 && a[i] < b[i] && a.take(i) == b.take(i);
        lemma_less_in_the_first_difference(a, b, i);
    }
}

/// Different sequences of the same length differ first somewhere.
proof fn lemma_first_difference(a: Seq<u8>, b: Seq<u8>)
    requires
        a.len() == b.len(),
    ensures
        a == b || exists|i: int|
            #![trigger a[i]]
            0 <= i < a.len() && a[i] != b[i] && a.take(i) == b.take(i),
    decreases a.len(),
{
    if a.len() == 0 {
        assert(a =~= b);
    } else {
        let shorter = a.drop_last();
        let other = b.drop_last();
        lemma_first_difference(shorter, other);
        if shorter == other {
            let last = a.len() - 1;
            assert(a.take(last) =~= shorter && b.take(last) =~= other);
            if a[last] == b[last] {
                assert(a =~= shorter.push(a[last]));
                assert(b =~= other.push(b[last]));
            }
        } else {
            let i = choose|i: int|
                #![trigger shorter[i]]
                0 <= i < shorter.len() && shorter[i] != other[i] && shorter.take(i) == other.take(
                    i,
                );
            assert(a.take(i) =~= shorter.take(i));
            assert(b.take(i) =~= other.take(i));
            assert(a[i] != b[i]);
        }
    }
}

/// What is less in the first byte that differs stands for a lesser number.
proof fn lemma_less_in_the_first_difference(a: Seq<u8>, b: Seq<u8>, i: int)
    requires
        a.len() == b.len(),
        0 <= i < a.len(),
        a[i] < b[i],
        a.take(i) == b.take(i),
    ensures
        u256::big_endian_value(a) < u256::big_endian_value(b),
    decreases a.len(),
{
    let shorter = a.drop_last();
    let other = b.drop_last();
    if i == a.len() - 1 {
        assert(shorter =~= a.take(i));
        assert(other =~= b.take(i));
    } else {
        assert(shorter.take(i) =~= a.take(i));
        assert(other.take(i) =~= b.take(i));
        lemma_less_in_the_first_difference(shorter, other, i);
    }
}

/// No ticket is below zero, and one that is below a number is below every greater one.
pub proof fn lemma_tickets_below_greater_numbers(
    ticket: &Ticket,
    limit: U256,
    greater: U256,
    below: bool,
    below_greater: bool,
    zero: U256,
    below_zero: bool,
)
    requires
        limit@ <= greater@,
        call_ensures(check_threshold, (ticket, limit), below),
        call_ensures(check_threshold, (ticket, greater), below_greater),
        call_ensures(U256::zero, (), zero),
        call_ensures(check_threshold, (ticket, zero), below_zero),
    ensures
        !below_zero,
        below ==> below_greater,
{
}

/// Of two numbers either one is less, or their words are the same; the order is that of the
/// most significant word that differs.
pub proof fn lemma_numbers_are_ordered(a: &U256, b: &U256, less: bool, greater: bool)
    requires
        call_ensures(U256::is_less_than, (a, b), less),
        call_ensures(U256::is_less_than, (b, a), greater),
    ensures
        !(less && greater),
        !less && !greater <==> a.words@ == b.words@,
        a.words@[3] < b.words@[3] ==> less,
        a.words@[3] == b.words@[3] && a.words@[2] < b.words@[2] ==> less,
        a.words@[3] == b.words@[3] && a.words@[2] == b.words@[2] && a.words@[1] < b.words@[1]
            ==> less,
        a.words@[3] == b.words@[3] && a.words@[2] == b.words@[2] && a.words@[1] == b.words@[1]
            && a.words@[0] < b.words@[0] ==> less,
{
    if !less && !greater {
        assert(a.words@ =~= b.words@);
    }
}

/// Division and multiplication undo each other up to the rest: the quotient times the
/// divisor is the number, less than the divisor short of it.
pub proof fn lemma_quotients_and_products(
    number: U256,
    divisor: u64,
    quotient: Option<U256>,
    product: U256,
    greatest: U256,
)
    requires
        call_ensures(U256::checked_div, (number, divisor), quotient),
        quotient is Some ==> call_ensures(U256::saturating_mul, (quotient->0, divisor), product),
        call_ensures(U256::max_value, (), greatest),
    ensures
        quotient is None <==> divisor == 0,
        quotient is Some ==> product@ <= number@ < product@ + divisor,
        number@ <= greatest@,
{
    if quotient is Some {
        let n = number@ as int;
        let d = divisor as int;
        vstd::arithmetic::div_mod::lemma_fundamental_div_mod(n, d);
        assert((n / d) * d == d * (n / d)) by (nonlinear_arith);
    }
}

/// The keys and the consensus engine are named by four letters, the engine in capitals.
pub proof fn lemma_names_of_the_engine()
    ensures
        KEY_TYPE@ == seq![115u8, 97u8, 115u8, 115u8],
        forall|i: int|
            0 <= i < 4 ==> (#[trigger] SASSAFRAS_ENGINE_ID@[i]) + 32 == KEY_TYPE@[i],
        PUBLIC_KEY_LENGTH == 32,
{
    assert(KEY_TYPE@ =~= seq![115u8, 97u8, 115u8, 115u8]);
}

/// The slot duration is the configured one.
pub proof fn lemma_slot_duration(configuration: &SassafrasConfiguration, duration: SlotDuration)
    requires
        call_ensures(SassafrasConfiguration::slot_duration, (configuration,), duration),
    ensures
        duration.millis == configuration.slot_duration,
{
}

} // verus!
