use substrate_features::sassafras::tickets::{
    check_threshold, compute_threshold, SassafrasConfiguration, SassafrasEpochConfiguration,
    KEY_TYPE, PUBLIC_KEY_LENGTH, SASSAFRAS_ENGINE_ID,
};
use substrate_features::sassafras::u256::U256;

const MAX: u64 = u64::MAX;

#[test]
fn constants() {
    assert_eq!(&KEY_TYPE, b"sass");
    assert_eq!(KEY_TYPE, sp_core::crypto::key_types::SASSAFRAS.0);
    assert_eq!(&SASSAFRAS_ENGINE_ID, b"SASS");
    assert_eq!(PUBLIC_KEY_LENGTH, 32);
}

#[test]
fn the_slot_duration_is_configured() {
    let configuration = SassafrasConfiguration {
        slot_duration: 6000,
        epoch_duration: 10,
        authorities: vec![([1; 32], 1)],
        randomness: [0; 32],
        threshold_params: SassafrasEpochConfiguration::default(),
    };
    assert_eq!(configuration.slot_duration().millis, 6000);
    assert_eq!(configuration.threshold_params.redundancy_factor, 0);
    assert_eq!(configuration.threshold_params.attempts_number, 0);
}

#[test]
fn thresholds() {
    // All tickets.
    assert_eq!(compute_threshold(1, 1, 1, 1).words, [MAX, MAX, MAX, MAX]);
    // Half of them.
    assert_eq!(compute_threshold(1, 1, 1, 2).words, [MAX, MAX, MAX, MAX >> 1]);
    assert_eq!(compute_threshold(1, 4, 2, 4).words, [MAX - 3, MAX, MAX, MAX >> 1]);
    // A third of them.
    let third = 0x5555_5555_5555_5555;
    assert_eq!(compute_threshold(1, 1, 1, 3).words, [third, third, third, third]);
    // More than all.
    assert_eq!(compute_threshold(2, 1, 1, 1).words, [MAX, MAX, MAX, MAX]);
    let limit = compute_threshold(u32::MAX, u32::MAX, 1, 1);
    assert_eq!(limit.words, [MAX, MAX, MAX, MAX]);
    // None.
    assert_eq!(compute_threshold(0, 5, 1, 1).words, [0, 0, 0, 0]);
    assert_eq!(compute_threshold(5, 5, 0, 1).words, [0, 0, 0, 0]);
    assert_eq!(compute_threshold(5, 5, 1, 0).words, [0, 0, 0, 0]);
}

#[test]
fn thresholds_are_those_of_plain_arithmetic() {
    let cases = [(3, 600, 32, 1000), (7, 11, 13, 17), (u32::MAX, u32::MAX, u32::MAX, u32::MAX)];
    for (redundancy, slots, attempts, validators) in cases {
        let den = sp_core::U256::from(attempts as u64 * validators as u64);
        let num = sp_core::U256::from(redundancy as u64 * slots as u64);
        let expected = (sp_core::U256::MAX / den).saturating_mul(num);
        assert_eq!(compute_threshold(redundancy, slots, attempts, validators).words, expected.0);
    }
}

#[test]
fn tickets_are_compared_as_numbers() {
    let mut ticket = [0u8; 32];
    ticket[0] = 0x7f;
    let half = compute_threshold(1, 1, 1, 2);
    assert!(check_threshold(&ticket, half));
    ticket[0] = 0x80;
    assert!(!check_threshold(&ticket, half));
    assert!(!check_threshold(&[0; 32], compute_threshold(1, 1, 0, 1)));
    assert!(!check_threshold(&[0xff; 32], compute_threshold(1, 1, 1, 1)));
    let mut ticket = [0u8; 32];
    ticket[31] = 5;
    assert!(check_threshold(&ticket, U256 { words: [6, 0, 0, 0] }));
    assert!(!check_threshold(&ticket, U256 { words: [5, 0, 0, 0] }));
    ticket[23] = 1;
    assert!(!check_threshold(&ticket, U256 { words: [6, 0, 0, 0] }));
    assert!(check_threshold(&ticket, U256 { words: [6, 1, 0, 0] }));
    assert!(check_threshold(&ticket, U256 { words: [0, 0, 1, 0] }));
    assert!(check_threshold(&ticket, U256 { words: [0, 0, 0, 1] }));
}

#[test]
fn numbers_of_many_bits() {
    let ten = U256 { words: [10, 0, 0, 0] };
    assert_eq!(ten.checked_div(3).unwrap().words, [3, 0, 0, 0]);
    assert!(ten.checked_div(0).is_none());
    assert_eq!(ten.saturating_mul(MAX).words, [MAX - 9, 9, 0, 0]);
    assert_eq!(U256::max_value().saturating_mul(2).words, U256::max_value().words);
    assert_eq!(U256::zero().saturating_mul(2).words, [0, 0, 0, 0]);
    assert!(U256::zero().is_less_than(&ten));
    assert!(!ten.is_less_than(&ten));
}
