use roast_core::award::{calculate_token_award, BASE_AWARD, UNITS_PER_TOKEN};

#[test]
fn award_tiers_at_their_bounds() {
    assert_eq!(calculate_token_award(0), 10 * UNITS_PER_TOKEN);
    assert_eq!(calculate_token_award(49), 10 * UNITS_PER_TOKEN);
    assert_eq!(calculate_token_award(50), 20 * UNITS_PER_TOKEN);
    assert_eq!(calculate_token_award(69), 20 * UNITS_PER_TOKEN);
    assert_eq!(calculate_token_award(70), 50 * UNITS_PER_TOKEN);
    assert_eq!(calculate_token_award(89), 50 * UNITS_PER_TOKEN);
    assert_eq!(calculate_token_award(90), 100 * UNITS_PER_TOKEN);
    assert_eq!(calculate_token_award(100), 100 * UNITS_PER_TOKEN);
}

#[test]
fn award_exact_units() {
    assert_eq!(BASE_AWARD, 10_000_000_000);
    assert_eq!(calculate_token_award(95), 100_000_000_000);
    assert_eq!(calculate_token_award(75), 50_000_000_000);
    assert_eq!(calculate_token_award(60), 20_000_000_000);
    assert_eq!(calculate_token_award(10), 10_000_000_000);
}

#[test]
fn award_above_one_hundred_is_the_base() {
    assert_eq!(calculate_token_award(101), 10_000_000_000);
    assert_eq!(calculate_token_award(200), 10_000_000_000);
    assert_eq!(calculate_token_award(255), 10_000_000_000);
}

#[test]
fn award_is_monotonic_up_to_one_hundred() {
    let mut previous: u64 = 0;
    for score in 0..=100u8 {
        let amount = calculate_token_award(score);
        assert!(amount >= previous);
        assert!([10u64, 20, 50, 100].contains(&(amount / UNITS_PER_TOKEN)));
        assert_eq!(amount % UNITS_PER_TOKEN, 0);
        previous = amount;
    }
}
