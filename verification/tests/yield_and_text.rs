use rbt_contracts::decimal::u64_to_decimal;
use rbt_contracts::text::{char_is_whitespace, str_equal, str_is_blank, stored_state_is_empty};
use rbt_contracts::yield_math::{
    calculate_max_yield, calculate_yield, yield_fits_exec, BLOCKS_PER_YEAR, MAX_BLOCKS_STAKED,
};

#[test]
fn one_year_at_ten_percent_pays_ten_percent() {
    assert_eq!(calculate_yield(1000, BLOCKS_PER_YEAR, 10), 100);
    assert_eq!(calculate_yield(12345, BLOCKS_PER_YEAR, 7), 12345 * 7 / 100);
}

#[test]
fn yield_rounds_down() {
    // 1_000_000 * 5 * 1000 / 315_360_000 = 15.85...
    assert_eq!(calculate_yield(1_000_000, 1000, 5), 15);
    assert_eq!(calculate_yield(100, 1, 10), 0);
}

#[test]
fn yield_is_zero_when_any_input_is_zero() {
    assert_eq!(calculate_yield(0, 1000, 10), 0);
    assert_eq!(calculate_yield(1000, 0, 10), 0);
    assert_eq!(calculate_yield(1000, 1000, 0), 0);
    assert_eq!(calculate_yield(0, u64::MAX, u64::MAX), 0);
}

#[test]
fn yield_grows_with_time() {
    let mut last = 0;
    for blocks in [0u64, 1, 100, 10_000, 1_000_000, BLOCKS_PER_YEAR, MAX_BLOCKS_STAKED] {
        let y = calculate_yield(50_000, blocks, 12);
        assert!(y >= last);
        last = y;
    }
}

#[test]
fn max_yield_covers_two_years() {
    assert_eq!(MAX_BLOCKS_STAKED, 2 * BLOCKS_PER_YEAR);
    assert_eq!(calculate_max_yield(1000, 10), 200);
    assert_eq!(calculate_max_yield(100, 10), 20);
    assert_eq!(calculate_max_yield(0, 10), 0);
}

#[test]
fn yield_overflow_is_detected() {
    assert!(yield_fits_exec(1000, BLOCKS_PER_YEAR, 10));
    assert!(!yield_fits_exec(u64::MAX, 2, 1));
    assert!(!yield_fits_exec(u64::MAX / 2, 1, 3));
    assert!(yield_fits_exec(0, u64::MAX, u64::MAX));
    assert!(yield_fits_exec(u64::MAX, 1, 1));
}

#[test]
fn decimal_matches_display() {
    for n in [0u64, 7, 10, 99, 100, 12000, 1234567890, u64::MAX] {
        assert_eq!(u64_to_decimal(n), n.to_string());
    }
}

#[test]
fn whitespace_follows_unicode() {
    for c in [' ', '\t', '\n', '\r', '\u{0B}', '\u{0C}', '\u{85}', '\u{A0}', '\u{2003}', '\u{3000}'] {
        assert!(char_is_whitespace(c));
        assert_eq!(char_is_whitespace(c), c.is_whitespace());
    }
    for c in ['a', '{', '0', '\u{200B}', '\u{1F600}'] {
        assert!(!char_is_whitespace(c));
        assert_eq!(char_is_whitespace(c), c.is_whitespace());
    }
}

#[test]
fn blank_means_trims_to_empty() {
    for s in ["", " ", " \t\r\n ", "\u{3000}\u{A0}", "x", " x ", "{}", " null "] {
        assert_eq!(str_is_blank(s), s.trim().is_empty());
    }
}

#[test]
fn empty_state_text_is_blank_or_null() {
    assert!(stored_state_is_empty(""));
    assert!(stored_state_is_empty("   \n"));
    assert!(stored_state_is_empty("null"));
    assert!(!stored_state_is_empty(" null"));
    assert!(!stored_state_is_empty("nul"));
    assert!(!stored_state_is_empty("{\"agent_did\":\"\"}"));
}

#[test]
fn string_equality_is_exact() {
    assert!(str_equal("active", "active"));
    assert!(!str_equal("active", "Active"));
    assert!(!str_equal("active", "active "));
    assert!(str_equal("", ""));
    assert!(str_equal("dïd", "dïd"));
}

#[test]
fn splitting_a_period_loses_at_most_one_token() {
    for (s, r, b1, b2) in [(1000u64, 10u64, 1_576_800u64, 1_576_800u64), (777, 13, 12_345, 67_890), (1_000_000, 5, 1, 315_359), (5, 7, 0, 10)] {
        let parts = calculate_yield(s, b1, r) + calculate_yield(s, b2, r);
        let whole = calculate_yield(s, b1 + b2, r);
        assert!(parts <= whole && whole <= parts + 1);
    }
    assert_eq!(calculate_yield(1_000_000, 63, 5) + calculate_yield(1_000_000, 63, 5), 0);
    assert_eq!(calculate_yield(1_000_000, 126, 5), 1);
}
