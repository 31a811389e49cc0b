use soljeets_smc::error::ErrorMessage;
use soljeets_smc::utils::calculate::calculate_token_out;
use soljeets_smc::utils::fee::calculate_fee;

#[test]
fn fee_split_at_half_percent_each() {
    assert_eq!(calculate_fee(1_000_000, 50, 50), Ok((990_000, 5_000, 5_000)));
}

#[test]
fn fee_split_rounds_each_fee_down() {
    // 199 * 50 / 10000 = 0.995 -> 0
    assert_eq!(calculate_fee(199, 50, 50), Ok((199, 0, 0)));
    // 12345 * 123 / 10000 = 151.8435 -> 151; 12345 * 7 / 10000 = 8.6415 -> 8
    assert_eq!(calculate_fee(12345, 123, 7), Ok((12345 - 151 - 8, 151, 8)));
}

#[test]
fn fee_split_with_no_platform_fee() {
    assert_eq!(calculate_fee(1_000_000_000, 0, 50), Ok((995_000_000, 0, 5_000_000)));
}

#[test]
fn fee_split_takes_everything_at_full_rate() {
    assert_eq!(calculate_fee(777, 10000, 0), Ok((0, 777, 0)));
    assert_eq!(calculate_fee(777, 6000, 4000), Ok((777 - 466 - 310, 466, 310)));
}

#[test]
fn fee_split_conserves_the_amount() {
    for amount in [0u64, 1, 99, 10_000, 123_456_789, 1 << 40] {
        for (p, f) in [(0u16, 0u16), (50, 50), (1, 9999), (2500, 2500)] {
            let (sol, fp, ff) = calculate_fee(amount, p, f).unwrap();
            assert_eq!(sol + fp + ff, amount);
            assert!(fp + ff <= amount);
        }
    }
}

#[test]
fn fee_is_monotone_in_the_amount() {
    let mut last = 0u64;
    for amount in (0u64..50_000).step_by(37) {
        let (_, _, ff) = calculate_fee(amount, 0, 123).unwrap();
        assert!(ff >= last);
        last = ff;
    }
}

#[test]
fn curve_trade_halves_the_output_reserve() {
    // k = 1000 * 1000; 1000 more in gives an output reserve of 500.
    let r = calculate_token_out(1_000_000, 1000, 1000, 0, 700, 1000);
    assert_eq!(r, Ok((200, 1000, 500)));
}

#[test]
fn curve_trade_saturates_the_real_output_reserve() {
    let r = calculate_token_out(1_000_000, 1000, 1000, 5, 100, 1000);
    assert_eq!(r, Ok((0, 1005, 500)));
}

#[test]
fn curve_trade_rounds_the_output_reserve_down() {
    // k / (7 + 3) = 100 / 10 = 10; k / (7 + 4) = 100 / 11 = 9
    assert_eq!(calculate_token_out(100, 7, 14, 0, 50, 3), Ok((46, 3, 4)));
    assert_eq!(calculate_token_out(100, 7, 14, 0, 50, 4), Ok((45, 4, 5)));
}

#[test]
fn curve_keeps_the_product_within_one_unit() {
    let (k, vin, vout) = (1_000_003u128, 997u128, 1003u128);
    for a in [1u128, 2, 10, 333, 10_000] {
        let (_, _, out) = calculate_token_out(k, vin, vout, 0, 0, a).unwrap();
        let d = vin + a;
        let r = vout - out;
        assert!(d * r <= k);
        assert!(k < d * (r + 1));
    }
}

#[test]
fn curve_output_grows_with_the_input() {
    let mut last = 0u128;
    for a in 0u128..2000 {
        let (_, _, out) = calculate_token_out(1_000_000, 1000, 1000, 0, 0, a).unwrap();
        assert!(out >= last);
        assert!(out <= 1000);
        last = out;
    }
}

#[test]
fn error_values_are_distinct() {
    assert_ne!(ErrorMessage::TradingEnd, ErrorMessage::TradingNotEnd);
}
