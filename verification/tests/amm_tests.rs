use futarchy::amm::{create_amm, create_position, Amm, AmmPosition, CreateAmmParams};
use futarchy::error::ErrorCode;
use futarchy::math::{get_decimal_scale_u64, BPS_SCALE};

fn open_pool(fee_bps: u64) -> Amm {
    let params = CreateAmmParams {
        permissioned_caller: 0,
        swap_fee_bps: fee_bps,
        ltwap_decimals: 9,
    };
    create_amm(params, 11, 22, 6, 6, 0).unwrap()
}

fn seeded_pool(fee_bps: u64, base: u64, quote: u64) -> (Amm, AmmPosition) {
    let mut amm = open_pool(fee_bps);
    let mut position = create_position(&amm, 1, 1, 77).unwrap();
    amm.add_liquidity(&mut position, 1, base, quote).unwrap();
    (amm, position)
}

#[test]
fn decimal_scale_lookup() {
    assert_eq!(get_decimal_scale_u64(0), Ok(1));
    assert_eq!(get_decimal_scale_u64(1), Ok(10));
    assert_eq!(get_decimal_scale_u64(6), Ok(1_000_000));
    assert_eq!(get_decimal_scale_u64(15), Ok(1_000_000_000_000_000));
    assert_eq!(get_decimal_scale_u64(16), Err(ErrorCode::DecimalScaleError));
    assert_eq!(get_decimal_scale_u64(255), Err(ErrorCode::DecimalScaleError));
}

#[test]
fn create_amm_validates_fee_and_mints() {
    let low_fee = CreateAmmParams { permissioned_caller: 0, swap_fee_bps: 99, ltwap_decimals: 9 };
    assert_eq!(
        create_amm(low_fee, 1, 2, 6, 6, 0).err(),
        Some(ErrorCode::SwapFeeOutOfBounds)
    );
    let high_fee =
        CreateAmmParams { permissioned_caller: 0, swap_fee_bps: 1000, ltwap_decimals: 9 };
    assert_eq!(
        create_amm(high_fee, 1, 2, 6, 6, 0).err(),
        Some(ErrorCode::SwapFeeOutOfBounds)
    );
    let same_mints =
        CreateAmmParams { permissioned_caller: 0, swap_fee_bps: 300, ltwap_decimals: 9 };
    assert_eq!(
        create_amm(same_mints, 7, 7, 6, 6, 0).err(),
        Some(ErrorCode::InvalidMintPair)
    );
    let bad_decimals =
        CreateAmmParams { permissioned_caller: 0, swap_fee_bps: 300, ltwap_decimals: 16 };
    assert_eq!(
        create_amm(bad_decimals, 1, 2, 6, 6, 0).err(),
        Some(ErrorCode::DecimalScaleError)
    );
    let good = CreateAmmParams { permissioned_caller: 0, swap_fee_bps: 300, ltwap_decimals: 9 };
    let amm = create_amm(good, 1, 2, 6, 6, 42).unwrap();
    assert_eq!(amm.base_amount, 0);
    assert_eq!(amm.quote_amount, 0);
    assert_eq!(amm.total_ownership, 0);
    assert_eq!(amm.created_at_slot, 42);
    assert_eq!(amm.ltwap_slot_updated, 42);
    assert!(!amm.permissioned);
}

#[test]
fn create_position_starts_empty() {
    let amm = open_pool(300);
    let position = create_position(&amm, 5, 5, 77).unwrap();
    assert_eq!(position.ownership, 0);
    assert_eq!(position.user, 5);
    assert_eq!(position.amm, 77);
}

#[test]
fn permissioned_pool_rejects_foreign_callers() {
    let params = CreateAmmParams { permissioned_caller: 9, swap_fee_bps: 300, ltwap_decimals: 9 };
    let mut amm = create_amm(params, 11, 22, 6, 6, 0).unwrap();
    assert_eq!(
        create_position(&amm, 8, 8, 77).err(),
        Some(ErrorCode::UnauthorizedCaller)
    );
    let mut position = create_position(&amm, 9, 9, 77).unwrap();
    assert_eq!(
        amm.add_liquidity(&mut position, 8, 100, 100).err(),
        Some(ErrorCode::UnauthorizedCaller)
    );
    amm.add_liquidity(&mut position, 9, 100, 100).unwrap();
    assert_eq!(
        amm.swap(8, 10, true, 0).err(),
        Some(ErrorCode::UnauthorizedCaller)
    );
    assert_eq!(
        amm.update_ltwap(8, 5).err(),
        Some(ErrorCode::UnauthorizedCaller)
    );
    assert_eq!(
        amm.remove_liquidity(&mut position, 8, BPS_SCALE).err(),
        Some(ErrorCode::UnauthorizedCaller)
    );
}

#[test]
fn swap_worked_example() {
    // Pool seeded with base 1_000_000 and quote 2_000_000 at a 3% fee; a
    // quote-to-base swap of 100_000 keeps 97_000 after the fee, moves the
    // quote reserve to 2_097_000, re-solves the invariant to a base reserve
    // of 953_743, and pays out the difference.
    let (mut amm, _position) = seeded_pool(300, 1_000_000, 2_000_000);
    let k_before = (amm.base_amount as u128) * (amm.quote_amount as u128);
    assert_eq!(k_before, 2_000_000_000_000u128);
    let output = amm.swap(1, 100_000, true, 0).unwrap();
    assert_eq!(output, 46_257);
    assert_eq!(amm.base_amount, 953_743);
    assert_eq!(amm.quote_amount, 2_100_000);
    let k_after = (amm.base_amount as u128) * (amm.quote_amount as u128);
    assert!(k_after >= k_before);
}

#[test]
fn swap_invariant_never_decreases() {
    let (mut amm, _position) = seeded_pool(300, 1_000_000, 2_000_000);
    let mut k = (amm.base_amount as u128) * (amm.quote_amount as u128);
    let inputs = [100_000u64, 1, 37, 999_999, 123_456, 7];
    let mut quote_to_base = true;
    for input in inputs {
        amm.swap(1, input, quote_to_base, 0).unwrap();
        let new_k = (amm.base_amount as u128) * (amm.quote_amount as u128);
        assert!(new_k >= k);
        k = new_k;
        quote_to_base = !quote_to_base;
    }
}

#[test]
fn swap_respects_minimum_output() {
    let (mut amm, _position) = seeded_pool(300, 1_000_000, 2_000_000);
    let base_before = amm.base_amount;
    let quote_before = amm.quote_amount;
    assert_eq!(
        amm.swap(1, 100_000, true, 46_258).err(),
        Some(ErrorCode::SwapSlippageExceeded)
    );
    assert_eq!(amm.base_amount, base_before);
    assert_eq!(amm.quote_amount, quote_before);
    assert_eq!(amm.swap(1, 100_000, true, 46_257).unwrap(), 46_257);
}

#[test]
fn swap_rejects_invariant_decrease_on_tiny_pool() {
    // On a drained pool the floor divisions can lose more than the fee
    // recovers: with reserves 3 / 10, a quote-to-base swap of 4 keeps 3
    // after the fee, re-solves to floor(30 / 13) = 2, and the mutated
    // reserves 2 * 14 = 28 fall short of the original product 30. The swap
    // is aborted with no effect.
    let (mut amm, _position) = seeded_pool(300, 3, 10);
    assert_eq!(
        amm.swap(1, 4, true, 0).err(),
        Some(ErrorCode::SwapInvariantError)
    );
    assert_eq!(amm.base_amount, 3);
    assert_eq!(amm.quote_amount, 10);
}

#[test]
fn swap_on_drained_quote_side_reports_arithmetic_error() {
    // Selling into a pool whose quote side was fully drained leaves nothing
    // to divide by once the fee rounds the credited input to zero.
    let (mut amm, _position) = seeded_pool(300, 1_000_000, 2_000_000);
    amm.quote_amount = 0;
    assert_eq!(amm.swap(1, 1, true, 0).err(), Some(ErrorCode::ArithmeticError));
}

#[test]
fn add_liquidity_on_one_sided_pool_reports_arithmetic_error() {
    // A pool with quote but no base has no ratio to price a deposit by.
    let (mut amm, _position) = seeded_pool(300, 1_000_000, 2_000_000);
    amm.base_amount = 0;
    let mut position = create_position(&amm, 1, 1, 77).unwrap();
    assert_eq!(
        amm.add_liquidity(&mut position, 1, 100, 100).err(),
        Some(ErrorCode::ArithmeticError)
    );
}

#[test]
fn swap_of_one_atom() {
    let (mut amm, _position) = seeded_pool(300, 1_000_000, 2_000_000);
    // The fee rounds the credited input to zero, the reserves re-solve to
    // themselves, and the output is zero.
    assert_eq!(amm.swap(1, 1, true, 0).unwrap(), 0);
    assert_eq!(amm.base_amount, 1_000_000);
    assert_eq!(amm.quote_amount, 2_000_001);
}

#[test]
fn add_liquidity_seeds_with_equal_caps() {
    let (amm, position) = seeded_pool(300, 750_000, 750_000);
    assert_eq!(amm.total_ownership, 750_000);
    assert_eq!(position.ownership, 750_000);
}

#[test]
fn add_liquidity_seeds_with_larger_cap() {
    let (amm, position) = seeded_pool(300, 1_000_000, 2_000_000);
    assert_eq!(amm.total_ownership, 2_000_000);
    assert_eq!(position.ownership, 2_000_000);
    assert_eq!(amm.num_current_lps, 1);
}

#[test]
fn add_liquidity_follows_pool_ratio() {
    let (mut amm, _position) = seeded_pool(300, 1_000_000, 2_000_000);
    let mut second = create_position(&amm, 2, 2, 77).unwrap();
    // The quote amount implied by the base cap exceeds its cap, so the
    // deposit is recomputed from the quote side.
    let (base_used, quote_used) = amm.add_liquidity(&mut second, 2, 500_000, 600_000).unwrap();
    assert_eq!((base_used, quote_used), (300_000, 600_000));
    assert_eq!(amm.base_amount, 1_300_000);
    assert_eq!(amm.quote_amount, 2_600_000);
    // Ownership grows in proportion to the base amount used.
    assert_eq!(second.ownership, 600_000);
    assert_eq!(amm.total_ownership, 2_600_000);
    assert_eq!(amm.num_current_lps, 2);
}

#[test]
fn ownership_conservation_across_operations() {
    // The pool total always equals the sum of the positions' shares.
    let (mut amm, mut first) = seeded_pool(300, 1_000_000, 2_000_000);
    let mut second = create_position(&amm, 2, 2, 77).unwrap();
    let total_matches =
        |amm: &Amm, a: &AmmPosition, b: &AmmPosition| amm.total_ownership == a.ownership + b.ownership;
    assert!(total_matches(&amm, &first, &second));
    amm.add_liquidity(&mut second, 2, 250_000, 2_000_000).unwrap();
    assert!(total_matches(&amm, &first, &second));
    amm.remove_liquidity(&mut first, 1, 2_500).unwrap();
    assert!(total_matches(&amm, &first, &second));
    amm.remove_liquidity(&mut second, 2, BPS_SCALE).unwrap();
    assert!(total_matches(&amm, &first, &second));
    assert_eq!(second.ownership, 0);
    amm.remove_liquidity(&mut first, 1, BPS_SCALE).unwrap();
    assert!(total_matches(&amm, &first, &second));
    assert_eq!(amm.total_ownership, 0);
    assert_eq!(amm.num_current_lps, 0);
}

#[test]
fn remove_liquidity_pays_proportional_share() {
    let (mut amm, mut position) = seeded_pool(300, 1_000_000, 2_000_000);
    // A quarter of the only position: a quarter of both reserves.
    let (base_out, quote_out) = amm.remove_liquidity(&mut position, 1, 2_500).unwrap();
    assert_eq!((base_out, quote_out), (250_000, 500_000));
    assert_eq!(amm.base_amount, 750_000);
    assert_eq!(amm.quote_amount, 1_500_000);
    assert_eq!(position.ownership, 1_500_000);
    assert_eq!(amm.total_ownership, 1_500_000);
}

#[test]
fn remove_liquidity_validates_bps_and_ownership() {
    let (mut amm, mut position) = seeded_pool(300, 1_000_000, 2_000_000);
    assert_eq!(
        amm.remove_liquidity(&mut position, 1, 0).err(),
        Some(ErrorCode::RemoveLiquidityBpsOutOfRange)
    );
    assert_eq!(
        amm.remove_liquidity(&mut position, 1, BPS_SCALE + 1).err(),
        Some(ErrorCode::RemoveLiquidityBpsOutOfRange)
    );
    let mut empty = create_position(&amm, 3, 3, 77).unwrap();
    assert_eq!(
        amm.remove_liquidity(&mut empty, 3, 100).err(),
        Some(ErrorCode::RemoveLiquidityZeroOwnership)
    );
}

#[test]
fn ltwap_accumulates_time_weighted_price() {
    // Base and quote both carry six decimals, the oracle publishes nine:
    // the instantaneous price of the 1_000_000 / 2_000_000 pool is 2.0,
    // published as 2_000_000_000.
    let (mut amm, _position) = seeded_pool(300, 1_000_000, 2_000_000);
    assert_eq!(amm.get_ltwap(), 0);
    let latest = amm.update_ltwap(1, 10).unwrap();
    assert_eq!(latest, 2_000_000_000);
    assert_eq!(amm.ltwap_denominator_agg, 20_000_000);
    assert_eq!(amm.ltwap_numerator_agg, 40_000_000_000_000_000);
    assert_eq!(amm.ltwap_slot_updated, 10);
    assert_eq!(amm.get_ltwap(), 2_000_000_000);
}

#[test]
fn ltwap_weights_prices_by_time_and_liquidity() {
    // Ten slots at a price of 2.0 with quote liquidity 2_000_000, then a
    // swap, then twenty slots at the new price 2.201851022 with quote
    // liquidity 2_100_000: the average is the liquidity-and-time weighted
    // mean of the two prices.
    let (mut amm, _position) = seeded_pool(300, 1_000_000, 2_000_000);
    amm.update_ltwap(1, 10).unwrap();
    amm.swap(1, 100_000, true, 0).unwrap();
    let latest = amm.update_ltwap(1, 30).unwrap();
    assert_eq!(amm.ltwap_denominator_agg, 62_000_000);
    assert_eq!(amm.ltwap_numerator_agg, 132_477_742_924_000_000);
    assert_eq!(latest, 2_136_737_789);
    assert_eq!(amm.get_ltwap(), 2_136_737_789);
    // The average sits between the two observed prices, nearer the one that
    // was in effect longer.
    assert!(2_000_000_000 < latest && latest < 2_201_851_022);
}

#[test]
fn ltwap_rejects_backward_clock() {
    let (mut amm, _position) = seeded_pool(300, 1_000_000, 2_000_000);
    amm.update_ltwap(1, 10).unwrap();
    assert_eq!(amm.update_ltwap(1, 9).err(), Some(ErrorCode::ClockRolledBack));
    assert_eq!(amm.ltwap_slot_updated, 10);
}

#[test]
fn ltwap_stays_within_observed_price_range() {
    let (mut amm, _position) = seeded_pool(300, 1_000_000, 2_000_000);
    let mut low = u64::MAX;
    let mut high = 0u64;
    let mut slot = 0u64;
    let swaps = [(100_000u64, true), (400_000, true), (900_000, false), (50_000, true)];
    for (input, quote_to_base) in swaps {
        // Record the instantaneous price the oracle is about to observe.
        let price = if amm.base_amount == 0 {
            0
        } else {
            ((amm.quote_amount as u128) * 1_000_000_000 / (amm.base_amount as u128)) as u64
        };
        low = low.min(price);
        high = high.max(price);
        slot += 7;
        amm.update_ltwap(1, slot).unwrap();
        let average = amm.get_ltwap();
        assert!(low <= average && average <= high);
        amm.swap(1, input, quote_to_base, 0).unwrap();
    }
}

#[test]
fn ltwap_reports_saturated_accumulators() {
    let (mut amm, _position) = seeded_pool(300, 1_000_000, 2_000_000);
    amm.update_ltwap(1, 10).unwrap();
    // A numerator that cannot take another weighted observation aborts the
    // update and leaves the oracle as it was.
    amm.ltwap_numerator_agg = u128::MAX;
    assert_eq!(amm.update_ltwap(1, 20).err(), Some(ErrorCode::ArithmeticError));
    assert_eq!(amm.ltwap_slot_updated, 10);
}

#[test]
fn liquidity_units_normalize_decimals() {
    let params = CreateAmmParams { permissioned_caller: 0, swap_fee_bps: 300, ltwap_decimals: 9 };
    let mut amm = create_amm(params, 11, 22, 9, 4, 0).unwrap();
    let mut position = create_position(&amm, 1, 1, 77).unwrap();
    amm.add_liquidity(&mut position, 1, 5_000_000_000, 70_000).unwrap();
    // Nine-decimal base: 5.0 tokens are 5_000_000 units of 10^-6.
    assert_eq!(amm.get_base_liquidity_units().unwrap(), 5_000_000);
    // Four-decimal quote: 7.0 tokens are 7_000_000 units of 10^-6.
    assert_eq!(amm.get_quote_liquidity_units().unwrap(), 7_000_000);
}

#[test]
fn liquidity_units_report_overflow() {
    let params = CreateAmmParams { permissioned_caller: 0, swap_fee_bps: 300, ltwap_decimals: 9 };
    let mut amm = create_amm(params, 11, 22, 6, 6, 0).unwrap();
    let mut position = create_position(&amm, 1, 1, 77).unwrap();
    amm.add_liquidity(&mut position, 1, u64::MAX / 500_000, 1_000).unwrap();
    assert_eq!(
        amm.get_base_liquidity_units().err(),
        Some(ErrorCode::ArithmeticError)
    );
}
