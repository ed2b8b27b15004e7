//! Fixed-point arithmetic support: basis-point scale, protocol constants,
//! and the decimal-scale lookup used to normalize token amounts.

use vstd::prelude::*;

use crate::error::ErrorCode;

verus! {

/// One unit in basis points: 100% == 10_000 bps.
pub const BPS_SCALE: u64 = 100 * 100;

/// Ledger slots per ten seconds of wall-clock time.
pub const SLOTS_PER_10_SECS: u64 = 25;

/// Default length of a proposal's trading window, in slots (three days).
pub const PROPOSAL_DURATION_SLOTS: u64 = 3 * 24 * 60 * 6 * SLOTS_PER_10_SECS;

/// Default grace window after the trading window in which a proposal may
/// still be finalized, in slots (one day).
pub const FINALIZE_WINDOW_SLOTS: u64 = 1 * 24 * 60 * 6 * SLOTS_PER_10_SECS;

/// Default margin, in basis points, by which the pass market's average price
/// must exceed the fail market's for a proposal to pass.
pub const DEFAULT_PASS_THRESHOLD_BPS: u64 = 500;

/// Default quote-side liquidity each market is seeded with.
pub const AMM_INITIAL_QUOTE_LIQUIDITY_ATOMS: u64 = 1000 * 1_000_000;

/// Default swap fee.
pub const AMM_SWAP_FEE_BPS: u64 = 300;

/// Smallest accepted swap fee.
pub const AMM_SWAP_FEE_BPS_MIN: u64 = 100;

/// Largest accepted swap fee (exclusive).
pub const AMM_SWAP_FEE_BPS_MAX: u64 = 1000;

/// Largest decimal count for which a power-of-ten scale is provided.
pub const MAX_DECIMALS: u8 = 15;

/// Ten to the power `e`.
pub open spec fn pow10(e: nat) -> nat
    decreases e,
{
    if e == 0 {
        1
    } else {
        10 * pow10((e - 1) as nat)
    }
}

/// The power-of-ten scale of a token with `decimals` fractional digits.
///
/// Returns `Ok(10^decimals)` for every supported decimal count and
/// `Err(DecimalScaleError)` beyond it.
pub fn get_decimal_scale_u64(decimals: u8) -> (r: Result<u64, ErrorCode>)
    ensures
        decimals <= MAX_DECIMALS ==> r == Ok::<u64, ErrorCode>(pow10(decimals as nat) as u64),
        decimals > MAX_DECIMALS ==> r == Err::<u64, ErrorCode>(ErrorCode::DecimalScaleError),
        decimals <= MAX_DECIMALS ==> pow10(decimals as nat) <= 1_000_000_000_000_000,
{
    proof {
        reveal_with_fuel(pow10, 17);
    }
    match decimals {
        0u8 => Ok(1u64),
        1u8 => Ok(10u64),
        2u8 => Ok(100u64),
        3u8 => Ok(1000u64),
        4u8 => Ok(10000u64),
        5u8 => Ok(100000u64),
        6u8 => Ok(1000000u64),
        7u8 => Ok(10000000u64),
        8u8 => Ok(100000000u64),
        9u8 => Ok(1000000000u64),
        10u8 => Ok(10000000000u64),
        11u8 => Ok(100000000000u64),
        12u8 => Ok(1000000000000u64),
        13u8 => Ok(10000000000000u64),
        14u8 => Ok(100000000000000u64),
        15u8 => Ok(1000000000000000u64),
        _ => Err(ErrorCode::DecimalScaleError),
    }
}

/// `pow10` is positive, and monotone in the exponent.
pub proof fn lemma_pow10_positive(e: nat)
    ensures
        pow10(e) >= 1,
    decreases e,
{
    if e > 0 {
        lemma_pow10_positive((e - 1) as nat);
    }
}

} // verus!
