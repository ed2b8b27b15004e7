//! The constant-product market-maker pool and its liquidity-time-weighted
//! average price (LTWAP) oracle.
//!
//! A pool holds base and quote reserves of one trading pair, executes swaps
//! under the invariant that `base_amount * quote_amount` never decreases net
//! of fees, accounts each liquidity provider's proportional ownership share,
//! and accumulates a running numerator and denominator from which the
//! average price over the pool's lifetime is derived without a price
//! history.

use vstd::prelude::*;

use crate::error::ErrorCode;
use crate::math::{
    get_decimal_scale_u64, pow10, AMM_SWAP_FEE_BPS_MAX, AMM_SWAP_FEE_BPS_MIN, BPS_SCALE,
    MAX_DECIMALS,
};
use crate::Pubkey;

verus! {

/// One market-maker pool.
pub struct Amm {
    /// When set, only invocations carrying `permissioned_caller` as their
    /// authenticated caller are accepted.
    pub permissioned: bool,
    /// The sole authority accepted by a permissioned pool.
    pub permissioned_caller: Pubkey,
    /// Slot at which the pool was created.
    pub created_at_slot: u64,
    /// Mint of the base-side token.
    pub base_mint: Pubkey,
    /// Mint of the quote-side token.
    pub quote_mint: Pubkey,
    /// Fractional digits of the base mint.
    pub base_mint_decimals: u8,
    /// Fractional digits of the quote mint.
    pub quote_mint_decimals: u8,
    /// Base-side reserve, in atomic token amounts.
    pub base_amount: u64,
    /// Quote-side reserve, in atomic token amounts.
    pub quote_amount: u64,
    /// Sum of all position ownership shares referencing this pool.
    pub total_ownership: u64,
    /// Number of positions currently holding a non-zero share.
    pub num_current_lps: u64,
    /// Swap fee in basis points, taken from the input side.
    pub swap_fee_bps: u64,
    /// Fractional digits of the oracle's published average price.
    pub ltwap_decimals: u8,
    /// Slot of the oracle's most recent update.
    pub ltwap_slot_updated: u64,
    /// Running sum of `liquidity * elapsed slots`.
    pub ltwap_denominator_agg: u128,
    /// Running sum of `liquidity * elapsed slots * price`.
    pub ltwap_numerator_agg: u128,
    /// Cached most recent average price, in `10^-ltwap_decimals` units.
    pub ltwap_latest: u64,
}

/// One liquidity provider's stake in one pool.
///
/// `ownership` is a dimensionless share, not a token amount: the redeemable
/// value is `ownership / total_ownership` of each reserve.
pub struct AmmPosition {
    /// Owner of the position.
    pub user: Pubkey,
    /// Address of the pool the position refers to.
    pub amm: Pubkey,
    /// The position's share of the pool.
    pub ownership: u64,
}

/// Parameters of pool creation.
pub struct CreateAmmParams {
    /// Zero for an open pool; otherwise the only accepted authority.
    pub permissioned_caller: Pubkey,
    /// Swap fee in basis points.
    pub swap_fee_bps: u64,
    /// Fractional digits of the published average price.
    pub ltwap_decimals: u8,
}

/// `v` clamped to the largest representable `u64`.
pub open spec fn sat_u64(v: int) -> u64 {
    if v > u64::MAX {
        u64::MAX
    } else {
        v as u64
    }
}

/// Whether normalizing `amount` to liquidity units overflows the
/// intermediate 64-bit multiplication.
pub open spec fn liquidity_units_overflow(amount: u64) -> bool {
    amount * 1_000_000 > u64::MAX
}

/// `amount` normalized to liquidity units with a resolution of `10^-6`.
pub open spec fn liquidity_units(amount: u64, decimals: u8) -> int {
    amount * 1_000_000 / pow10(decimals as nat) as int
}

impl Amm {
    /// Structural validity: the fee and all decimal counts are in range.
    /// Established at creation and preserved by every operation.
    pub open spec fn well_formed(self) -> bool {
        &&& 0 < self.swap_fee_bps < BPS_SCALE
        &&& self.base_mint_decimals <= MAX_DECIMALS
        &&& self.quote_mint_decimals <= MAX_DECIMALS
        &&& self.ltwap_decimals <= MAX_DECIMALS
    }

    /// The cached average agrees with the running aggregates. Established at
    /// creation and preserved by every operation.
    pub open spec fn ltwap_consistent(self) -> bool {
        &&& self.ltwap_denominator_agg == 0 ==> self.ltwap_numerator_agg == 0
            && self.ltwap_latest == 0
        &&& self.ltwap_denominator_agg > 0 ==> self.ltwap_latest == sat_u64(
            self.ltwap_numerator_agg as int / self.ltwap_denominator_agg as int,
        )
    }

    /// Whether `caller` may invoke this pool.
    pub open spec fn accepts_caller(self, caller: Pubkey) -> bool {
        self.permissioned ==> caller == self.permissioned_caller
    }

    /// The base reserve in liquidity units.
    pub open spec fn base_liquidity_units_spec(self) -> int {
        liquidity_units(self.base_amount, self.base_mint_decimals)
    }

    /// The quote reserve in liquidity units.
    pub open spec fn quote_liquidity_units_spec(self) -> int {
        liquidity_units(self.quote_amount, self.quote_mint_decimals)
    }

    /// The base reserve normalized to liquidity units with a resolution of
    /// `10^-6`; fails only when the 64-bit intermediate product overflows.
    pub fn get_base_liquidity_units(&self) -> (r: Result<u64, ErrorCode>)
        requires
            self.well_formed(),
        ensures
            !liquidity_units_overflow(self.base_amount) ==> r == Ok::<u64, ErrorCode>(
                self.base_liquidity_units_spec() as u64,
            ) && 0 <= self.base_liquidity_units_spec() <= u64::MAX,
            liquidity_units_overflow(self.base_amount) ==> r == Err::<u64, ErrorCode>(
                ErrorCode::ArithmeticError,
            ),
    {
        proof {
            crate::math::lemma_pow10_positive(self.base_mint_decimals as nat);
        }
        let scale = match get_decimal_scale_u64(self.base_mint_decimals) {
            Ok(s) => s,
            Err(e) => return Err(e),
        };
        match self.base_amount.checked_mul(1_000_000) {
            Some(scaled) => {
                proof {
                    vstd::arithmetic::div_mod::lemma_div_pos_is_pos(
                        scaled as int,
                        scale as int,
                    );
                    vstd::arithmetic::div_mod::lemma_div_nonincreasing(
                        scaled as int,
                        scale as int,
                    );
                }
                Ok(scaled / scale)
            },
            None => Err(ErrorCode::ArithmeticError),
        }
    }

    /// The quote reserve normalized to liquidity units with a resolution of
    /// `10^-6`; fails only when the 64-bit intermediate product overflows.
    pub fn get_quote_liquidity_units(&self) -> (r: Result<u64, ErrorCode>)
        requires
            self.well_formed(),
        ensures
            !liquidity_units_overflow(self.quote_amount) ==> r == Ok::<u64, ErrorCode>(
                self.quote_liquidity_units_spec() as u64,
            ) && 0 <= self.quote_liquidity_units_spec() <= u64::MAX,
            liquidity_units_overflow(self.quote_amount) ==> r == Err::<u64, ErrorCode>(
                ErrorCode::ArithmeticError,
            ),
    {
        proof {
            crate::math::lemma_pow10_positive(self.quote_mint_decimals as nat);
        }
        let scale = match get_decimal_scale_u64(self.quote_mint_decimals) {
            Ok(s) => s,
            Err(e) => return Err(e),
        };
        match self.quote_amount.checked_mul(1_000_000) {
            Some(scaled) => {
                proof {
                    vstd::arithmetic::div_mod::lemma_div_pos_is_pos(
                        scaled as int,
                        scale as int,
                    );
                    vstd::arithmetic::div_mod::lemma_div_nonincreasing(
                        scaled as int,
                        scale as int,
                    );
                }
                Ok(scaled / scale)
            },
            None => Err(ErrorCode::ArithmeticError),
        }
    }
}

impl Amm {
    /// Instantaneous pool price in `10^-ltwap_decimals` units: quote
    /// liquidity per base liquidity; zero while the base side is empty.
    pub open spec fn instant_price(self) -> int {
        if self.base_liquidity_units_spec() == 0 {
            0
        } else {
            self.quote_liquidity_units_spec() * pow10(self.ltwap_decimals as nat)
                / self.base_liquidity_units_spec()
        }
    }

    /// The weight an update at `now` adds to the accumulators: the quote
    /// liquidity held over the elapsed slots.
    pub open spec fn ltwap_weight(self, now: u64) -> int {
        self.quote_liquidity_units_spec() * (now - self.ltwap_slot_updated)
    }

    /// Whether an oracle update at `now` exceeds a representable value.
    pub open spec fn ltwap_overflow(self, now: u64) -> bool {
        ||| liquidity_units_overflow(self.base_amount)
        ||| liquidity_units_overflow(self.quote_amount)
        ||| self.ltwap_denominator_agg + self.ltwap_weight(now) > u128::MAX
        ||| self.ltwap_numerator_agg + self.ltwap_weight(now) * self.instant_price() > u128::MAX
    }

    /// The pool after an oracle update at `now`, assuming no failure.
    pub open spec fn ltwap_next(self, now: u64) -> Amm {
        let w = self.ltwap_weight(now);
        let p = self.instant_price();
        let denom = self.ltwap_denominator_agg + w;
        let num = self.ltwap_numerator_agg + w * p;
        Amm {
            ltwap_denominator_agg: denom as u128,
            ltwap_numerator_agg: num as u128,
            ltwap_latest: if denom == 0 {
                self.ltwap_latest
            } else {
                sat_u64(num / denom)
            },
            ltwap_slot_updated: now,
            ..self
        }
    }

    /// Why an oracle update at `now` by `caller` is rejected, if it is.
    pub open spec fn ltwap_update_error(self, caller: Pubkey, now: u64) -> Option<ErrorCode> {
        if !self.accepts_caller(caller) {
            Some(ErrorCode::UnauthorizedCaller)
        } else if now < self.ltwap_slot_updated {
            Some(ErrorCode::ClockRolledBack)
        } else if self.ltwap_overflow(now) {
            Some(ErrorCode::ArithmeticError)
        } else {
            None
        }
    }

    /// Advances the oracle to `current_slot`: time-weights the instantaneous
    /// price over the slots elapsed since the last update and refreshes the
    /// cached average.
    ///
    /// The published average never leaves the range spanned by the previous
    /// average and the price just observed, so no single update can push it
    /// outside the observed price range.
    pub fn update_ltwap(&mut self, caller: Pubkey, current_slot: u64) -> (r: Result<
        u64,
        ErrorCode,
    >)
        requires
            old(self).well_formed(),
            old(self).ltwap_consistent(),
        ensures
            final(self).well_formed(),
            final(self).ltwap_consistent(),
            match r {
                Ok(l) => {
                    &&& old(self).ltwap_update_error(caller, current_slot) is None
                    &&& *final(self) == old(self).ltwap_next(current_slot)
                    &&& l == final(self).ltwap_latest
                },
                Err(e) => {
                    &&& Some(e) == old(self).ltwap_update_error(caller, current_slot)
                    &&& *final(self) == *old(self)
                },
            },
            r is Ok ==> {
                let p = sat_u64(old(self).instant_price());
                &&& old(self).ltwap_denominator_agg > 0 ==> vstd::math::min(
                    old(self).ltwap_latest as int,
                    p as int,
                ) <= final(self).ltwap_latest <= vstd::math::max(
                    old(self).ltwap_latest as int,
                    p as int,
                )
                &&& (old(self).ltwap_denominator_agg == 0 && old(self).ltwap_weight(current_slot)
                    > 0) ==> final(self).ltwap_latest == p
                &&& old(self).ltwap_weight(current_slot) == 0 ==> final(self).ltwap_latest == old(
                    self).ltwap_latest
            },
    {
        if self.permissioned && caller != self.permissioned_caller {
            return Err(ErrorCode::UnauthorizedCaller);
        }
        let slot_difference = match current_slot.checked_sub(self.ltwap_slot_updated) {
            Some(d) => d,
            None => return Err(ErrorCode::ClockRolledBack),
        };
        let quote_units = match self.get_quote_liquidity_units() {
            Ok(q) => q,
            Err(e) => return Err(e),
        };
        let base_units = match self.get_base_liquidity_units() {
            Ok(b) => b,
            Err(e) => return Err(e),
        };
        proof {
            crate::math::lemma_pow10_positive(self.ltwap_decimals as nat);
        }
        let ltwap_scale = match get_decimal_scale_u64(self.ltwap_decimals) {
            Ok(s) => s,
            Err(e) => return Err(e),
        };
        let liquidity_x_slot_diff: u128 = widening_mul_u64(quote_units, slot_difference);
        let price: u128 = if base_units == 0 {
            0
        } else {
            assert((quote_units as int) * (ltwap_scale as int) <= u128::MAX) by {
                vstd::arithmetic::mul::lemma_mul_upper_bound(
                    quote_units as int,
                    u64::MAX as int,
                    ltwap_scale as int,
                    1_000_000_000_000_000int,
                );
            }
            ((quote_units as u128) * (ltwap_scale as u128)) / (base_units as u128)
        };
        let weighted_price = match liquidity_x_slot_diff.checked_mul(price) {
            Some(v) => v,
            None => {
                assert(self.ltwap_numerator_agg + self.ltwap_weight(current_slot)
                    * self.instant_price() > u128::MAX);
                return Err(ErrorCode::ArithmeticError);
            },
        };
        let new_denominator_agg = match self.ltwap_denominator_agg.checked_add(
            liquidity_x_slot_diff,
        ) {
            Some(v) => v,
            None => return Err(ErrorCode::ArithmeticError),
        };
        let new_numerator_agg = match self.ltwap_numerator_agg.checked_add(weighted_price) {
            Some(v) => v,
            None => return Err(ErrorCode::ArithmeticError),
        };
        let new_latest: u64 = if new_denominator_agg == 0 {
            self.ltwap_latest
        } else {
            let avg = new_numerator_agg / new_denominator_agg;
            if avg > u64::MAX as u128 {
                u64::MAX
            } else {
                avg as u64
            }
        };
        proof {
            let num = self.ltwap_numerator_agg as int;
            let denom = self.ltwap_denominator_agg as int;
            let w = self.ltwap_weight(current_slot);
            let p = self.instant_price();
            assert(p >= 0) by {
                if self.base_liquidity_units_spec() != 0 {
                    vstd::arithmetic::div_mod::lemma_div_pos_is_pos(
                        self.quote_liquidity_units_spec() * pow10(self.ltwap_decimals as nat),
                        self.base_liquidity_units_spec(),
                    );
                    vstd::arithmetic::mul::lemma_mul_nonnegative(
                        self.quote_liquidity_units_spec(),
                        pow10(self.ltwap_decimals as nat) as int,
                    );
                }
            }
            if denom > 0 {
                lemma_weighted_average_step(num, denom, w, p);
            } else if w > 0 {
                vstd::arithmetic::div_mod::lemma_div_multiples_vanish(p, w);
            }
            if w == 0 {
                assert(w * p == 0);
            }
        }
        self.ltwap_denominator_agg = new_denominator_agg;
        self.ltwap_numerator_agg = new_numerator_agg;
        self.ltwap_latest = new_latest;
        self.ltwap_slot_updated = current_slot;
        Ok(new_latest)
    }

    /// The average price over the whole accumulation window so far, in
    /// `10^-ltwap_decimals` units; zero before the first weighted update,
    /// clamped to the largest representable value.
    pub fn get_ltwap(&self) -> (r: u64)
        ensures
            self.ltwap_denominator_agg == 0 ==> r == 0,
            self.ltwap_denominator_agg > 0 ==> r == sat_u64(
                self.ltwap_numerator_agg as int / self.ltwap_denominator_agg as int,
            ),
            self.ltwap_consistent() ==> r == self.ltwap_latest,
    {
        if self.ltwap_denominator_agg == 0 {
            return 0;
        }
        let avg = self.ltwap_numerator_agg / self.ltwap_denominator_agg;
        if avg > u64::MAX as u128 {
            u64::MAX
        } else {
            avg as u64
        }
    }
}

impl Amm {
    /// The constant-product invariant value `base_amount * quote_amount`.
    pub open spec fn k(self) -> int {
        self.base_amount * self.quote_amount
    }

    /// The portion of `input` credited to the input reserve once the swap
    /// fee is taken.
    pub open spec fn input_minus_fee(self, input: u64) -> int {
        input * (BPS_SCALE - self.swap_fee_bps) / (BPS_SCALE as int)
    }

    /// The reserve a swap pays into.
    pub open spec fn swap_in_reserve(self, is_quote_to_base: bool) -> int {
        if is_quote_to_base {
            self.quote_amount as int
        } else {
            self.base_amount as int
        }
    }

    /// The reserve a swap pays out of.
    pub open spec fn swap_out_reserve(self, is_quote_to_base: bool) -> int {
        if is_quote_to_base {
            self.base_amount as int
        } else {
            self.quote_amount as int
        }
    }

    /// The output of a swap: how far the output reserve shrinks when the
    /// invariant is re-solved against the fee-adjusted input.
    pub open spec fn swap_output(self, input: u64, is_quote_to_base: bool) -> int {
        self.swap_out_reserve(is_quote_to_base) - self.k() / (self.swap_in_reserve(
            is_quote_to_base,
        ) + self.input_minus_fee(input))
    }

    /// The pool after a swap, assuming no failure. The full input is added
    /// to one reserve (the fee stays in the pool) and the output leaves the
    /// other; the oracle fields are untouched.
    pub open spec fn swap_next(self, input: u64, is_quote_to_base: bool) -> Amm {
        if is_quote_to_base {
            Amm {
                quote_amount: (self.quote_amount + input) as u64,
                base_amount: (self.base_amount - self.swap_output(input, is_quote_to_base)) as u64,
                ..self
            }
        } else {
            Amm {
                base_amount: (self.base_amount + input) as u64,
                quote_amount: (self.quote_amount - self.swap_output(input, is_quote_to_base))
                    as u64,
                ..self
            }
        }
    }

    /// Why a swap is rejected, if it is: in order, an unauthorized caller, a
    /// division by zero on a drained pool, an input reserve that cannot hold
    /// the input, a decrease of the invariant, or an output below the
    /// caller's minimum.
    pub open spec fn swap_error(
        self,
        caller: Pubkey,
        input: u64,
        is_quote_to_base: bool,
        output_amount_min: u64,
    ) -> Option<ErrorCode> {
        if !self.accepts_caller(caller) {
            Some(ErrorCode::UnauthorizedCaller)
        } else if self.swap_in_reserve(is_quote_to_base) + self.input_minus_fee(input) == 0 {
            Some(ErrorCode::ArithmeticError)
        } else if self.swap_in_reserve(is_quote_to_base) + input > u64::MAX {
            Some(ErrorCode::ArithmeticError)
        } else if self.swap_next(input, is_quote_to_base).k() < self.k() {
            Some(ErrorCode::SwapInvariantError)
        } else if self.swap_output(input, is_quote_to_base) < output_amount_min {
            Some(ErrorCode::SwapSlippageExceeded)
        } else {
            None
        }
    }

    /// Swaps `input_amount` of one side for the other under the
    /// constant-product rule, with the fee taken from the input side before
    /// the invariant computation.
    ///
    /// On success the invariant has not decreased: this is re-checked
    /// against the mutated reserves, and a decrease aborts the swap with
    /// `SwapInvariantError` and no effect. The public market operations
    /// advance the oracle before calling this, so the pre-swap reserves are
    /// what gets time-weighted.
    pub fn swap(
        &mut self,
        caller: Pubkey,
        input_amount: u64,
        is_quote_to_base: bool,
        output_amount_min: u64,
    ) -> (r: Result<u64, ErrorCode>)
        requires
            old(self).well_formed(),
            input_amount > 0,
            old(self).total_ownership > 0,
        ensures
            final(self).well_formed(),
            old(self).ltwap_consistent() ==> final(self).ltwap_consistent(),
            final(self).total_ownership == old(self).total_ownership,
            match r {
                Ok(out) => {
                    &&& old(self).swap_error(
                        caller,
                        input_amount,
                        is_quote_to_base,
                        output_amount_min,
                    ) is None
                    &&& out == old(self).swap_output(input_amount, is_quote_to_base)
                    &&& *final(self) == old(self).swap_next(input_amount, is_quote_to_base)
                    &&& final(self).k() >= old(self).k()
                    &&& out >= output_amount_min
                },
                Err(e) => {
                    &&& Some(e) == old(self).swap_error(
                        caller,
                        input_amount,
                        is_quote_to_base,
                        output_amount_min,
                    )
                    &&& *final(self) == *old(self)
                },
            },
    {
        if self.permissioned && caller != self.permissioned_caller {
            return Err(ErrorCode::UnauthorizedCaller);
        }
        let base_amount_start = self.base_amount;
        let quote_amount_start = self.quote_amount;
        let k = widening_mul_u64(base_amount_start, quote_amount_start);
        let fee_factor = BPS_SCALE - self.swap_fee_bps;
        assert((input_amount as int) * (fee_factor as int) <= u128::MAX) by {
            vstd::arithmetic::mul::lemma_mul_upper_bound(
                input_amount as int,
                u64::MAX as int,
                fee_factor as int,
                BPS_SCALE as int,
            );
        }
        let input_minus_fee: u128 = ((input_amount as u128) * (fee_factor as u128)) / (
        BPS_SCALE as u128);
        proof {
            vstd::arithmetic::div_mod::lemma_div_pos_is_pos(
                input_amount as int * fee_factor as int,
                BPS_SCALE as int,
            );
            vstd::arithmetic::div_mod::lemma_div_nonincreasing(
                input_amount as int * fee_factor as int,
                BPS_SCALE as int,
            );
        }
        let in_reserve: u64 = if is_quote_to_base {
            quote_amount_start
        } else {
            base_amount_start
        };
        let out_reserve: u64 = if is_quote_to_base {
            base_amount_start
        } else {
            quote_amount_start
        };
        let divisor: u128 = (in_reserve as u128) + input_minus_fee;
        if divisor == 0 {
            return Err(ErrorCode::ArithmeticError);
        }
        let temp_out_reserve = k / divisor;
        assert(temp_out_reserve <= out_reserve && temp_out_reserve >= 0) by {
            assert(k == (out_reserve as int) * (in_reserve as int)) by {
                vstd::arithmetic::mul::lemma_mul_is_commutative(
                    base_amount_start as int,
                    quote_amount_start as int,
                );
            }
            vstd::arithmetic::mul::lemma_mul_inequality(
                in_reserve as int,
                divisor as int,
                out_reserve as int,
            );
            vstd::arithmetic::mul::lemma_mul_is_commutative(in_reserve as int, out_reserve as int);
            vstd::arithmetic::mul::lemma_mul_is_commutative(divisor as int, out_reserve as int);
            vstd::arithmetic::div_mod::lemma_multiply_divide_le(
                k as int,
                divisor as int,
                out_reserve as int,
            );
            vstd::arithmetic::div_mod::lemma_div_pos_is_pos(k as int, divisor as int);
        }
        let output: u64 = (out_reserve as u128 - temp_out_reserve) as u64;
        let new_in_reserve = match in_reserve.checked_add(input_amount) {
            Some(v) => v,
            None => return Err(ErrorCode::ArithmeticError),
        };
        let new_out_reserve = out_reserve - output;
        let new_k = widening_mul_u64(new_out_reserve, new_in_reserve);
        if new_k < k {
            proof {
                vstd::arithmetic::mul::lemma_mul_is_commutative(
                    new_out_reserve as int,
                    new_in_reserve as int,
                );
            }
            return Err(ErrorCode::SwapInvariantError);
        }
        if output < output_amount_min {
            proof {
                vstd::arithmetic::mul::lemma_mul_is_commutative(
                    new_out_reserve as int,
                    new_in_reserve as int,
                );
            }
            return Err(ErrorCode::SwapSlippageExceeded);
        }
        proof {
            vstd::arithmetic::mul::lemma_mul_is_commutative(
                new_out_reserve as int,
                new_in_reserve as int,
            );
        }
        if is_quote_to_base {
            self.quote_amount = new_in_reserve;
            self.base_amount = new_out_reserve;
        } else {
            self.base_amount = new_in_reserve;
            self.quote_amount = new_out_reserve;
        }
        Ok(output)
    }
}

impl Amm {
    /// Whether the pool holds no reserves on either side.
    pub open spec fn pool_is_empty(self) -> bool {
        self.base_amount == 0 && self.quote_amount == 0
    }

    /// The `(base, quote)` amounts a liquidity deposit actually uses: the
    /// caps on an empty pool, otherwise the largest pair at the current
    /// reserve ratio that fits under both caps (meaningful when no error is
    /// reported).
    pub open spec fn add_liquidity_amounts(self, max_base: u64, max_quote: u64) -> (int, int) {
        if self.pool_is_empty() {
            (max_base as int, max_quote as int)
        } else {
            let implied_quote = max_base * self.quote_amount / self.base_amount as int;
            if implied_quote <= max_quote {
                (max_base as int, implied_quote)
            } else {
                (max_quote * self.base_amount / self.quote_amount as int, max_quote as int)
            }
        }
    }

    /// The ownership share granted for a liquidity deposit: the larger cap
    /// seeds an empty pool, otherwise the share is proportional to the base
    /// amount used.
    pub open spec fn add_liquidity_ownership(self, max_base: u64, max_quote: u64) -> int {
        if self.pool_is_empty() {
            vstd::math::max(max_base as int, max_quote as int)
        } else {
            self.add_liquidity_amounts(max_base, max_quote).0 * self.total_ownership
                / self.base_amount as int
        }
    }

    /// Why a liquidity deposit is rejected, if it is.
    pub open spec fn add_liquidity_error(
        self,
        caller: Pubkey,
        position_ownership: u64,
        max_base: u64,
        max_quote: u64,
    ) -> Option<ErrorCode> {
        let lps_bump: int = if position_ownership == 0 {
            1
        } else {
            0
        };
        let (base_used, quote_used) = self.add_liquidity_amounts(max_base, max_quote);
        let granted = self.add_liquidity_ownership(max_base, max_quote);
        if !self.accepts_caller(caller) {
            Some(ErrorCode::UnauthorizedCaller)
        } else if self.num_current_lps + lps_bump > u64::MAX {
            Some(ErrorCode::ArithmeticError)
        } else if self.pool_is_empty() {
            None
        } else if self.base_amount == 0 {
            Some(ErrorCode::ArithmeticError)
        } else if max_base * self.quote_amount / self.base_amount as int > max_quote && base_used
            > max_base {
            Some(ErrorCode::AddLiquidityCalculationError)
        } else if granted > u64::MAX || position_ownership + granted > u64::MAX
            || self.total_ownership + granted > u64::MAX || self.base_amount + base_used
            > u64::MAX || self.quote_amount + quote_used > u64::MAX {
            Some(ErrorCode::ArithmeticError)
        } else {
            None
        }
    }

    /// The pool after a liquidity deposit, assuming no failure. An empty
    /// pool is seeded afresh; otherwise the reserves and the total ownership
    /// grow by the used amounts and the granted share.
    pub open spec fn add_liquidity_next(
        self,
        position_ownership: u64,
        max_base: u64,
        max_quote: u64,
    ) -> Amm {
        let lps_bump: int = if position_ownership == 0 {
            1
        } else {
            0
        };
        let (base_used, quote_used) = self.add_liquidity_amounts(max_base, max_quote);
        let granted = self.add_liquidity_ownership(max_base, max_quote);
        if self.pool_is_empty() {
            Amm {
                base_amount: max_base,
                quote_amount: max_quote,
                total_ownership: granted as u64,
                num_current_lps: (self.num_current_lps + lps_bump) as u64,
                ..self
            }
        } else {
            Amm {
                base_amount: (self.base_amount + base_used) as u64,
                quote_amount: (self.quote_amount + quote_used) as u64,
                total_ownership: (self.total_ownership + granted) as u64,
                num_current_lps: (self.num_current_lps + lps_bump) as u64,
                ..self
            }
        }
    }

    /// The position's share after a liquidity deposit, assuming no failure.
    pub open spec fn add_liquidity_position_ownership(
        self,
        position_ownership: u64,
        max_base: u64,
        max_quote: u64,
    ) -> int {
        if self.pool_is_empty() {
            self.add_liquidity_ownership(max_base, max_quote)
        } else {
            position_ownership + self.add_liquidity_ownership(max_base, max_quote)
        }
    }

    /// Deposits up to `max_base_amount` and `max_quote_amount` into the
    /// pool at its current reserve ratio and grants `position` a
    /// proportional ownership share.
    ///
    /// An empty pool is seeded at exactly the two caps and the position's
    /// share is set to the larger cap. Otherwise, the quote amount implied
    /// by `max_base_amount` is used if it fits under `max_quote_amount`;
    /// failing that, the computation is repeated from `max_quote_amount`,
    /// and if that direction exceeds `max_base_amount` in turn the deposit
    /// is rejected. Returns the `(base, quote)` amounts used.
    ///
    /// The pool's total ownership and the position's share change by the
    /// same amount, so the sum of all positions' shares keeps tracking the
    /// total.
    pub fn add_liquidity(
        &mut self,
        position: &mut AmmPosition,
        caller: Pubkey,
        max_base_amount: u64,
        max_quote_amount: u64,
    ) -> (r: Result<(u64, u64), ErrorCode>)
        requires
            old(self).well_formed(),
            max_base_amount > 0,
            max_quote_amount > 0,
        ensures
            final(self).well_formed(),
            old(self).ltwap_consistent() ==> final(self).ltwap_consistent(),
            final(position).user == old(position).user && final(position).amm == old(
                position).amm,
            match r {
                Ok(used) => {
                    &&& old(self).add_liquidity_error(
                        caller,
                        old(position).ownership,
                        max_base_amount,
                        max_quote_amount,
                    ) is None
                    &&& (used.0 as int, used.1 as int) == old(self).add_liquidity_amounts(
                        max_base_amount,
                        max_quote_amount,
                    )
                    &&& *final(self) == old(self).add_liquidity_next(
                        old(position).ownership,
                        max_base_amount,
                        max_quote_amount,
                    )
                    &&& final(position).ownership == old(self).add_liquidity_position_ownership(
                        old(position).ownership,
                        max_base_amount,
                        max_quote_amount,
                    )
                    &&& !old(self).pool_is_empty() ==> final(self).total_ownership - old(
                        self).total_ownership == final(position).ownership - old(
                        position).ownership
                    &&& old(self).pool_is_empty() ==> final(self).total_ownership == final(
                        position).ownership
                },
                Err(e) => {
                    &&& Some(e) == old(self).add_liquidity_error(
                        caller,
                        old(position).ownership,
                        max_base_amount,
                        max_quote_amount,
                    )
                    &&& *final(self) == *old(self)
                    &&& *final(position) == *old(position)
                },
            },
    {
        if self.permissioned && caller != self.permissioned_caller {
            return Err(ErrorCode::UnauthorizedCaller);
        }
        let lps_bump: u64 = if position.ownership == 0 {
            1
        } else {
            0
        };
        let new_num_lps = match self.num_current_lps.checked_add(lps_bump) {
            Some(v) => v,
            None => return Err(ErrorCode::ArithmeticError),
        };
        if self.base_amount == 0 && self.quote_amount == 0 {
            let granted = if max_base_amount >= max_quote_amount {
                max_base_amount
            } else {
                max_quote_amount
            };
            self.base_amount = max_base_amount;
            self.quote_amount = max_quote_amount;
            self.total_ownership = granted;
            self.num_current_lps = new_num_lps;
            position.ownership = granted;
            return Ok((max_base_amount, max_quote_amount));
        }
        if self.base_amount == 0 {
            return Err(ErrorCode::ArithmeticError);
        }
        let implied_quote: u128 = widening_mul_u64(max_base_amount, self.quote_amount) / (
        self.base_amount as u128);
        proof {
            vstd::arithmetic::div_mod::lemma_div_pos_is_pos(
                max_base_amount as int * self.quote_amount as int,
                self.base_amount as int,
            );
        }
        let (temp_base_amount, temp_quote_amount): (u64, u64) = if implied_quote
            > max_quote_amount as u128 {
            assert(self.quote_amount > 0) by {
                if self.quote_amount == 0 {
                    assert(max_base_amount as int * self.quote_amount as int == 0);
                    vstd::arithmetic::div_mod::lemma_div_of0(self.base_amount as int);
                }
            }
            let implied_base: u128 = widening_mul_u64(max_quote_amount, self.base_amount) / (
            self.quote_amount as u128);
            if implied_base > max_base_amount as u128 {
                return Err(ErrorCode::AddLiquidityCalculationError);
            }
            (implied_base as u64, max_quote_amount)
        } else {
            (max_base_amount, implied_quote as u64)
        };
        let additional128: u128 = widening_mul_u64(temp_base_amount, self.total_ownership) / (
        self.base_amount as u128);
        if additional128 > u64::MAX as u128 {
            return Err(ErrorCode::ArithmeticError);
        }
        let additional = additional128 as u64;
        proof {
            vstd::arithmetic::div_mod::lemma_div_pos_is_pos(
                temp_base_amount as int * self.total_ownership as int,
                self.base_amount as int,
            );
        }
        let new_position_ownership = match position.ownership.checked_add(additional) {
            Some(v) => v,
            None => return Err(ErrorCode::ArithmeticError),
        };
        let new_total_ownership = match self.total_ownership.checked_add(additional) {
            Some(v) => v,
            None => return Err(ErrorCode::ArithmeticError),
        };
        let new_base_amount = match self.base_amount.checked_add(temp_base_amount) {
            Some(v) => v,
            None => return Err(ErrorCode::ArithmeticError),
        };
        let new_quote_amount = match self.quote_amount.checked_add(temp_quote_amount) {
            Some(v) => v,
            None => return Err(ErrorCode::ArithmeticError),
        };
        self.base_amount = new_base_amount;
        self.quote_amount = new_quote_amount;
        self.total_ownership = new_total_ownership;
        self.num_current_lps = new_num_lps;
        position.ownership = new_position_ownership;
        Ok((temp_base_amount, temp_quote_amount))
    }
}

/// The ownership share a withdrawal of `remove_bps` burns.
pub open spec fn ownership_burned(position_ownership: u64, remove_bps: u64) -> int {
    position_ownership * remove_bps / (BPS_SCALE as int)
}

impl Amm {
    /// The base amount a withdrawal pays out: the position's share of the
    /// base reserve, scaled by `remove_bps`.
    pub open spec fn remove_liquidity_base_out(
        self,
        position_ownership: u64,
        remove_bps: u64,
    ) -> int {
        self.base_amount * position_ownership * remove_bps / (BPS_SCALE as int)
            / (self.total_ownership as int)
    }

    /// The quote amount a withdrawal pays out.
    pub open spec fn remove_liquidity_quote_out(
        self,
        position_ownership: u64,
        remove_bps: u64,
    ) -> int {
        self.quote_amount * position_ownership * remove_bps / (BPS_SCALE as int)
            / (self.total_ownership as int)
    }

    /// Why a withdrawal is rejected, if it is.
    pub open spec fn remove_liquidity_error(
        self,
        caller: Pubkey,
        position_ownership: u64,
        remove_bps: u64,
    ) -> Option<ErrorCode> {
        if !self.accepts_caller(caller) {
            Some(ErrorCode::UnauthorizedCaller)
        } else if remove_bps == 0 || remove_bps > BPS_SCALE {
            Some(ErrorCode::RemoveLiquidityBpsOutOfRange)
        } else if position_ownership == 0 {
            Some(ErrorCode::RemoveLiquidityZeroOwnership)
        } else if self.base_amount * position_ownership * remove_bps > u128::MAX
            || self.quote_amount * position_ownership * remove_bps > u128::MAX {
            Some(ErrorCode::ArithmeticError)
        } else {
            None
        }
    }

    /// The pool after a withdrawal, assuming no failure.
    pub open spec fn remove_liquidity_next(self, position_ownership: u64, remove_bps: u64) -> Amm {
        Amm {
            base_amount: (self.base_amount - self.remove_liquidity_base_out(
                position_ownership,
                remove_bps,
            )) as u64,
            quote_amount: (self.quote_amount - self.remove_liquidity_quote_out(
                position_ownership,
                remove_bps,
            )) as u64,
            total_ownership: (self.total_ownership - ownership_burned(
                position_ownership,
                remove_bps,
            )) as u64,
            num_current_lps: if remove_bps == BPS_SCALE {
                (self.num_current_lps - 1) as u64
            } else {
                self.num_current_lps
            },
            ..self
        }
    }

    /// Withdraws `remove_bps / 10000` of the position's ownership,
    /// returning the proportional `(base, quote)` share of both reserves
    /// and burning the withdrawn ownership.
    ///
    /// Rejects `remove_bps` outside `(0, 10000]` and removal by a position
    /// with zero ownership. The pool's total ownership and the position's
    /// share shrink by the same amount.
    pub fn remove_liquidity(
        &mut self,
        position: &mut AmmPosition,
        caller: Pubkey,
        remove_bps: u64,
    ) -> (r: Result<(u64, u64), ErrorCode>)
        requires
            old(self).well_formed(),
            old(position).ownership <= old(self).total_ownership,
            old(position).ownership > 0 ==> old(self).num_current_lps > 0,
        ensures
            final(self).well_formed(),
            old(self).ltwap_consistent() ==> final(self).ltwap_consistent(),
            final(position).user == old(position).user && final(position).amm == old(
                position).amm,
            match r {
                Ok(out) => {
                    &&& old(self).remove_liquidity_error(
                        caller,
                        old(position).ownership,
                        remove_bps,
                    ) is None
                    &&& out.0 == old(self).remove_liquidity_base_out(
                        old(position).ownership,
                        remove_bps,
                    )
                    &&& out.1 == old(self).remove_liquidity_quote_out(
                        old(position).ownership,
                        remove_bps,
                    )
                    &&& out.0 <= old(self).base_amount
                    &&& out.1 <= old(self).quote_amount
                    &&& *final(self) == old(self).remove_liquidity_next(
                        old(position).ownership,
                        remove_bps,
                    )
                    &&& final(position).ownership == old(position).ownership - ownership_burned(
                        old(position).ownership,
                        remove_bps,
                    )
                    &&& old(self).total_ownership - final(self).total_ownership == old(
                        position).ownership - final(position).ownership
                    &&& remove_bps == BPS_SCALE ==> final(position).ownership == 0
                },
                Err(e) => {
                    &&& Some(e) == old(self).remove_liquidity_error(
                        caller,
                        old(position).ownership,
                        remove_bps,
                    )
                    &&& *final(self) == *old(self)
                    &&& *final(position) == *old(position)
                },
            },
    {
        if self.permissioned && caller != self.permissioned_caller {
            return Err(ErrorCode::UnauthorizedCaller);
        }
        if remove_bps == 0 || remove_bps > BPS_SCALE {
            return Err(ErrorCode::RemoveLiquidityBpsOutOfRange);
        }
        if position.ownership == 0 {
            return Err(ErrorCode::RemoveLiquidityZeroOwnership);
        }
        let base_times_ownership = widening_mul_u64(self.base_amount, position.ownership);
        let base_scaled = match base_times_ownership.checked_mul(remove_bps as u128) {
            Some(v) => v,
            None => return Err(ErrorCode::ArithmeticError),
        };
        let quote_times_ownership = widening_mul_u64(self.quote_amount, position.ownership);
        let quote_scaled = match quote_times_ownership.checked_mul(remove_bps as u128) {
            Some(v) => v,
            None => return Err(ErrorCode::ArithmeticError),
        };
        let base_to_withdraw128 = base_scaled / (BPS_SCALE as u128) / (self.total_ownership
            as u128);
        let quote_to_withdraw128 = quote_scaled / (BPS_SCALE as u128) / (self.total_ownership
            as u128);
        proof {
            lemma_proportional_share_bounded(
                self.base_amount as int,
                position.ownership as int,
                remove_bps as int,
                self.total_ownership as int,
            );
            lemma_proportional_share_bounded(
                self.quote_amount as int,
                position.ownership as int,
                remove_bps as int,
                self.total_ownership as int,
            );
            lemma_burned_share_bounded(position.ownership as int, remove_bps as int);
        }
        let base_to_withdraw = base_to_withdraw128 as u64;
        let quote_to_withdraw = quote_to_withdraw128 as u64;
        let less_ownership = (widening_mul_u64(position.ownership, remove_bps) / (BPS_SCALE
            as u128)) as u64;
        let new_num_lps = if remove_bps == BPS_SCALE {
            proof {
                vstd::arithmetic::div_mod::lemma_div_by_multiple(
                    position.ownership as int,
                    BPS_SCALE as int,
                );
            }
            self.num_current_lps - 1
        } else {
            self.num_current_lps
        };
        position.ownership = position.ownership - less_ownership;
        self.total_ownership = self.total_ownership - less_ownership;
        self.base_amount = self.base_amount - base_to_withdraw;
        self.quote_amount = self.quote_amount - quote_to_withdraw;
        self.num_current_lps = new_num_lps;
        Ok((base_to_withdraw, quote_to_withdraw))
    }
}

/// A share of `remove_bps / 10000` of a position that owns at most the
/// whole pool never pays out more than the reserve it draws from.
proof fn lemma_proportional_share_bounded(reserve: int, own: int, bps: int, total: int)
    requires
        0 <= reserve,
        0 <= own <= total,
        0 < total,
        0 <= bps <= BPS_SCALE,
    ensures
        0 <= reserve * own * bps / (BPS_SCALE as int) / total <= reserve,
{
    let bps_scale = BPS_SCALE as int;
    assert(own * bps <= total * bps_scale) by {
        vstd::arithmetic::mul::lemma_mul_inequality(own, total, bps);
        vstd::arithmetic::mul::lemma_mul_is_commutative(own, bps);
        vstd::arithmetic::mul::lemma_mul_is_commutative(total, bps);
        vstd::arithmetic::mul::lemma_mul_left_inequality(total, bps, bps_scale);
    }
    assert(reserve * own * bps == reserve * (own * bps)) by {
        vstd::arithmetic::mul::lemma_mul_is_associative(reserve, own, bps);
    }
    assert(reserve * (own * bps) <= reserve * (total * bps_scale)) by {
        if reserve > 0 {
            vstd::arithmetic::mul::lemma_mul_left_inequality(
                reserve,
                own * bps,
                total * bps_scale,
            );
        } else {
            vstd::arithmetic::mul::lemma_mul_basics(own * bps);
            vstd::arithmetic::mul::lemma_mul_basics(total * bps_scale);
        }
    }
    assert(reserve * (total * bps_scale) == (reserve * total) * bps_scale) by {
        vstd::arithmetic::mul::lemma_mul_is_associative(reserve, total, bps_scale);
    }
    assert(0 <= reserve * own * bps) by {
        vstd::arithmetic::mul::lemma_mul_nonnegative(own, bps);
        vstd::arithmetic::mul::lemma_mul_nonnegative(reserve, own * bps);
    }
    let q1 = reserve * own * bps / bps_scale;
    assert(0 <= q1 <= reserve * total) by {
        vstd::arithmetic::div_mod::lemma_div_pos_is_pos(reserve * own * bps, bps_scale);
        vstd::arithmetic::div_mod::lemma_div_is_ordered(
            reserve * own * bps,
            (reserve * total) * bps_scale,
            bps_scale,
        );
        vstd::arithmetic::mul::lemma_mul_nonnegative(reserve, total);
        vstd::arithmetic::div_mod::lemma_div_by_multiple(reserve * total, bps_scale);
    }
    assert(q1 / total <= reserve) by {
        vstd::arithmetic::mul::lemma_mul_is_commutative(reserve, total);
        vstd::arithmetic::div_mod::lemma_multiply_divide_le(q1, total, reserve);
    }
    vstd::arithmetic::div_mod::lemma_div_pos_is_pos(q1, total);
}

/// Burning `remove_bps / 10000` of a position never burns more than the
/// position owns.
proof fn lemma_burned_share_bounded(own: int, bps: int)
    requires
        0 <= own,
        0 <= bps <= BPS_SCALE,
    ensures
        0 <= own * bps / (BPS_SCALE as int) <= own,
{
    let bps_scale = BPS_SCALE as int;
    assert(own * bps <= bps_scale * own) by {
        vstd::arithmetic::mul::lemma_mul_inequality(bps, bps_scale, own);
        vstd::arithmetic::mul::lemma_mul_is_commutative(own, bps);
        vstd::arithmetic::mul::lemma_mul_is_commutative(bps_scale, own);
    }
    vstd::arithmetic::mul::lemma_mul_nonnegative(own, bps);
    vstd::arithmetic::div_mod::lemma_multiply_divide_le(own * bps, bps_scale, own);
    vstd::arithmetic::div_mod::lemma_div_pos_is_pos(own * bps, bps_scale);
}

/// The total weight of a window of oracle observations, each a
/// `(weight, price)` pair.
pub open spec fn weight_sum(observations: Seq<(int, int)>) -> int
    decreases observations.len(),
{
    if observations.len() == 0 {
        0
    } else {
        weight_sum(observations.drop_last()) + observations.last().0
    }
}

/// The weight-times-price total of a window of oracle observations.
pub open spec fn weighted_price_sum(observations: Seq<(int, int)>) -> int
    decreases observations.len(),
{
    if observations.len() == 0 {
        0
    } else {
        weighted_price_sum(observations.drop_last()) + observations.last().0
            * observations.last().1
    }
}

/// Appending one observation extends both window totals by that
/// observation's weight and weighted price.
pub proof fn lemma_window_sums_push(observations: Seq<(int, int)>, w: int, p: int)
    ensures
        weight_sum(observations.push((w, p))) == weight_sum(observations) + w,
        weighted_price_sum(observations.push((w, p))) == weighted_price_sum(observations) + w * p,
{
    assert(observations.push((w, p)).drop_last() =~= observations);
}

/// One oracle update is one observation: when the accumulators hold the
/// totals of a window of observations, an update at `now` that does not
/// overflow leaves them holding the totals of that window extended by the
/// pool's current weight and instantaneous price.
pub proof fn lemma_ltwap_next_extends_window(amm: Amm, now: u64, observations: Seq<(int, int)>)
    requires
        now >= amm.ltwap_slot_updated,
        !amm.ltwap_overflow(now),
        amm.ltwap_denominator_agg == weight_sum(observations),
        amm.ltwap_numerator_agg == weighted_price_sum(observations),
    ensures
        amm.ltwap_next(now).ltwap_denominator_agg == weight_sum(
            observations.push((amm.ltwap_weight(now), amm.instant_price())),
        ),
        amm.ltwap_next(now).ltwap_numerator_agg == weighted_price_sum(
            observations.push((amm.ltwap_weight(now), amm.instant_price())),
        ),
{
    lemma_window_sums_push(observations, amm.ltwap_weight(now), amm.instant_price());
    crate::math::lemma_pow10_positive(amm.base_mint_decimals as nat);
    crate::math::lemma_pow10_positive(amm.quote_mint_decimals as nat);
    crate::math::lemma_pow10_positive(amm.ltwap_decimals as nat);
    vstd::arithmetic::div_mod::lemma_div_pos_is_pos(
        amm.quote_amount * 1_000_000,
        pow10(amm.quote_mint_decimals as nat) as int,
    );
    vstd::arithmetic::mul::lemma_mul_nonnegative(
        amm.quote_liquidity_units_spec(),
        now - amm.ltwap_slot_updated,
    );
    if amm.base_liquidity_units_spec() != 0 {
        vstd::arithmetic::mul::lemma_mul_nonnegative(
            amm.quote_liquidity_units_spec(),
            pow10(amm.ltwap_decimals as nat) as int,
        );
        vstd::arithmetic::div_mod::lemma_div_pos_is_pos(
            amm.quote_liquidity_units_spec() * pow10(amm.ltwap_decimals as nat),
            amm.base_liquidity_units_spec(),
        );
    }
    vstd::arithmetic::mul::lemma_mul_nonnegative(amm.ltwap_weight(now), amm.instant_price());
}

/// Every weighted price total is squeezed between the total weight times the
/// smallest and the largest observed price.
proof fn lemma_weighted_price_sum_bounds(observations: Seq<(int, int)>, lo: int, hi: int)
    requires
        forall|i: int|
            0 <= i < observations.len() ==> 0 < (#[trigger] observations[i]).0 && lo
                <= observations[i].1 <= hi,
        0 <= lo,
    ensures
        observations.len() > 0 ==> weight_sum(observations) > 0,
        lo * weight_sum(observations) <= weighted_price_sum(observations) <= hi * weight_sum(
            observations,
        ),
    decreases observations.len(),
{
    if observations.len() == 0 {
        vstd::arithmetic::mul::lemma_mul_basics(lo);
        vstd::arithmetic::mul::lemma_mul_basics(hi);
    } else {
        let prefix = observations.drop_last();
        let w = observations.last().0;
        let p = observations.last().1;
        assert(forall|i: int|
            0 <= i < prefix.len() ==> 0 < (#[trigger] prefix[i]).0 && lo <= prefix[i].1 <= hi);
        lemma_weighted_price_sum_bounds(prefix, lo, hi);
        assert(lo * (weight_sum(prefix) + w) == lo * weight_sum(prefix) + lo * w) by {
            vstd::arithmetic::mul::lemma_mul_is_distributive_add(lo, weight_sum(prefix), w);
        }
        assert(hi * (weight_sum(prefix) + w) == hi * weight_sum(prefix) + hi * w) by {
            vstd::arithmetic::mul::lemma_mul_is_distributive_add(hi, weight_sum(prefix), w);
        }
        assert(lo * w <= p * w && p * w <= hi * w) by {
            vstd::arithmetic::mul::lemma_mul_inequality(lo, p, w);
            vstd::arithmetic::mul::lemma_mul_inequality(p, hi, w);
        }
        assert(w * p == p * w) by {
            vstd::arithmetic::mul::lemma_mul_is_commutative(w, p);
        }
    }
}

/// Boundedness of the average over a whole accumulation window: for any
/// window of positively weighted observations, the aggregate average —
/// the oracle's numerator over its denominator, which the accumulators of
/// this pool hold as running sums of `weight` and `weight * price` — lies
/// between the smallest and the largest instantaneous price observed. No
/// sequence of updates can push the published average outside the observed
/// price range.
pub proof fn lemma_ltwap_bounded_by_observed_prices(
    observations: Seq<(int, int)>,
    lo: int,
    hi: int,
)
    requires
        observations.len() > 0,
        forall|i: int|
            0 <= i < observations.len() ==> 0 < (#[trigger] observations[i]).0 && lo
                <= observations[i].1 <= hi,
        0 <= lo,
    ensures
        weight_sum(observations) > 0,
        lo <= weighted_price_sum(observations) / weight_sum(observations) <= hi,
{
    lemma_weighted_price_sum_bounds(observations, lo, hi);
    let s = weighted_price_sum(observations);
    let w = weight_sum(observations);
    assert(lo <= s / w) by {
        vstd::arithmetic::div_mod::lemma_div_is_ordered(lo * w, s, w);
        vstd::arithmetic::div_mod::lemma_div_multiples_vanish(lo, w);
        vstd::arithmetic::mul::lemma_mul_is_commutative(lo, w);
    }
    assert(s / w <= hi) by {
        vstd::arithmetic::mul::lemma_mul_is_commutative(hi, w);
        vstd::arithmetic::mul::lemma_mul_nonnegative(lo, w);
        vstd::arithmetic::div_mod::lemma_multiply_divide_le(s, w, hi);
    }
}

/// Boundedness of the published average: a pool whose accumulators hold the
/// totals of a window of positively weighted observations — which, by
/// `lemma_ltwap_next_extends_window`, is what any run of oracle updates
/// leaves there — publishes a `ltwap_latest` that lies between the smallest
/// and the largest price observed during that window, each clamped the same
/// way the average is.
pub proof fn lemma_ltwap_latest_bounded(amm: Amm, observations: Seq<(int, int)>, lo: int, hi: int)
    requires
        amm.ltwap_consistent(),
        amm.ltwap_denominator_agg == weight_sum(observations),
        amm.ltwap_numerator_agg == weighted_price_sum(observations),
        observations.len() > 0,
        forall|i: int|
            0 <= i < observations.len() ==> 0 < (#[trigger] observations[i]).0 && lo
                <= observations[i].1 <= hi,
        0 <= lo,
    ensures
        sat_u64(lo) <= amm.ltwap_latest <= sat_u64(hi),
{
    lemma_ltwap_bounded_by_observed_prices(observations, lo, hi);
}

/// Invariant monotonicity: a swap the pool accepts always leaves the
/// constant product `base_amount * quote_amount` at least as large as it was
/// before the swap.
pub proof fn lemma_swap_invariant_monotonic(
    amm: Amm,
    caller: Pubkey,
    input: u64,
    is_quote_to_base: bool,
    output_amount_min: u64,
)
    requires
        amm.swap_error(caller, input, is_quote_to_base, output_amount_min) is None,
    ensures
        amm.swap_next(input, is_quote_to_base).k() >= amm.k(),
{
}

/// The sum of a sequence of ownership shares.
pub open spec fn sum_ownership(shares: Seq<u64>) -> int
    decreases shares.len(),
{
    if shares.len() == 0 {
        0
    } else {
        sum_ownership(shares.drop_last()) + shares.last()
    }
}

/// Appending a share grows the sum by that share.
pub proof fn lemma_sum_ownership_push(shares: Seq<u64>, v: u64)
    ensures
        sum_ownership(shares.push(v)) == sum_ownership(shares) + v,
{
    assert(shares.push(v).drop_last() =~= shares);
}

/// Replacing one share moves the sum by the difference.
pub proof fn lemma_sum_ownership_update(shares: Seq<u64>, i: int, v: u64)
    requires
        0 <= i < shares.len(),
    ensures
        sum_ownership(shares.update(i, v)) == sum_ownership(shares) - shares[i] + v,
    decreases shares.len(),
{
    if i == shares.len() - 1 {
        assert(shares.update(i, v).drop_last() =~= shares.drop_last());
    } else {
        assert(shares.update(i, v).drop_last() =~= shares.drop_last().update(i, v));
        lemma_sum_ownership_update(shares.drop_last(), i, v);
    }
}

/// Every share is at most the sum of all shares.
pub proof fn lemma_sum_ownership_bounds(shares: Seq<u64>, i: int)
    requires
        0 <= i < shares.len(),
    ensures
        0 <= shares[i] <= sum_ownership(shares),
    decreases shares.len(),
{
    if i < shares.len() - 1 {
        lemma_sum_ownership_bounds(shares.drop_last(), i);
    } else {
        lemma_sum_ownership_nonnegative(shares.drop_last());
    }
}

/// A sum of shares is never negative.
pub proof fn lemma_sum_ownership_nonnegative(shares: Seq<u64>)
    ensures
        sum_ownership(shares) >= 0,
    decreases shares.len(),
{
    if shares.len() > 0 {
        lemma_sum_ownership_nonnegative(shares.drop_last());
    }
}

/// Conservation of ownership: whenever the sum of all positions' shares
/// equals the pool's total ownership, an operation that moves one position's
/// share and the total by the same amount — as `add_liquidity` on a
/// non-empty pool and `remove_liquidity` both do — keeps the sum equal to
/// the new total.
pub proof fn lemma_ownership_conservation(
    shares: Seq<u64>,
    i: int,
    new_share: u64,
    total: u64,
    new_total: u64,
)
    requires
        0 <= i < shares.len(),
        sum_ownership(shares) == total,
        new_total - total == new_share - shares[i],
    ensures
        sum_ownership(shares.update(i, new_share)) == new_total,
{
    lemma_sum_ownership_update(shares, i, new_share);
}

/// Conservation of ownership at the seeding deposit: when nothing is owned
/// yet (the sum of shares is zero, as on a freshly created pool), granting
/// one position a share and setting the total to that same share — as
/// `add_liquidity` on an empty pool does — makes the sum equal to the
/// total again.
pub proof fn lemma_ownership_conservation_seed(shares: Seq<u64>, i: int, granted: u64)
    requires
        0 <= i < shares.len(),
        sum_ownership(shares) == 0,
    ensures
        sum_ownership(shares.update(i, granted)) == granted,
{
    lemma_sum_ownership_bounds(shares, i);
    lemma_sum_ownership_update(shares, i, granted);
}

/// Multiplies two 64-bit values in 128 bits, which cannot overflow.
fn widening_mul_u64(a: u64, b: u64) -> (r: u128)
    ensures
        r == a * b,
{
    proof {
        vstd::arithmetic::mul::lemma_mul_upper_bound(
            a as int,
            u64::MAX as int,
            b as int,
            u64::MAX as int,
        );
    }
    (a as u128) * (b as u128)
}

/// A weighted average moves toward the newly observed value but never
/// beyond it: with a positive running weight `denom`, adding weight `w` at
/// value `p` keeps the floored average between the old floored average
/// and `p`.
pub proof fn lemma_weighted_average_step(num: int, denom: int, w: int, p: int)
    ensures
        0 <= num && 0 < denom && 0 <= w && 0 <= p ==> vstd::math::min(num / denom, p) <= (num + w
            * p) / (denom + w) <= vstd::math::max(num / denom, p),
{
    if 0 <= num && 0 < denom && 0 <= w && 0 <= p {
        let l = num / denom;
        let lo = vstd::math::min(l, p);
        let hi = vstd::math::max(l, p);
        vstd::arithmetic::div_mod::lemma_fundamental_div_mod(num, denom);
        vstd::arithmetic::div_mod::lemma_mod_division_less_than_divisor(num, denom);
        vstd::arithmetic::div_mod::lemma_div_pos_is_pos(num, denom);
        assert(denom * l <= num < denom * (l + 1)) by {
            vstd::arithmetic::mul::lemma_mul_is_distributive_add(denom, l, 1);
        }
        assert(denom * lo + w * lo <= num + w * p) by {
            vstd::arithmetic::mul::lemma_mul_inequality(lo, l, denom);
            vstd::arithmetic::mul::lemma_mul_inequality(lo, p, w);
            vstd::arithmetic::mul::lemma_mul_is_commutative(denom, lo);
            vstd::arithmetic::mul::lemma_mul_is_commutative(denom, l);
            vstd::arithmetic::mul::lemma_mul_is_commutative(w, lo);
            vstd::arithmetic::mul::lemma_mul_is_commutative(w, p);
        }
        assert((denom + w) * lo <= num + w * p) by {
            vstd::arithmetic::mul::lemma_mul_is_distributive_add_other_way(lo, denom, w);
        }
        assert(lo <= (num + w * p) / (denom + w)) by {
            vstd::arithmetic::div_mod::lemma_div_multiples_vanish(lo, denom + w);
            vstd::arithmetic::div_mod::lemma_div_is_ordered(
                (denom + w) * lo,
                num + w * p,
                denom + w,
            );
            vstd::arithmetic::mul::lemma_mul_is_commutative(denom + w, lo);
        }
        assert(num + w * p < denom * (hi + 1) + w * (hi + 1)) by {
            vstd::arithmetic::mul::lemma_mul_inequality(l + 1, hi + 1, denom);
            vstd::arithmetic::mul::lemma_mul_inequality(p, hi, w);
            vstd::arithmetic::mul::lemma_mul_inequality(hi, hi + 1, w);
            vstd::arithmetic::mul::lemma_mul_is_commutative(denom, l + 1);
            vstd::arithmetic::mul::lemma_mul_is_commutative(denom, hi + 1);
            vstd::arithmetic::mul::lemma_mul_is_commutative(w, p);
            vstd::arithmetic::mul::lemma_mul_is_commutative(w, hi);
            vstd::arithmetic::mul::lemma_mul_is_commutative(w, hi + 1);
        }
        assert((num + w * p) / (denom + w) <= hi) by {
            vstd::arithmetic::mul::lemma_mul_is_distributive_add_other_way(hi + 1, denom, w);
            vstd::arithmetic::div_mod::lemma_multiply_divide_lt(
                num + w * p,
                denom + w,
                hi + 1,
            );
            vstd::arithmetic::mul::lemma_mul_is_commutative(denom + w, hi + 1);
        }
    }
}

/// Creates a pool with empty reserves.
///
/// Rejects a fee outside `[AMM_SWAP_FEE_BPS_MIN, AMM_SWAP_FEE_BPS_MAX)`, a
/// pair of identical mints, and unsupported decimal counts.
pub fn create_amm(
    params: CreateAmmParams,
    base_mint: Pubkey,
    quote_mint: Pubkey,
    base_mint_decimals: u8,
    quote_mint_decimals: u8,
    created_at_slot: u64,
) -> (r: Result<Amm, ErrorCode>)
    ensures
        match r {
            Ok(amm) => {
                &&& AMM_SWAP_FEE_BPS_MIN <= params.swap_fee_bps < AMM_SWAP_FEE_BPS_MAX
                &&& base_mint != quote_mint
                &&& base_mint_decimals <= MAX_DECIMALS
                &&& quote_mint_decimals <= MAX_DECIMALS
                &&& params.ltwap_decimals <= MAX_DECIMALS
                &&& amm == (Amm {
                    permissioned: params.permissioned_caller != 0,
                    permissioned_caller: params.permissioned_caller,
                    created_at_slot,
                    base_mint,
                    quote_mint,
                    base_mint_decimals,
                    quote_mint_decimals,
                    base_amount: 0u64,
                    quote_amount: 0u64,
                    total_ownership: 0u64,
                    num_current_lps: 0u64,
                    swap_fee_bps: params.swap_fee_bps,
                    ltwap_decimals: params.ltwap_decimals,
                    ltwap_slot_updated: created_at_slot,
                    ltwap_denominator_agg: 0u128,
                    ltwap_numerator_agg: 0u128,
                    ltwap_latest: 0u64,
                })
                &&& amm.well_formed()
                &&& amm.ltwap_consistent()
            },
            Err(ErrorCode::SwapFeeOutOfBounds) => !(AMM_SWAP_FEE_BPS_MIN <= params.swap_fee_bps
                < AMM_SWAP_FEE_BPS_MAX),
            Err(ErrorCode::InvalidMintPair) => AMM_SWAP_FEE_BPS_MIN <= params.swap_fee_bps
                < AMM_SWAP_FEE_BPS_MAX && base_mint == quote_mint,
            Err(ErrorCode::DecimalScaleError) => AMM_SWAP_FEE_BPS_MIN <= params.swap_fee_bps
                < AMM_SWAP_FEE_BPS_MAX && base_mint != quote_mint && (base_mint_decimals
                > MAX_DECIMALS || quote_mint_decimals > MAX_DECIMALS || params.ltwap_decimals
                > MAX_DECIMALS),
            Err(_) => false,
        },
{
    if !(params.swap_fee_bps >= AMM_SWAP_FEE_BPS_MIN && params.swap_fee_bps
        < AMM_SWAP_FEE_BPS_MAX) {
        return Err(ErrorCode::SwapFeeOutOfBounds);
    }
    if base_mint == quote_mint {
        return Err(ErrorCode::InvalidMintPair);
    }
    if base_mint_decimals > MAX_DECIMALS || quote_mint_decimals > MAX_DECIMALS
        || params.ltwap_decimals > MAX_DECIMALS {
        return Err(ErrorCode::DecimalScaleError);
    }
    Ok(
        Amm {
            permissioned: params.permissioned_caller != 0,
            permissioned_caller: params.permissioned_caller,
            created_at_slot,
            base_mint,
            quote_mint,
            base_mint_decimals,
            quote_mint_decimals,
            base_amount: 0,
            quote_amount: 0,
            total_ownership: 0,
            num_current_lps: 0,
            swap_fee_bps: params.swap_fee_bps,
            ltwap_decimals: params.ltwap_decimals,
            ltwap_slot_updated: created_at_slot,
            ltwap_denominator_agg: 0,
            ltwap_numerator_agg: 0,
            ltwap_latest: 0,
        },
    )
}

/// Creates a zero-ownership position record for `user` on the pool at
/// `amm_key`; a permissioned pool rejects foreign callers.
pub fn create_position(amm: &Amm, caller: Pubkey, user: Pubkey, amm_key: Pubkey) -> (r: Result<
    AmmPosition,
    ErrorCode,
>)
    ensures
        match r {
            Ok(position) => amm.accepts_caller(caller) && position == (AmmPosition {
                user,
                amm: amm_key,
                ownership: 0u64,
            }),
            Err(e) => e == ErrorCode::UnauthorizedCaller && !amm.accepts_caller(caller),
        },
{
    if amm.permissioned && caller != amm.permissioned_caller {
        return Err(ErrorCode::UnauthorizedCaller);
    }
    Ok(AmmPosition { user, amm: amm_key, ownership: 0 })
}

} // verus!
