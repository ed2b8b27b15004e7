//! The governance body's configuration record.
//!
//! The DAO owns the monotonic proposal counter, the pass threshold, the
//! window lengths, the anti-spam fee and the parameters newly created
//! markets inherit.

use vstd::prelude::*;

use crate::math::{
    AMM_INITIAL_QUOTE_LIQUIDITY_ATOMS, AMM_SWAP_FEE_BPS, DEFAULT_PASS_THRESHOLD_BPS,
    FINALIZE_WINDOW_SLOTS, PROPOSAL_DURATION_SLOTS,
};
use crate::Pubkey;

verus! {

/// Configuration of one governance body.
pub struct Dao {
    /// The DAO's identity.
    pub id: Pubkey,
    /// The treasury account that embedded instructions may draw on once a
    /// proposal passes.
    pub treasury_pda: Pubkey,
    /// Mint of the governance (base) token.
    pub meta_mint: Pubkey,
    /// Mint of the quote token.
    pub usdc_mint: Pubkey,
    /// Number the next proposal receives; strictly increasing, no gaps.
    pub proposal_count: u64,
    /// Proposals currently pending; drives the anti-spam fee.
    pub proposals_active: u32,
    /// Margin, in basis points, by which the pass market's average price
    /// must exceed the fail market's for a proposal to pass.
    pub pass_threshold_bps: u64,
    /// Length of each proposal's trading window, in slots.
    pub proposal_duration_slots: u64,
    /// Grace window after the trading window in which a proposal may still
    /// be finalized, in slots.
    pub finalize_window_slots: u64,
    /// Base anti-spam fee charged at submission, doubled per concurrently
    /// active proposal.
    pub proposal_fee_usdc: u64,
    /// Least quote liquidity a proposer must seed each market with.
    pub amm_initial_quote_liquidity_amount: u64,
    /// Swap fee newly created markets charge, in basis points.
    pub amm_swap_fee_bps: u64,
    /// Fractional digits of the markets' published average price.
    pub amm_ltwap_decimals: u8,
}

/// Settings `update_dao` may change; a `None` leaves the field as it is.
pub struct UpdateDaoParams {
    /// New pass threshold, in basis points.
    pub pass_threshold_bps: Option<u64>,
    /// New trading-window length, in slots.
    pub proposal_duration_slots: Option<u64>,
    /// New finalize grace window, in slots.
    pub finalize_window_slots: Option<u64>,
    /// New base anti-spam fee.
    pub proposal_fee_usdc: Option<u64>,
    /// New least quote liquidity per market.
    pub amm_initial_quote_liquidity_amount: Option<u64>,
    /// New swap fee for newly created markets, in basis points.
    pub amm_swap_fee_bps: Option<u64>,
    /// New fractional digits for the markets' average price.
    pub amm_ltwap_decimals: Option<u8>,
}

/// Creates a governance body with the default protocol parameters.
pub fn initialize_dao(id: Pubkey, treasury_pda: Pubkey, meta_mint: Pubkey, usdc_mint: Pubkey) -> (d:
    Dao)
    ensures
        d == (Dao {
            id,
            treasury_pda,
            meta_mint,
            usdc_mint,
            proposal_count: 10u64,
            proposals_active: 0u32,
            pass_threshold_bps: DEFAULT_PASS_THRESHOLD_BPS,
            proposal_duration_slots: PROPOSAL_DURATION_SLOTS,
            finalize_window_slots: FINALIZE_WINDOW_SLOTS,
            proposal_fee_usdc: 0u64,
            amm_initial_quote_liquidity_amount: AMM_INITIAL_QUOTE_LIQUIDITY_ATOMS,
            amm_swap_fee_bps: AMM_SWAP_FEE_BPS,
            amm_ltwap_decimals: 9u8,
        }),
{
    Dao {
        id,
        treasury_pda,
        meta_mint,
        usdc_mint,
        proposal_count: 10,
        proposals_active: 0,
        pass_threshold_bps: DEFAULT_PASS_THRESHOLD_BPS,
        proposal_duration_slots: PROPOSAL_DURATION_SLOTS,
        finalize_window_slots: FINALIZE_WINDOW_SLOTS,
        proposal_fee_usdc: 0,
        amm_initial_quote_liquidity_amount: AMM_INITIAL_QUOTE_LIQUIDITY_ATOMS,
        amm_swap_fee_bps: AMM_SWAP_FEE_BPS,
        amm_ltwap_decimals: 9,
    }
}

/// Overwrites each setting for which a new value is supplied and leaves the
/// rest untouched; identities and counters cannot be changed.
pub fn update_dao(dao: &mut Dao, dao_params: UpdateDaoParams)
    ensures
        final(dao).id == old(dao).id,
        final(dao).treasury_pda == old(dao).treasury_pda,
        final(dao).meta_mint == old(dao).meta_mint,
        final(dao).usdc_mint == old(dao).usdc_mint,
        final(dao).proposal_count == old(dao).proposal_count,
        final(dao).proposals_active == old(dao).proposals_active,
        final(dao).pass_threshold_bps == match dao_params.pass_threshold_bps {
            Some(v) => v,
            None => old(dao).pass_threshold_bps,
        },
        final(dao).proposal_duration_slots == match dao_params.proposal_duration_slots {
            Some(v) => v,
            None => old(dao).proposal_duration_slots,
        },
        final(dao).finalize_window_slots == match dao_params.finalize_window_slots {
            Some(v) => v,
            None => old(dao).finalize_window_slots,
        },
        final(dao).proposal_fee_usdc == match dao_params.proposal_fee_usdc {
            Some(v) => v,
            None => old(dao).proposal_fee_usdc,
        },
        final(dao).amm_initial_quote_liquidity_amount == match dao_params
            .amm_initial_quote_liquidity_amount {
            Some(v) => v,
            None => old(dao).amm_initial_quote_liquidity_amount,
        },
        final(dao).amm_swap_fee_bps == match dao_params.amm_swap_fee_bps {
            Some(v) => v,
            None => old(dao).amm_swap_fee_bps,
        },
        final(dao).amm_ltwap_decimals == match dao_params.amm_ltwap_decimals {
            Some(v) => v,
            None => old(dao).amm_ltwap_decimals,
        },
{
    if let Some(pass_threshold_bps) = dao_params.pass_threshold_bps {
        dao.pass_threshold_bps = pass_threshold_bps;
    }
    if let Some(proposal_duration_slots) = dao_params.proposal_duration_slots {
        dao.proposal_duration_slots = proposal_duration_slots;
    }
    if let Some(finalize_window_slots) = dao_params.finalize_window_slots {
        dao.finalize_window_slots = finalize_window_slots;
    }
    if let Some(proposal_fee_usdc) = dao_params.proposal_fee_usdc {
        dao.proposal_fee_usdc = proposal_fee_usdc;
    }
    if let Some(amm_initial_quote_liquidity_amount) =
        dao_params.amm_initial_quote_liquidity_amount {
        dao.amm_initial_quote_liquidity_amount = amm_initial_quote_liquidity_amount;
    }
    if let Some(amm_swap_fee_bps) = dao_params.amm_swap_fee_bps {
        dao.amm_swap_fee_bps = amm_swap_fee_bps;
    }
    if let Some(amm_ltwap_decimals) = dao_params.amm_ltwap_decimals {
        dao.amm_ltwap_decimals = amm_ltwap_decimals;
    }
}

} // verus!
