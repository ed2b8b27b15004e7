//! Orchestration of the proposal life cycle: creating a proposal and its two
//! conditional markets, submitting it, trading on its markets during the
//! window, and finalizing it against the two oracles.
//!
//! Each function composes the verified pool engine, escrow and state machine
//! and states the combined effect; the surrounding ledger performs the token
//! movements these functions compute and hands in the current slot.

use vstd::prelude::*;

use crate::amm::{create_amm, create_position, Amm, AmmPosition, CreateAmmParams};
use crate::dao::Dao;
use crate::error::ErrorCode;
use crate::math::{AMM_SWAP_FEE_BPS_MAX, AMM_SWAP_FEE_BPS_MIN, BPS_SCALE, MAX_DECIMALS};
use crate::proposal::{
    state_rank, Proposal, ProposalAccount, ProposalInstruction, ProposalInstructions,
    ProposalState,
};
use crate::vault::{ProposalVault, UserBalances};
use crate::Pubkey;

verus! {

/// The escrow accounting of a proposal that is still being assembled: the
/// vault holds exactly the collateral the proposer committed, and each
/// conditional side's supply is the full committed amount once its market
/// has been created and zero before.
pub open spec fn escrow_staged(proposal: Proposal, vault: ProposalVault) -> bool {
    &&& vault.meta_vault_balance == proposal.proposer_initial_conditional_meta_minted
    &&& vault.usdc_vault_balance == proposal.proposer_initial_conditional_usdc_minted
    &&& vault.conditional_on_pass_meta_supply == if proposal.is_pass_market_created {
        proposal.proposer_initial_conditional_meta_minted as int
    } else {
        0
    }
    &&& vault.conditional_on_pass_usdc_supply == if proposal.is_pass_market_created {
        proposal.proposer_initial_conditional_usdc_minted as int
    } else {
        0
    }
    &&& vault.conditional_on_fail_meta_supply == if proposal.is_fail_market_created {
        proposal.proposer_initial_conditional_meta_minted as int
    } else {
        0
    }
    &&& vault.conditional_on_fail_usdc_supply == if proposal.is_fail_market_created {
        proposal.proposer_initial_conditional_usdc_minted as int
    } else {
        0
    }
}

/// Once both market sides exist, a staged escrow is balanced: the vault
/// backs both conditional supplies one-for-one.
pub proof fn lemma_staged_escrow_balanced(proposal: Proposal, vault: ProposalVault)
    requires
        escrow_staged(proposal, vault),
        proposal.is_pass_market_created,
        proposal.is_fail_market_created,
    ensures
        vault.escrow_balanced(),
{
}

/// Registers a proposal: assigns it the DAO's next number, records the
/// committed collateral amounts, and funds the escrow vault with them from
/// the proposer's balances. The proposal starts in `Initialize` with no
/// markets created.
pub fn create_proposal(
    dao: &mut Dao,
    proposer: &mut UserBalances,
    proposer_key: Pubkey,
    proposal_key: Pubkey,
    proposal_vault_key: Pubkey,
    description_url: String,
    mint_cond_meta: u64,
    mint_cond_usdc: u64,
) -> (r: Result<(Proposal, ProposalVault), ErrorCode>)
    requires
        description_url@.len() <= 100,
        mint_cond_meta > 0,
        mint_cond_usdc >= old(dao).amm_initial_quote_liquidity_amount,
    ensures
        match r {
            Ok(created) => {
                &&& mint_cond_meta <= old(proposer).meta
                &&& mint_cond_usdc <= old(proposer).usdc
                &&& old(dao).proposal_count < u64::MAX
                &&& *final(dao) == (Dao {
                    proposal_count: (old(dao).proposal_count + 1) as u64,
                    ..*old(dao)
                })
                &&& *final(proposer) == (UserBalances {
                    meta: (old(proposer).meta - mint_cond_meta) as u64,
                    usdc: (old(proposer).usdc - mint_cond_usdc) as u64,
                    ..*old(proposer)
                })
                &&& created.0 == (Proposal {
                    number: old(dao).proposal_count,
                    proposer: proposer_key,
                    description_url: description_url,
                    slot_enqueued: 0u64,
                    slots_duration: 0u64,
                    state: ProposalState::Initialize,
                    instructions: 0u64,
                    proposal_vault: proposal_vault_key,
                    is_pass_market_created: false,
                    is_fail_market_created: false,
                    meta_mint: old(dao).meta_mint,
                    usdc_mint: old(dao).usdc_mint,
                    pass_market_amm: 0u64,
                    fail_market_amm: 0u64,
                    conditional_on_pass_meta_mint: 0u64,
                    conditional_on_pass_usdc_mint: 0u64,
                    conditional_on_fail_meta_mint: 0u64,
                    conditional_on_fail_usdc_mint: 0u64,
                    proposer_initial_conditional_meta_minted: mint_cond_meta,
                    proposer_initial_conditional_usdc_minted: mint_cond_usdc,
                })
                &&& created.1 == (ProposalVault {
                    proposal: proposal_key,
                    meta_vault_balance: mint_cond_meta,
                    usdc_vault_balance: mint_cond_usdc,
                    conditional_on_pass_meta_supply: 0u64,
                    conditional_on_pass_usdc_supply: 0u64,
                    conditional_on_fail_meta_supply: 0u64,
                    conditional_on_fail_usdc_supply: 0u64,
                })
                &&& escrow_staged(created.0, created.1)
            },
            Err(e) => {
                &&& *final(dao) == *old(dao)
                &&& *final(proposer) == *old(proposer)
                &&& if mint_cond_meta > old(proposer).meta || mint_cond_usdc > old(
                    proposer).usdc {
                    e == ErrorCode::InsufficientUnderlyingTokens
                } else {
                    e == ErrorCode::ArithmeticError && old(dao).proposal_count == u64::MAX
                }
            },
        },
{
    if mint_cond_meta > proposer.meta || mint_cond_usdc > proposer.usdc {
        return Err(ErrorCode::InsufficientUnderlyingTokens);
    }
    let number = dao.proposal_count;
    let next_count = match dao.proposal_count.checked_add(1) {
        Some(v) => v,
        None => return Err(ErrorCode::ArithmeticError),
    };
    dao.proposal_count = next_count;
    proposer.meta = proposer.meta - mint_cond_meta;
    proposer.usdc = proposer.usdc - mint_cond_usdc;
    let proposal = Proposal {
        number,
        proposer: proposer_key,
        description_url,
        slot_enqueued: 0,
        slots_duration: 0,
        state: ProposalState::Initialize,
        instructions: 0,
        proposal_vault: proposal_vault_key,
        is_pass_market_created: false,
        is_fail_market_created: false,
        meta_mint: dao.meta_mint,
        usdc_mint: dao.usdc_mint,
        pass_market_amm: 0,
        fail_market_amm: 0,
        conditional_on_pass_meta_mint: 0,
        conditional_on_pass_usdc_mint: 0,
        conditional_on_fail_meta_mint: 0,
        conditional_on_fail_usdc_mint: 0,
        proposer_initial_conditional_meta_minted: mint_cond_meta,
        proposer_initial_conditional_usdc_minted: mint_cond_usdc,
    };
    let vault = ProposalVault {
        proposal: proposal_key,
        meta_vault_balance: mint_cond_meta,
        usdc_vault_balance: mint_cond_usdc,
        conditional_on_pass_meta_supply: 0,
        conditional_on_pass_usdc_supply: 0,
        conditional_on_fail_meta_supply: 0,
        conditional_on_fail_usdc_supply: 0,
    };
    Ok((proposal, vault))
}

/// Creates one conditional market side of a proposal: mints the committed
/// collateral's worth of this side's conditional tokens to the proposer,
/// creates the side's pool restricted to `governance_authority`, and seeds
/// it with the requested deposits as the proposer's initial liquidity.
pub fn create_proposal_market_side(
    dao: &Dao,
    proposal: &mut Proposal,
    vault: &mut ProposalVault,
    proposer: &mut UserBalances,
    proposer_key: Pubkey,
    is_pass_market: bool,
    amm_key: Pubkey,
    conditional_meta_mint: Pubkey,
    conditional_usdc_mint: Pubkey,
    meta_mint_decimals: u8,
    usdc_mint_decimals: u8,
    amm_cond_meta_deposit: u64,
    amm_cond_usdc_deposit: u64,
    governance_authority: Pubkey,
    current_slot: u64,
) -> (r: Result<(Amm, AmmPosition), ErrorCode>)
    requires
        proposer_key == old(proposal).proposer,
        amm_cond_meta_deposit > 0,
        amm_cond_usdc_deposit >= dao.amm_initial_quote_liquidity_amount,
        amm_cond_usdc_deposit > 0,
        amm_cond_meta_deposit <= old(proposal).proposer_initial_conditional_meta_minted,
        amm_cond_usdc_deposit <= old(proposal).proposer_initial_conditional_usdc_minted,
        escrow_staged(*old(proposal), *old(vault)),
        old(vault).covers_user(*old(proposer)),
        is_pass_market ==> old(proposer).conditional_on_pass_meta == 0 && old(
            proposer).conditional_on_pass_usdc == 0,
        !is_pass_market ==> old(proposer).conditional_on_fail_meta == 0 && old(
            proposer).conditional_on_fail_usdc == 0,
    ensures
        match r {
            Ok(created) => {
                &&& old(proposal).state == ProposalState::Initialize
                &&& (if is_pass_market {
                    !old(proposal).is_pass_market_created
                } else {
                    !old(proposal).is_fail_market_created
                })
                &&& *final(proposal) == if is_pass_market {
                    (Proposal {
                        is_pass_market_created: true,
                        pass_market_amm: amm_key,
                        conditional_on_pass_meta_mint: conditional_meta_mint,
                        conditional_on_pass_usdc_mint: conditional_usdc_mint,
                        ..*old(proposal)
                    })
                } else {
                    (Proposal {
                        is_fail_market_created: true,
                        fail_market_amm: amm_key,
                        conditional_on_fail_meta_mint: conditional_meta_mint,
                        conditional_on_fail_usdc_mint: conditional_usdc_mint,
                        ..*old(proposal)
                    })
                }
                &&& *final(vault) == if is_pass_market {
                    (ProposalVault {
                        conditional_on_pass_meta_supply: old(
                            proposal).proposer_initial_conditional_meta_minted,
                        conditional_on_pass_usdc_supply: old(
                            proposal).proposer_initial_conditional_usdc_minted,
                        ..*old(vault)
                    })
                } else {
                    (ProposalVault {
                        conditional_on_fail_meta_supply: old(
                            proposal).proposer_initial_conditional_meta_minted,
                        conditional_on_fail_usdc_supply: old(
                            proposal).proposer_initial_conditional_usdc_minted,
                        ..*old(vault)
                    })
                }
                &&& *final(proposer) == if is_pass_market {
                    (UserBalances {
                        conditional_on_pass_meta: (old(
                            proposal).proposer_initial_conditional_meta_minted - amm_cond_meta_deposit)
                            as u64,
                        conditional_on_pass_usdc: (old(
                            proposal).proposer_initial_conditional_usdc_minted - amm_cond_usdc_deposit)
                            as u64,
                        ..*old(proposer)
                    })
                } else {
                    (UserBalances {
                        conditional_on_fail_meta: (old(
                            proposal).proposer_initial_conditional_meta_minted - amm_cond_meta_deposit)
                            as u64,
                        conditional_on_fail_usdc: (old(
                            proposal).proposer_initial_conditional_usdc_minted - amm_cond_usdc_deposit)
                            as u64,
                        ..*old(proposer)
                    })
                }
                &&& created.0 == (Amm {
                    permissioned: governance_authority != 0,
                    permissioned_caller: governance_authority,
                    created_at_slot: current_slot,
                    base_mint: conditional_meta_mint,
                    quote_mint: conditional_usdc_mint,
                    base_mint_decimals: meta_mint_decimals,
                    quote_mint_decimals: usdc_mint_decimals,
                    base_amount: amm_cond_meta_deposit,
                    quote_amount: amm_cond_usdc_deposit,
                    total_ownership: vstd::math::max(
                        amm_cond_meta_deposit as int,
                        amm_cond_usdc_deposit as int,
                    ) as u64,
                    num_current_lps: 1u64,
                    swap_fee_bps: dao.amm_swap_fee_bps,
                    ltwap_decimals: dao.amm_ltwap_decimals,
                    ltwap_slot_updated: current_slot,
                    ltwap_denominator_agg: 0u128,
                    ltwap_numerator_agg: 0u128,
                    ltwap_latest: 0u64,
                })
                &&& created.0.well_formed()
                &&& created.0.ltwap_consistent()
                &&& created.1 == (AmmPosition {
                    user: proposer_key,
                    amm: amm_key,
                    ownership: vstd::math::max(
                        amm_cond_meta_deposit as int,
                        amm_cond_usdc_deposit as int,
                    ) as u64,
                })
                &&& escrow_staged(*final(proposal), *final(vault))
                &&& final(vault).covers_user(*final(proposer))
                &&& (final(proposal).is_pass_market_created && final(
                    proposal).is_fail_market_created) ==> final(vault).escrow_balanced()
            },
            Err(e) => {
                &&& *final(proposal) == *old(proposal)
                &&& *final(vault) == *old(vault)
                &&& *final(proposer) == *old(proposer)
                &&& if old(proposal).state != ProposalState::Initialize {
                    e == ErrorCode::ProposalAlreadySubmitted
                } else if (if is_pass_market {
                    old(proposal).is_pass_market_created
                } else {
                    old(proposal).is_fail_market_created
                }) {
                    e == ErrorCode::MarketAlreadyCreated
                } else if !(AMM_SWAP_FEE_BPS_MIN <= dao.amm_swap_fee_bps
                    < AMM_SWAP_FEE_BPS_MAX) {
                    e == ErrorCode::SwapFeeOutOfBounds
                } else if conditional_meta_mint == conditional_usdc_mint {
                    e == ErrorCode::InvalidMintPair
                } else {
                    e == ErrorCode::DecimalScaleError && (meta_mint_decimals > MAX_DECIMALS
                        || usdc_mint_decimals > MAX_DECIMALS || dao.amm_ltwap_decimals
                        > MAX_DECIMALS)
                }
            },
        },
{
    if !matches!(proposal.state, ProposalState::Initialize) {
        return Err(ErrorCode::ProposalAlreadySubmitted);
    }
    let side_created = if is_pass_market {
        proposal.is_pass_market_created
    } else {
        proposal.is_fail_market_created
    };
    if side_created {
        return Err(ErrorCode::MarketAlreadyCreated);
    }
    let params = CreateAmmParams {
        permissioned_caller: governance_authority,
        swap_fee_bps: dao.amm_swap_fee_bps,
        ltwap_decimals: dao.amm_ltwap_decimals,
    };
    let mut amm = match create_amm(
        params,
        conditional_meta_mint,
        conditional_usdc_mint,
        meta_mint_decimals,
        usdc_mint_decimals,
        current_slot,
    ) {
        Ok(a) => a,
        Err(e) => return Err(e),
    };
    let mut amm_position = match create_position(&amm, governance_authority, proposer_key, amm_key) {
        Ok(p) => p,
        Err(e) => {
            proof {
                assert(false);
            }
            return Err(e);
        },
    };
    match amm.add_liquidity(
        &mut amm_position,
        governance_authority,
        amm_cond_meta_deposit,
        amm_cond_usdc_deposit,
    ) {
        Ok(_) => (),
        Err(e) => {
            proof {
                assert(false);
            }
            return Err(e);
        },
    };
    if is_pass_market {
        proposal.is_pass_market_created = true;
        proposal.pass_market_amm = amm_key;
        proposal.conditional_on_pass_meta_mint = conditional_meta_mint;
        proposal.conditional_on_pass_usdc_mint = conditional_usdc_mint;
        vault.conditional_on_pass_meta_supply =
            proposal.proposer_initial_conditional_meta_minted;
        vault.conditional_on_pass_usdc_supply =
            proposal.proposer_initial_conditional_usdc_minted;
        proposer.conditional_on_pass_meta = proposal.proposer_initial_conditional_meta_minted
            - amm_cond_meta_deposit;
        proposer.conditional_on_pass_usdc = proposal.proposer_initial_conditional_usdc_minted
            - amm_cond_usdc_deposit;
    } else {
        proposal.is_fail_market_created = true;
        proposal.fail_market_amm = amm_key;
        proposal.conditional_on_fail_meta_mint = conditional_meta_mint;
        proposal.conditional_on_fail_usdc_mint = conditional_usdc_mint;
        vault.conditional_on_fail_meta_supply =
            proposal.proposer_initial_conditional_meta_minted;
        vault.conditional_on_fail_usdc_supply =
            proposal.proposer_initial_conditional_usdc_minted;
        proposer.conditional_on_fail_meta = proposal.proposer_initial_conditional_meta_minted
            - amm_cond_meta_deposit;
        proposer.conditional_on_fail_usdc = proposal.proposer_initial_conditional_usdc_minted
            - amm_cond_usdc_deposit;
    }
    Ok((amm, amm_position))
}

/// Two raised to `exponent`, rejecting exponents whose power does not fit a
/// 64-bit value.
fn checked_pow2(exponent: u32) -> (r: Result<u64, ErrorCode>)
    ensures
        match r {
            Ok(v) => exponent < 64 && v == vstd::arithmetic::power2::pow2(exponent as nat),
            Err(e) => e == ErrorCode::ArithmeticError && exponent >= 64,
        },
{
    if exponent >= 64 {
        return Err(ErrorCode::ArithmeticError);
    }
    proof {
        vstd::arithmetic::power2::lemma2_to64();
    }
    let mut result: u64 = 1;
    let mut i: u32 = 0;
    while i < exponent
        invariant
            i <= exponent < 64,
            result == vstd::arithmetic::power2::pow2(i as nat),
        decreases exponent - i,
    {
        proof {
            vstd::arithmetic::power2::lemma2_to64_rest();
            vstd::arithmetic::power2::lemma_pow2_strictly_increases(i as nat, 63);
            vstd::arithmetic::power2::lemma_pow2_unfold((i + 1) as nat);
        }
        result = result * 2;
        i = i + 1;
    }
    Ok(result)
}

/// The anti-spam fee a submission owes: the base fee doubled once per
/// concurrently active proposal.
pub open spec fn submission_fee(dao: Dao) -> int {
    dao.proposal_fee_usdc * vstd::arithmetic::power2::pow2(dao.proposals_active as nat)
}

/// Why a submission is rejected, if it is. The two oracle starts are judged
/// against the pools handed in; `1` and `2` tag the pass and fail pool.
pub open spec fn submit_error(
    dao: Dao,
    proposal: Proposal,
    pass_market_amm: Amm,
    fail_market_amm: Amm,
    proposer_usdc: u64,
    governance_authority: Pubkey,
    current_slot: u64,
) -> Option<ErrorCode> {
    if proposal.state != ProposalState::Initialize {
        Some(ErrorCode::ProposalAlreadySubmitted)
    } else if !(proposal.is_pass_market_created && proposal.is_fail_market_created) {
        Some(ErrorCode::MarketsNotCreated)
    } else if dao.proposals_active >= 64 || submission_fee(dao) > u64::MAX {
        Some(ErrorCode::ArithmeticError)
    } else if submission_fee(dao) > proposer_usdc {
        Some(ErrorCode::InsufficientUnderlyingTokens)
    } else if pass_market_amm.ltwap_update_error(governance_authority, current_slot) is Some {
        pass_market_amm.ltwap_update_error(governance_authority, current_slot)
    } else {
        fail_market_amm.ltwap_update_error(governance_authority, current_slot)
    }
}

/// Submits a proposal: charges the anti-spam fee, freezes the instruction
/// list, records the enqueue slot and the window length, moves the state to
/// `Pending`, and starts both markets' oracle clocks.
///
/// The state only moves forward: from `Initialize` to `Pending`. Returns
/// the fee charged. The two oracle starts are independent atomic units: if
/// the fail market's start is rejected, the pass market's remains in
/// effect and everything else is untouched.
pub fn submit_proposal(
    dao: &mut Dao,
    proposal: &mut Proposal,
    proposal_instructions: &mut ProposalInstructions,
    pass_market_amm: &mut Amm,
    fail_market_amm: &mut Amm,
    proposer: &mut UserBalances,
    proposer_key: Pubkey,
    proposal_instructions_key: Pubkey,
    pass_market_amm_key: Pubkey,
    fail_market_amm_key: Pubkey,
    governance_authority: Pubkey,
    current_slot: u64,
) -> (r: Result<u64, ErrorCode>)
    requires
        proposer_key == old(proposal).proposer,
        proposal_instructions_key == old(proposal).instructions,
        pass_market_amm_key == old(proposal).pass_market_amm,
        fail_market_amm_key == old(proposal).fail_market_amm,
        old(pass_market_amm).well_formed(),
        old(pass_market_amm).ltwap_consistent(),
        old(fail_market_amm).well_formed(),
        old(fail_market_amm).ltwap_consistent(),
        old(dao).proposals_active < u32::MAX,
    ensures
        final(pass_market_amm).well_formed() && final(pass_market_amm).ltwap_consistent(),
        final(fail_market_amm).well_formed() && final(fail_market_amm).ltwap_consistent(),
        match r {
            Ok(fee) => {
                &&& submit_error(
                    *old(dao),
                    *old(proposal),
                    *old(pass_market_amm),
                    *old(fail_market_amm),
                    old(proposer).usdc,
                    governance_authority,
                    current_slot,
                ) is None
                &&& fee == submission_fee(*old(dao))
                &&& *final(dao) == (Dao {
                    proposals_active: (old(dao).proposals_active + 1) as u32,
                    ..*old(dao)
                })
                &&& *final(proposal) == (Proposal {
                    state: ProposalState::Pending,
                    slot_enqueued: current_slot,
                    slots_duration: old(dao).proposal_duration_slots,
                    ..*old(proposal)
                })
                &&& state_rank(final(proposal).state) > state_rank(old(proposal).state)
                &&& *final(proposal_instructions) == (ProposalInstructions {
                    proposal_instructions_frozen: true,
                    ..*old(proposal_instructions)
                })
                &&& *final(proposer) == (UserBalances {
                    usdc: (old(proposer).usdc - fee) as u64,
                    ..*old(proposer)
                })
                &&& *final(pass_market_amm) == old(pass_market_amm).ltwap_next(current_slot)
                &&& *final(fail_market_amm) == old(fail_market_amm).ltwap_next(current_slot)
            },
            Err(e) => {
                &&& Some(e) == submit_error(
                    *old(dao),
                    *old(proposal),
                    *old(pass_market_amm),
                    *old(fail_market_amm),
                    old(proposer).usdc,
                    governance_authority,
                    current_slot,
                )
                &&& *final(dao) == *old(dao)
                &&& *final(proposal) == *old(proposal)
                &&& *final(proposal_instructions) == *old(proposal_instructions)
                &&& *final(proposer) == *old(proposer)
                &&& *final(fail_market_amm) == *old(fail_market_amm)
                &&& if old(pass_market_amm).ltwap_update_error(
                    governance_authority,
                    current_slot,
                ) is Some || old(proposal).state != ProposalState::Initialize || !(old(
                    proposal).is_pass_market_created && old(proposal).is_fail_market_created)
                    || old(dao).proposals_active >= 64 || submission_fee(*old(dao)) > u64::MAX
                    || submission_fee(*old(dao)) > old(proposer).usdc {
                    *final(pass_market_amm) == *old(pass_market_amm)
                } else {
                    *final(pass_market_amm) == old(pass_market_amm).ltwap_next(current_slot)
                }
            },
        },
{
    if !matches!(proposal.state, ProposalState::Initialize) {
        return Err(ErrorCode::ProposalAlreadySubmitted);
    }
    if !(proposal.is_pass_market_created && proposal.is_fail_market_created) {
        return Err(ErrorCode::MarketsNotCreated);
    }
    let fee_multiplier = match checked_pow2(dao.proposals_active) {
        Ok(v) => v,
        Err(e) => return Err(e),
    };
    let effective_usdc_fee = match dao.proposal_fee_usdc.checked_mul(fee_multiplier) {
        Some(v) => v,
        None => return Err(ErrorCode::ArithmeticError),
    };
    if effective_usdc_fee > proposer.usdc {
        return Err(ErrorCode::InsufficientUnderlyingTokens);
    }
    match pass_market_amm.update_ltwap(governance_authority, current_slot) {
        Ok(_) => (),
        Err(e) => return Err(e),
    };
    match fail_market_amm.update_ltwap(governance_authority, current_slot) {
        Ok(_) => (),
        Err(e) => return Err(e),
    };
    proposer.usdc = proposer.usdc - effective_usdc_fee;
    proposal.state = ProposalState::Pending;
    proposal.slot_enqueued = current_slot;
    proposal.slots_duration = dao.proposal_duration_slots;
    proposal_instructions.proposal_instructions_frozen = true;
    dao.proposals_active = dao.proposals_active + 1;
    Ok(effective_usdc_fee)
}

/// The pass decision: the pass market's average price must exceed the fail
/// market's by more than the threshold margin.
pub open spec fn proposal_passes(
    pass_ltwap: u64,
    fail_ltwap: u64,
    pass_threshold_bps: u64,
) -> bool {
    pass_ltwap > fail_ltwap * (BPS_SCALE + pass_threshold_bps) / (BPS_SCALE as int)
}

/// Whether the trading window has elapsed, so the proposal may be finalized.
pub open spec fn finalize_window_reached(dao: Dao, proposal: Proposal, now: u64) -> bool {
    now >= proposal.slot_enqueued + dao.proposal_duration_slots
}

/// Whether the finalize grace window has also elapsed, so the proposal is
/// treated as expired and fails outright.
pub open spec fn finalize_expired(dao: Dao, proposal: Proposal, now: u64) -> bool {
    now >= proposal.slot_enqueued + dao.proposal_duration_slots + dao.finalize_window_slots
}

/// `account`, granted signing authority if it is the treasury.
pub open spec fn marked_account(account: ProposalAccount, treasury: Pubkey) -> ProposalAccount {
    if account.pubkey == treasury {
        ProposalAccount { is_signer: true, ..account }
    } else {
        account
    }
}

/// Why a finalization is rejected, if it is.
pub open spec fn finalize_error(
    dao: Dao,
    proposal: Proposal,
    fail_market_amm: Amm,
    now: u64,
) -> Option<ErrorCode> {
    if !finalize_window_reached(dao, proposal, now) {
        Some(ErrorCode::ProposalTooYoung)
    } else if proposal.state != ProposalState::Pending {
        Some(ErrorCode::ProposalAlreadyFinalized)
    } else if BPS_SCALE + dao.pass_threshold_bps > u64::MAX || fail_market_amm.ltwap_latest * (
    BPS_SCALE + dao.pass_threshold_bps) > u128::MAX {
        Some(ErrorCode::ArithmeticError)
    } else {
        None
    }
}

/// Finalize is idempotent-safe: once a proposal is resolved — as
/// `finalize_proposal` leaves it — every further finalization attempt is
/// rejected, whatever the slot and the market state, so embedded
/// instructions can never be dispatched twice.
pub proof fn lemma_finalize_rejects_resolved(
    dao: Dao,
    proposal: Proposal,
    fail_market_amm: Amm,
    now: u64,
)
    requires
        crate::proposal::is_terminal(proposal.state),
    ensures
        finalize_error(dao, proposal, fail_market_amm, now) is Some,
{
}

/// A submitted proposal cannot be submitted again: submission is accepted
/// only from the `Initialize` state, which no transition re-enters.
pub proof fn lemma_submit_rejects_submitted(
    dao: Dao,
    proposal: Proposal,
    pass_market_amm: Amm,
    fail_market_amm: Amm,
    proposer_usdc: u64,
    governance_authority: Pubkey,
    now: u64,
)
    requires
        proposal.state != ProposalState::Initialize,
    ensures
        submit_error(
            dao,
            proposal,
            pass_market_amm,
            fail_market_amm,
            proposer_usdc,
            governance_authority,
            now,
        ) == Some(ErrorCode::ProposalAlreadySubmitted),
{
}

/// Finalizes a proposal once its trading window has elapsed: compares the
/// two markets' average prices against the pass threshold, moves the state
/// to `Passed` or `Failed`, and returns the instructions to dispatch — the
/// embedded list, with the treasury granted signing authority, exactly when
/// the proposal passed, and nothing otherwise.
///
/// A proposal left unfinalized past the grace window fails outright, so its
/// embedded instructions cannot stay latently executable forever. Finalize
/// rejects re-entry: the state only moves forward, and a second call always
/// fails and never dispatches twice.
pub fn finalize_proposal(
    dao: &mut Dao,
    proposal: &mut Proposal,
    proposal_instructions: &ProposalInstructions,
    pass_market_amm: &Amm,
    fail_market_amm: &Amm,
    proposal_instructions_key: Pubkey,
    pass_market_amm_key: Pubkey,
    fail_market_amm_key: Pubkey,
    dao_treasury: Pubkey,
    current_slot: u64,
) -> (r: Result<(ProposalState, Vec<ProposalInstruction>), ErrorCode>)
    requires
        proposal_instructions_key == old(proposal).instructions,
        pass_market_amm_key == old(proposal).pass_market_amm,
        fail_market_amm_key == old(proposal).fail_market_amm,
        old(proposal).state == ProposalState::Pending ==> old(dao).proposals_active > 0,
    ensures
        match r {
            Ok(outcome) => {
                &&& finalize_error(*old(dao), *old(proposal), *fail_market_amm, current_slot)
                    is None
                &&& old(proposal).state == ProposalState::Pending
                &&& *final(dao) == (Dao {
                    proposals_active: (old(dao).proposals_active - 1) as u32,
                    ..*old(dao)
                })
                &&& *final(proposal) == (Proposal { state: outcome.0, ..*old(proposal) })
                &&& crate::proposal::is_terminal(outcome.0)
                &&& state_rank(final(proposal).state) > state_rank(old(proposal).state)
                &&& outcome.0 == if finalize_expired(*old(dao), *old(proposal), current_slot) {
                    ProposalState::Failed
                } else if proposal_passes(
                    pass_market_amm.ltwap_latest,
                    fail_market_amm.ltwap_latest,
                    old(dao).pass_threshold_bps,
                ) {
                    ProposalState::Passed
                } else {
                    ProposalState::Failed
                }
                &&& if outcome.0 == ProposalState::Passed {
                    &&& outcome.1@.len() == proposal_instructions.instructions@.len()
                    &&& forall|i: int|
                        0 <= i < outcome.1@.len() ==> {
                            &&& (#[trigger] outcome.1@[i]).program_id
                                == proposal_instructions.instructions@[i].program_id
                            &&& outcome.1@[i].data@
                                == proposal_instructions.instructions@[i].data@
                            &&& outcome.1@[i].accounts@
                                == proposal_instructions.instructions@[i].accounts@.map_values(
                                |a: ProposalAccount| marked_account(a, dao_treasury),
                            )
                        }
                } else {
                    outcome.1@.len() == 0
                }
            },
            Err(e) => {
                &&& Some(e) == finalize_error(
                    *old(dao),
                    *old(proposal),
                    *fail_market_amm,
                    current_slot,
                )
                &&& *final(dao) == *old(dao)
                &&& *final(proposal) == *old(proposal)
            },
        },
{
    let window_end: u128 = (proposal.slot_enqueued as u128) + (dao.proposal_duration_slots
        as u128);
    if (current_slot as u128) < window_end {
        return Err(ErrorCode::ProposalTooYoung);
    }
    if !matches!(proposal.state, ProposalState::Pending) {
        return Err(ErrorCode::ProposalAlreadyFinalized);
    }
    let threshold_factor = match BPS_SCALE.checked_add(dao.pass_threshold_bps) {
        Some(v) => v,
        None => return Err(ErrorCode::ArithmeticError),
    };
    let threshold = match (fail_market_amm.ltwap_latest as u128).checked_mul(
        threshold_factor as u128,
    ) {
        Some(v) => v / (BPS_SCALE as u128),
        None => return Err(ErrorCode::ArithmeticError),
    };
    dao.proposals_active = dao.proposals_active - 1;
    if (current_slot as u128) >= window_end + (dao.finalize_window_slots as u128) {
        proposal.state = ProposalState::Failed;
        return Ok((ProposalState::Failed, Vec::new()));
    }
    if (pass_market_amm.ltwap_latest as u128) > threshold {
        proposal.state = ProposalState::Passed;
        let dispatch = mark_treasury_signer(
            &proposal_instructions.instructions,
            dao_treasury,
        );
        Ok((ProposalState::Passed, dispatch))
    } else {
        proposal.state = ProposalState::Failed;
        Ok((ProposalState::Failed, Vec::new()))
    }
}

/// Copies an instruction list, granting the treasury signing authority in
/// every account list it appears in.
fn mark_treasury_signer(instructions: &Vec<ProposalInstruction>, treasury: Pubkey) -> (r: Vec<
    ProposalInstruction,
>)
    ensures
        r@.len() == instructions@.len(),
        forall|i: int|
            0 <= i < r@.len() ==> {
                &&& (#[trigger] r@[i]).program_id == instructions@[i].program_id
                &&& r@[i].data@ == instructions@[i].data@
                &&& r@[i].accounts@ == instructions@[i].accounts@.map_values(
                    |a: ProposalAccount| marked_account(a, treasury),
                )
            },
{
    let mut result: Vec<ProposalInstruction> = Vec::new();
    let mut i: usize = 0;
    while i < instructions.len()
        invariant
            0 <= i <= instructions.len(),
            result@.len() == i,
            forall|n: int|
                0 <= n < i ==> {
                    &&& (#[trigger] result@[n]).program_id == instructions@[n].program_id
                    &&& result@[n].data@ == instructions@[n].data@
                    &&& result@[n].accounts@ == instructions@[n].accounts@.map_values(
                        |a: ProposalAccount| marked_account(a, treasury),
                    )
                },
        decreases instructions.len() - i,
    {
        let source = &instructions[i];
        let mut accounts: Vec<ProposalAccount> = Vec::new();
        let mut j: usize = 0;
        while j < source.accounts.len()
            invariant
                0 <= j <= source.accounts.len(),
                accounts@ == source.accounts@.take(j as int).map_values(
                    |a: ProposalAccount| marked_account(a, treasury),
                ),
            decreases source.accounts.len() - j,
        {
            let account = source.accounts[j];
            let marked = if account.pubkey == treasury {
                ProposalAccount { pubkey: account.pubkey, is_signer: true, is_writable: account.is_writable }
            } else {
                account
            };
            accounts.push(marked);
            proof {
                assert(source.accounts@.take(j + 1).map_values(
                    |a: ProposalAccount| marked_account(a, treasury),
                ) =~= source.accounts@.take(j as int).map_values(
                    |a: ProposalAccount| marked_account(a, treasury),
                ).push(marked_account(source.accounts@[j as int], treasury)));
            }
            j = j + 1;
        }
        let mut data: Vec<u8> = Vec::new();
        let mut k: usize = 0;
        while k < source.data.len()
            invariant
                0 <= k <= source.data.len(),
                data@ == source.data@.take(k as int),
            decreases source.data.len() - k,
        {
            data.push(source.data[k]);
            proof {
                assert(source.data@.take(k + 1) =~= source.data@.take(k as int).push(
                    source.data@[k as int],
                ));
            }
            k = k + 1;
        }
        proof {
            assert(source.accounts@.take(source.accounts@.len() as int) =~= source.accounts@);
            assert(source.data@.take(source.data@.len() as int) =~= source.data@);
        }
        result.push(ProposalInstruction { program_id: source.program_id, accounts, data });
        i = i + 1;
    }
    result
}

/// Whether `amm_key` is the pool of the named side of `proposal`.
pub open spec fn market_matches(proposal: Proposal, amm_key: Pubkey, is_pass_market: bool) -> bool {
    if is_pass_market {
        proposal.pass_market_amm == amm_key
    } else {
        proposal.fail_market_amm == amm_key
    }
}

/// Whether the proposal's trading window is still open at `now`, so that a
/// market operation advances the oracle. After the window closes the oracle
/// is frozen: late trades can no longer move the average that finalization
/// reads.
pub open spec fn ltwap_window_open(dao: Dao, proposal: Proposal, now: u64) -> bool {
    (now as int) < proposal.slot_enqueued + dao.proposal_duration_slots
}

/// The pool as a market operation sees it once the gated oracle refresh has
/// been applied.
pub open spec fn gated_ltwap_next(dao: Dao, proposal: Proposal, amm: Amm, now: u64) -> Amm {
    if ltwap_window_open(dao, proposal, now) {
        amm.ltwap_next(now)
    } else {
        amm
    }
}

/// Why the gated oracle refresh is rejected, if it is; a closed window skips
/// the refresh and rejects nothing.
pub open spec fn gated_ltwap_error(
    dao: Dao,
    proposal: Proposal,
    amm: Amm,
    caller: Pubkey,
    now: u64,
) -> Option<ErrorCode> {
    if ltwap_window_open(dao, proposal, now) {
        amm.ltwap_update_error(caller, now)
    } else {
        None
    }
}

/// Swaps on one conditional market of a proposal: advances the market's
/// oracle first — while the trading window is open — so the pre-swap
/// reserves are what gets time-weighted, then executes the swap.
///
/// All-or-nothing: on any error the pool is left exactly as it was.
pub fn swap(
    dao: &Dao,
    proposal: &Proposal,
    amm_key: Pubkey,
    amm: &mut Amm,
    caller: Pubkey,
    is_quote_to_base: bool,
    input_amount: u64,
    output_amount_min: u64,
    is_pass_market: bool,
    current_slot: u64,
) -> (r: Result<u64, ErrorCode>)
    requires
        input_amount > 0,
        old(amm).total_ownership > 0,
        old(amm).well_formed(),
        old(amm).ltwap_consistent(),
    ensures
        final(amm).well_formed(),
        final(amm).ltwap_consistent(),
        match r {
            Ok(out) => {
                let mid = gated_ltwap_next(*dao, *proposal, *old(amm), current_slot);
                &&& market_matches(*proposal, amm_key, is_pass_market)
                &&& gated_ltwap_error(*dao, *proposal, *old(amm), caller, current_slot) is None
                &&& mid.swap_error(caller, input_amount, is_quote_to_base, output_amount_min)
                    is None
                &&& out == mid.swap_output(input_amount, is_quote_to_base)
                &&& *final(amm) == mid.swap_next(input_amount, is_quote_to_base)
                &&& final(amm).k() >= old(amm).k()
                &&& out >= output_amount_min
            },
            Err(e) => {
                &&& *final(amm) == *old(amm)
                &&& if !market_matches(*proposal, amm_key, is_pass_market) {
                    e == ErrorCode::InvalidMarket
                } else if gated_ltwap_error(*dao, *proposal, *old(amm), caller, current_slot)
                    is Some {
                    Some(e) == gated_ltwap_error(*dao, *proposal, *old(amm), caller, current_slot)
                } else {
                    Some(e) == gated_ltwap_next(*dao, *proposal, *old(amm), current_slot)
                        .swap_error(caller, input_amount, is_quote_to_base, output_amount_min)
                }
            },
        },
{
    let matches_market = if is_pass_market {
        proposal.pass_market_amm == amm_key
    } else {
        proposal.fail_market_amm == amm_key
    };
    if !matches_market {
        return Err(ErrorCode::InvalidMarket);
    }
    let prev_slot_updated = amm.ltwap_slot_updated;
    let prev_denominator_agg = amm.ltwap_denominator_agg;
    let prev_numerator_agg = amm.ltwap_numerator_agg;
    let prev_latest = amm.ltwap_latest;
    let can_ltwap_be_updated = (current_slot as u128) < (proposal.slot_enqueued as u128) + (
    dao.proposal_duration_slots as u128);
    if can_ltwap_be_updated {
        match amm.update_ltwap(caller, current_slot) {
            Ok(_) => (),
            Err(e) => return Err(e),
        };
    }
    match amm.swap(caller, input_amount, is_quote_to_base, output_amount_min) {
        Ok(out) => Ok(out),
        Err(e) => {
            amm.ltwap_slot_updated = prev_slot_updated;
            amm.ltwap_denominator_agg = prev_denominator_agg;
            amm.ltwap_numerator_agg = prev_numerator_agg;
            amm.ltwap_latest = prev_latest;
            Err(e)
        },
    }
}

/// Deposits liquidity into one conditional market of a proposal, advancing
/// the market's oracle first while the trading window is open.
///
/// All-or-nothing: on any error the pool and the position are left exactly
/// as they were.
pub fn add_liquidity(
    dao: &Dao,
    proposal: &Proposal,
    amm_key: Pubkey,
    amm: &mut Amm,
    amm_position: &mut AmmPosition,
    caller: Pubkey,
    max_base_amount: u64,
    max_quote_amount: u64,
    is_pass_market: bool,
    current_slot: u64,
) -> (r: Result<(u64, u64), ErrorCode>)
    requires
        max_base_amount > 0,
        max_quote_amount > 0,
        old(amm_position).amm == amm_key,
        old(amm).well_formed(),
        old(amm).ltwap_consistent(),
    ensures
        final(amm).well_formed(),
        final(amm).ltwap_consistent(),
        final(amm_position).user == old(amm_position).user && final(amm_position).amm == old(
            amm_position).amm,
        match r {
            Ok(used) => {
                let mid = gated_ltwap_next(*dao, *proposal, *old(amm), current_slot);
                &&& market_matches(*proposal, amm_key, is_pass_market)
                &&& gated_ltwap_error(*dao, *proposal, *old(amm), caller, current_slot) is None
                &&& mid.add_liquidity_error(
                    caller,
                    old(amm_position).ownership,
                    max_base_amount,
                    max_quote_amount,
                ) is None
                &&& (used.0 as int, used.1 as int) == mid.add_liquidity_amounts(
                    max_base_amount,
                    max_quote_amount,
                )
                &&& *final(amm) == mid.add_liquidity_next(
                    old(amm_position).ownership,
                    max_base_amount,
                    max_quote_amount,
                )
                &&& final(amm_position).ownership == mid.add_liquidity_position_ownership(
                    old(amm_position).ownership,
                    max_base_amount,
                    max_quote_amount,
                )
                &&& !mid.pool_is_empty() ==> final(amm).total_ownership - old(
                    amm).total_ownership == final(amm_position).ownership - old(
                    amm_position).ownership
            },
            Err(e) => {
                &&& *final(amm) == *old(amm)
                &&& *final(amm_position) == *old(amm_position)
                &&& if !market_matches(*proposal, amm_key, is_pass_market) {
                    e == ErrorCode::InvalidMarket
                } else if gated_ltwap_error(*dao, *proposal, *old(amm), caller, current_slot)
                    is Some {
                    Some(e) == gated_ltwap_error(*dao, *proposal, *old(amm), caller, current_slot)
                } else {
                    Some(e) == gated_ltwap_next(*dao, *proposal, *old(amm), current_slot)
                        .add_liquidity_error(
                        caller,
                        old(amm_position).ownership,
                        max_base_amount,
                        max_quote_amount,
                    )
                }
            },
        },
{
    let matches_market = if is_pass_market {
        proposal.pass_market_amm == amm_key
    } else {
        proposal.fail_market_amm == amm_key
    };
    if !matches_market {
        return Err(ErrorCode::InvalidMarket);
    }
    let prev_slot_updated = amm.ltwap_slot_updated;
    let prev_denominator_agg = amm.ltwap_denominator_agg;
    let prev_numerator_agg = amm.ltwap_numerator_agg;
    let prev_latest = amm.ltwap_latest;
    let can_ltwap_be_updated = (current_slot as u128) < (proposal.slot_enqueued as u128) + (
    dao.proposal_duration_slots as u128);
    if can_ltwap_be_updated {
        match amm.update_ltwap(caller, current_slot) {
            Ok(_) => (),
            Err(e) => return Err(e),
        };
    }
    match amm.add_liquidity(amm_position, caller, max_base_amount, max_quote_amount) {
        Ok(used) => Ok(used),
        Err(e) => {
            amm.ltwap_slot_updated = prev_slot_updated;
            amm.ltwap_denominator_agg = prev_denominator_agg;
            amm.ltwap_numerator_agg = prev_numerator_agg;
            amm.ltwap_latest = prev_latest;
            Err(e)
        },
    }
}

/// Withdraws liquidity from one conditional market of a proposal, advancing
/// the market's oracle first while the trading window is open.
///
/// While the window is open the proposer may not pull liquidity: the initial
/// liquidity commitment backs the market until the proposal resolves.
/// All-or-nothing: on any error the pool and the position are left exactly
/// as they were.
pub fn remove_liquidity(
    dao: &Dao,
    proposal: &Proposal,
    amm_key: Pubkey,
    amm: &mut Amm,
    amm_position: &mut AmmPosition,
    caller: Pubkey,
    remove_bps: u64,
    is_pass_market: bool,
    current_slot: u64,
) -> (r: Result<(u64, u64), ErrorCode>)
    requires
        old(amm_position).amm == amm_key,
        old(amm_position).ownership <= old(amm).total_ownership,
        old(amm_position).ownership > 0 ==> old(amm).num_current_lps > 0,
        old(amm).well_formed(),
        old(amm).ltwap_consistent(),
    ensures
        final(amm).well_formed(),
        final(amm).ltwap_consistent(),
        final(amm_position).user == old(amm_position).user && final(amm_position).amm == old(
            amm_position).amm,
        match r {
            Ok(out) => {
                let mid = gated_ltwap_next(*dao, *proposal, *old(amm), current_slot);
                &&& market_matches(*proposal, amm_key, is_pass_market)
                &&& !(ltwap_window_open(*dao, *proposal, current_slot) && old(
                    amm_position).user == proposal.proposer)
                &&& gated_ltwap_error(*dao, *proposal, *old(amm), caller, current_slot) is None
                &&& mid.remove_liquidity_error(caller, old(amm_position).ownership, remove_bps)
                    is None
                &&& out.0 == mid.remove_liquidity_base_out(
                    old(amm_position).ownership,
                    remove_bps,
                )
                &&& out.1 == mid.remove_liquidity_quote_out(
                    old(amm_position).ownership,
                    remove_bps,
                )
                &&& *final(amm) == mid.remove_liquidity_next(
                    old(amm_position).ownership,
                    remove_bps,
                )
                &&& final(amm_position).ownership == old(amm_position).ownership
                    - crate::amm::ownership_burned(old(amm_position).ownership, remove_bps)
                &&& old(amm).total_ownership - final(amm).total_ownership == old(
                    amm_position).ownership - final(amm_position).ownership
            },
            Err(e) => {
                &&& *final(amm) == *old(amm)
                &&& *final(amm_position) == *old(amm_position)
                &&& if !market_matches(*proposal, amm_key, is_pass_market) {
                    e == ErrorCode::InvalidMarket
                } else if ltwap_window_open(*dao, *proposal, current_slot) && old(
                    amm_position).user == proposal.proposer {
                    e == ErrorCode::ProposerCannotPullLiquidityWhileMarketIsPending
                } else if gated_ltwap_error(*dao, *proposal, *old(amm), caller, current_slot)
                    is Some {
                    Some(e) == gated_ltwap_error(*dao, *proposal, *old(amm), caller, current_slot)
                } else {
                    Some(e) == gated_ltwap_next(*dao, *proposal, *old(amm), current_slot)
                        .remove_liquidity_error(caller, old(amm_position).ownership, remove_bps)
                }
            },
        },
{
    let matches_market = if is_pass_market {
        proposal.pass_market_amm == amm_key
    } else {
        proposal.fail_market_amm == amm_key
    };
    if !matches_market {
        return Err(ErrorCode::InvalidMarket);
    }
    let can_ltwap_be_updated = (current_slot as u128) < (proposal.slot_enqueued as u128) + (
    dao.proposal_duration_slots as u128);
    if can_ltwap_be_updated && amm_position.user == proposal.proposer {
        return Err(ErrorCode::ProposerCannotPullLiquidityWhileMarketIsPending);
    }
    let prev_slot_updated = amm.ltwap_slot_updated;
    let prev_denominator_agg = amm.ltwap_denominator_agg;
    let prev_numerator_agg = amm.ltwap_numerator_agg;
    let prev_latest = amm.ltwap_latest;
    if can_ltwap_be_updated {
        match amm.update_ltwap(caller, current_slot) {
            Ok(_) => (),
            Err(e) => return Err(e),
        };
    }
    match amm.remove_liquidity(amm_position, caller, remove_bps) {
        Ok(out) => Ok(out),
        Err(e) => {
            amm.ltwap_slot_updated = prev_slot_updated;
            amm.ltwap_denominator_agg = prev_denominator_agg;
            amm.ltwap_numerator_agg = prev_numerator_agg;
            amm.ltwap_latest = prev_latest;
            Err(e)
        },
    }
}

} // verus!
