use futarchy::amm::{Amm, AmmPosition};
use futarchy::autocrat::{
    add_liquidity, create_proposal, create_proposal_market_side, finalize_proposal,
    remove_liquidity, submit_proposal, swap,
};
use futarchy::dao::{initialize_dao, update_dao, Dao, UpdateDaoParams};
use futarchy::error::ErrorCode;
use futarchy::proposal::{
    add_proposal_instructions, create_proposal_instructions, get_instructions_size,
    Proposal, ProposalAccount, ProposalInstruction, ProposalInstructions, ProposalState,
};
use futarchy::vault::{
    merge_conditional_tokens, mint_conditional_tokens, redeem_conditional_tokens, ProposalVault,
    UserBalances,
};

const GOVERNANCE: u64 = 1000;
const TREASURY: u64 = 1001;
const META_MINT: u64 = 1;
const USDC_MINT: u64 = 2;
const PROPOSER: u64 = 50;
const PROPOSAL_KEY: u64 = 200;
const VAULT_KEY: u64 = 201;
const INSTRUCTIONS_KEY: u64 = 202;
const PASS_AMM_KEY: u64 = 210;
const FAIL_AMM_KEY: u64 = 211;

fn fresh_user(meta: u64, usdc: u64) -> UserBalances {
    UserBalances {
        meta,
        usdc,
        conditional_on_pass_meta: 0,
        conditional_on_pass_usdc: 0,
        conditional_on_fail_meta: 0,
        conditional_on_fail_usdc: 0,
    }
}

fn test_dao() -> Dao {
    let mut dao = initialize_dao(99, TREASURY, META_MINT, USDC_MINT);
    update_dao(
        &mut dao,
        UpdateDaoParams {
            pass_threshold_bps: Some(500),
            proposal_duration_slots: Some(100),
            finalize_window_slots: Some(50),
            proposal_fee_usdc: Some(1_000),
            amm_initial_quote_liquidity_amount: Some(1_000_000),
            amm_swap_fee_bps: Some(300),
            amm_ltwap_decimals: Some(9),
        },
    );
    dao
}

struct Setup {
    dao: Dao,
    proposer: UserBalances,
    proposal: Proposal,
    vault: ProposalVault,
    pass_amm: Amm,
    pass_position: AmmPosition,
    fail_amm: Amm,
    fail_position: AmmPosition,
}

/// A proposal with both markets created, each seeded with base 1_000_000 and
/// quote 2_000_000 at slot 0.
fn staged_proposal() -> Setup {
    let mut dao = test_dao();
    let mut proposer = fresh_user(10_000_000, 10_000_000);
    let (mut proposal, mut vault) = create_proposal(
        &mut dao,
        &mut proposer,
        PROPOSER,
        PROPOSAL_KEY,
        VAULT_KEY,
        String::from("https://example.org/proposal"),
        5_000_000,
        8_000_000,
    )
    .unwrap();
    let (pass_amm, pass_position) = create_proposal_market_side(
        &dao,
        &mut proposal,
        &mut vault,
        &mut proposer,
        PROPOSER,
        true,
        PASS_AMM_KEY,
        301,
        302,
        6,
        6,
        1_000_000,
        2_000_000,
        GOVERNANCE,
        0,
    )
    .unwrap();
    let (fail_amm, fail_position) = create_proposal_market_side(
        &dao,
        &mut proposal,
        &mut vault,
        &mut proposer,
        PROPOSER,
        false,
        FAIL_AMM_KEY,
        303,
        304,
        6,
        6,
        1_000_000,
        2_000_000,
        GOVERNANCE,
        0,
    )
    .unwrap();
    Setup { dao, proposer, proposal, vault, pass_amm, pass_position, fail_amm, fail_position }
}

fn example_instruction(target: u64) -> ProposalInstruction {
    ProposalInstruction {
        program_id: target,
        accounts: vec![
            ProposalAccount { pubkey: TREASURY, is_signer: false, is_writable: true },
            ProposalAccount { pubkey: 42, is_signer: false, is_writable: false },
        ],
        data: vec![1, 2, 3, 4],
    }
}

#[test]
fn proposal_numbers_are_consecutive() {
    let mut dao = test_dao();
    let first_number = dao.proposal_count;
    let mut proposer = fresh_user(10_000_000, 10_000_000);
    let (first, _) = create_proposal(
        &mut dao,
        &mut proposer,
        PROPOSER,
        PROPOSAL_KEY,
        VAULT_KEY,
        String::from("a"),
        1_000_000,
        2_000_000,
    )
    .unwrap();
    let (second, _) = create_proposal(
        &mut dao,
        &mut proposer,
        PROPOSER,
        PROPOSAL_KEY + 10,
        VAULT_KEY + 10,
        String::from("b"),
        1_000_000,
        2_000_000,
    )
    .unwrap();
    assert_eq!(first.number, first_number);
    assert_eq!(second.number, first_number + 1);
    assert_eq!(dao.proposal_count, first_number + 2);
    assert_eq!(first.state, ProposalState::Initialize);
}

#[test]
fn create_proposal_needs_collateral() {
    let mut dao = test_dao();
    let mut poor = fresh_user(100, 100);
    assert_eq!(
        create_proposal(
            &mut dao,
            &mut poor,
            PROPOSER,
            PROPOSAL_KEY,
            VAULT_KEY,
            String::from("a"),
            1_000_000,
            2_000_000,
        )
        .err(),
        Some(ErrorCode::InsufficientUnderlyingTokens)
    );
    assert_eq!(poor.meta, 100);
    assert_eq!(poor.usdc, 100);
}

#[test]
fn market_sides_fund_escrow_and_seed_pools() {
    let setup = staged_proposal();
    // The vault holds the committed collateral and both conditional sides
    // are fully backed.
    assert_eq!(setup.vault.meta_vault_balance, 5_000_000);
    assert_eq!(setup.vault.usdc_vault_balance, 8_000_000);
    assert_eq!(setup.vault.conditional_on_pass_meta_supply, 5_000_000);
    assert_eq!(setup.vault.conditional_on_fail_meta_supply, 5_000_000);
    assert_eq!(setup.vault.conditional_on_pass_usdc_supply, 8_000_000);
    assert_eq!(setup.vault.conditional_on_fail_usdc_supply, 8_000_000);
    // The proposer keeps what was not deposited into the pools.
    assert_eq!(setup.proposer.conditional_on_pass_meta, 4_000_000);
    assert_eq!(setup.proposer.conditional_on_pass_usdc, 6_000_000);
    assert_eq!(setup.proposer.conditional_on_fail_meta, 4_000_000);
    assert_eq!(setup.proposer.conditional_on_fail_usdc, 6_000_000);
    // Both pools are seeded and restricted to the governance authority.
    assert_eq!(setup.pass_amm.base_amount, 1_000_000);
    assert_eq!(setup.pass_amm.quote_amount, 2_000_000);
    assert_eq!(setup.pass_amm.total_ownership, 2_000_000);
    assert_eq!(setup.pass_position.ownership, 2_000_000);
    assert!(setup.pass_amm.permissioned);
    assert_eq!(setup.pass_amm.permissioned_caller, GOVERNANCE);
    assert_eq!(setup.proposal.pass_market_amm, PASS_AMM_KEY);
    assert_eq!(setup.proposal.fail_market_amm, FAIL_AMM_KEY);
    assert!(setup.proposal.is_pass_market_created);
    assert!(setup.proposal.is_fail_market_created);
}

#[test]
fn market_side_cannot_be_created_twice() {
    let Setup { dao, mut proposer, mut proposal, mut vault, .. } = staged_proposal();
    assert_eq!(
        create_proposal_market_side(
            &dao,
            &mut proposal,
            &mut vault,
            &mut proposer,
            PROPOSER,
            true,
            PASS_AMM_KEY,
            301,
            302,
            6,
            6,
            1_000_000,
            2_000_000,
            GOVERNANCE,
            0,
        )
        .err(),
        Some(ErrorCode::MarketAlreadyCreated)
    );
}

#[test]
fn instruction_list_grows_then_freezes() {
    let Setup {
        mut dao,
        mut proposer,
        mut proposal,
        mut pass_amm,
        mut fail_amm,
        ..
    } = staged_proposal();
    let mut instructions = create_proposal_instructions(
        &mut proposal,
        PROPOSAL_KEY,
        INSTRUCTIONS_KEY,
        PROPOSER,
        vec![example_instruction(900)],
    )
    .unwrap();
    assert_eq!(proposal.instructions, INSTRUCTIONS_KEY);
    add_proposal_instructions(
        &proposal,
        &mut instructions,
        INSTRUCTIONS_KEY,
        vec![example_instruction(901), example_instruction(902)],
    )
    .unwrap();
    assert_eq!(instructions.instructions.len(), 3);
    assert_eq!(instructions.instructions[1].program_id, 901);
    // One instruction serializes to 32 + 4 + 2 * 34 + 4 + 4 = 112 bytes.
    assert_eq!(get_instructions_size(&instructions.instructions), 336);
    submit_proposal(
        &mut dao,
        &mut proposal,
        &mut instructions,
        &mut pass_amm,
        &mut fail_amm,
        &mut proposer,
        PROPOSER,
        INSTRUCTIONS_KEY,
        PASS_AMM_KEY,
        FAIL_AMM_KEY,
        GOVERNANCE,
        10,
    )
    .unwrap();
    assert!(instructions.proposal_instructions_frozen);
    assert_eq!(
        add_proposal_instructions(
            &proposal,
            &mut instructions,
            INSTRUCTIONS_KEY,
            vec![example_instruction(903)],
        )
        .err(),
        Some(ErrorCode::ProposalInstructionsFrozen)
    );
    assert_eq!(instructions.instructions.len(), 3);
}

#[test]
fn submission_charges_escalating_fee() {
    let Setup {
        mut dao,
        mut proposer,
        mut proposal,
        mut pass_amm,
        mut fail_amm,
        ..
    } = staged_proposal();
    let mut instructions = create_proposal_instructions(
        &mut proposal,
        PROPOSAL_KEY,
        INSTRUCTIONS_KEY,
        PROPOSER,
        Vec::new(),
    )
    .unwrap();
    // Two proposals already active: the base fee of 1_000 is doubled twice.
    dao.proposals_active = 2;
    let usdc_before = proposer.usdc;
    let fee = submit_proposal(
        &mut dao,
        &mut proposal,
        &mut instructions,
        &mut pass_amm,
        &mut fail_amm,
        &mut proposer,
        PROPOSER,
        INSTRUCTIONS_KEY,
        PASS_AMM_KEY,
        FAIL_AMM_KEY,
        GOVERNANCE,
        10,
    )
    .unwrap();
    assert_eq!(fee, 4_000);
    assert_eq!(proposer.usdc, usdc_before - 4_000);
    assert_eq!(dao.proposals_active, 3);
    assert_eq!(proposal.state, ProposalState::Pending);
    assert_eq!(proposal.slot_enqueued, 10);
    assert_eq!(proposal.slots_duration, 100);
    // Both oracle clocks were started.
    assert_eq!(pass_amm.ltwap_slot_updated, 10);
    assert_eq!(fail_amm.ltwap_slot_updated, 10);
    // A second submission is rejected.
    assert_eq!(
        submit_proposal(
            &mut dao,
            &mut proposal,
            &mut instructions,
            &mut pass_amm,
            &mut fail_amm,
            &mut proposer,
            PROPOSER,
            INSTRUCTIONS_KEY,
            PASS_AMM_KEY,
            FAIL_AMM_KEY,
            GOVERNANCE,
            11,
        )
        .err(),
        Some(ErrorCode::ProposalAlreadySubmitted)
    );
}

#[test]
fn submission_requires_both_markets() {
    let mut dao = test_dao();
    let mut proposer = fresh_user(10_000_000, 10_000_000);
    let (mut proposal, mut vault) = create_proposal(
        &mut dao,
        &mut proposer,
        PROPOSER,
        PROPOSAL_KEY,
        VAULT_KEY,
        String::from("a"),
        5_000_000,
        8_000_000,
    )
    .unwrap();
    let (mut pass_amm, _) = create_proposal_market_side(
        &dao,
        &mut proposal,
        &mut vault,
        &mut proposer,
        PROPOSER,
        true,
        PASS_AMM_KEY,
        301,
        302,
        6,
        6,
        1_000_000,
        2_000_000,
        GOVERNANCE,
        0,
    )
    .unwrap();
    let params = futarchy::amm::CreateAmmParams {
        permissioned_caller: GOVERNANCE,
        swap_fee_bps: 300,
        ltwap_decimals: 9,
    };
    let mut orphan_fail_amm = futarchy::amm::create_amm(params, 303, 304, 6, 6, 0).unwrap();
    let mut instructions = create_proposal_instructions(
        &mut proposal,
        PROPOSAL_KEY,
        INSTRUCTIONS_KEY,
        PROPOSER,
        Vec::new(),
    )
    .unwrap();
    assert_eq!(
        submit_proposal(
            &mut dao,
            &mut proposal,
            &mut instructions,
            &mut pass_amm,
            &mut orphan_fail_amm,
            &mut proposer,
            PROPOSER,
            INSTRUCTIONS_KEY,
            PASS_AMM_KEY,
            0,
            GOVERNANCE,
            10,
        )
        .err(),
        Some(ErrorCode::MarketsNotCreated)
    );
}

/// A pending proposal whose markets carry the given published averages.
fn pending_for_finalize(pass_ltwap: u64, fail_ltwap: u64) -> (Dao, Proposal, Amm, Amm) {
    let Setup {
        mut dao,
        mut proposer,
        mut proposal,
        mut pass_amm,
        mut fail_amm,
        ..
    } = staged_proposal();
    let mut instructions = create_proposal_instructions(
        &mut proposal,
        PROPOSAL_KEY,
        INSTRUCTIONS_KEY,
        PROPOSER,
        Vec::new(),
    )
    .unwrap();
    submit_proposal(
        &mut dao,
        &mut proposal,
        &mut instructions,
        &mut pass_amm,
        &mut fail_amm,
        &mut proposer,
        PROPOSER,
        INSTRUCTIONS_KEY,
        PASS_AMM_KEY,
        FAIL_AMM_KEY,
        GOVERNANCE,
        0,
    )
    .unwrap();
    // Pin the published averages for the decision under test.
    pass_amm.ltwap_denominator_agg = 1;
    pass_amm.ltwap_numerator_agg = pass_ltwap as u128;
    pass_amm.ltwap_latest = pass_ltwap;
    fail_amm.ltwap_denominator_agg = 1;
    fail_amm.ltwap_numerator_agg = fail_ltwap as u128;
    fail_amm.ltwap_latest = fail_ltwap;
    (dao, proposal, pass_amm, fail_amm)
}

#[test]
fn finalize_compares_averages_against_threshold() {
    // Threshold of 500 bps over a fail average of 100: the pass market must
    // average above 105.
    let (mut dao, mut proposal, pass_amm, fail_amm) = pending_for_finalize(106, 100);
    let instructions = ProposalInstructions {
        proposer: PROPOSER,
        proposal: PROPOSAL_KEY,
        proposal_instructions_frozen: true,
        instructions: vec![example_instruction(900)],
    };
    let (state, dispatch) = finalize_proposal(
        &mut dao,
        &mut proposal,
        &instructions,
        &pass_amm,
        &fail_amm,
        INSTRUCTIONS_KEY,
        PASS_AMM_KEY,
        FAIL_AMM_KEY,
        TREASURY,
        100,
    )
    .unwrap();
    assert_eq!(state, ProposalState::Passed);
    assert_eq!(proposal.state, ProposalState::Passed);
    assert_eq!(dao.proposals_active, 0);
    // The dispatched copy grants the treasury signing authority.
    assert_eq!(dispatch.len(), 1);
    assert_eq!(dispatch[0].program_id, 900);
    assert_eq!(dispatch[0].data, vec![1, 2, 3, 4]);
    assert!(dispatch[0].accounts[0].is_signer);
    assert_eq!(dispatch[0].accounts[0].pubkey, TREASURY);
    assert!(!dispatch[0].accounts[1].is_signer);

    let (mut dao, mut proposal, pass_amm, fail_amm) = pending_for_finalize(104, 100);
    let (state, dispatch) = finalize_proposal(
        &mut dao,
        &mut proposal,
        &instructions,
        &pass_amm,
        &fail_amm,
        INSTRUCTIONS_KEY,
        PASS_AMM_KEY,
        FAIL_AMM_KEY,
        TREASURY,
        100,
    )
    .unwrap();
    assert_eq!(state, ProposalState::Failed);
    assert!(dispatch.is_empty());

    // An average exactly at the threshold does not pass.
    let (mut dao, mut proposal, pass_amm, fail_amm) = pending_for_finalize(105, 100);
    let (state, _) = finalize_proposal(
        &mut dao,
        &mut proposal,
        &instructions,
        &pass_amm,
        &fail_amm,
        INSTRUCTIONS_KEY,
        PASS_AMM_KEY,
        FAIL_AMM_KEY,
        TREASURY,
        100,
    )
    .unwrap();
    assert_eq!(state, ProposalState::Failed);
}

#[test]
fn finalize_rejects_early_and_repeated_calls() {
    let (mut dao, mut proposal, pass_amm, fail_amm) = pending_for_finalize(106, 100);
    let instructions = ProposalInstructions {
        proposer: PROPOSER,
        proposal: PROPOSAL_KEY,
        proposal_instructions_frozen: true,
        instructions: vec![example_instruction(900)],
    };
    assert_eq!(
        finalize_proposal(
            &mut dao,
            &mut proposal,
            &instructions,
            &pass_amm,
            &fail_amm,
            INSTRUCTIONS_KEY,
            PASS_AMM_KEY,
            FAIL_AMM_KEY,
            TREASURY,
            99,
        )
        .err(),
        Some(ErrorCode::ProposalTooYoung)
    );
    assert_eq!(proposal.state, ProposalState::Pending);
    finalize_proposal(
        &mut dao,
        &mut proposal,
        &instructions,
        &pass_amm,
        &fail_amm,
        INSTRUCTIONS_KEY,
        PASS_AMM_KEY,
        FAIL_AMM_KEY,
        TREASURY,
        100,
    )
    .unwrap();
    assert_eq!(proposal.state, ProposalState::Passed);
    // Finalize is idempotent-safe: the second call fails and nothing is
    // dispatched again.
    dao.proposals_active = 1;
    assert_eq!(
        finalize_proposal(
            &mut dao,
            &mut proposal,
            &instructions,
            &pass_amm,
            &fail_amm,
            INSTRUCTIONS_KEY,
            PASS_AMM_KEY,
            FAIL_AMM_KEY,
            TREASURY,
            101,
        )
        .err(),
        Some(ErrorCode::ProposalAlreadyFinalized)
    );
    assert_eq!(proposal.state, ProposalState::Passed);
}

#[test]
fn finalize_expires_after_grace_window() {
    // Even a clearly passing market fails once the grace window has gone by
    // unfinalized.
    let (mut dao, mut proposal, pass_amm, fail_amm) = pending_for_finalize(1_000, 100);
    let instructions = ProposalInstructions {
        proposer: PROPOSER,
        proposal: PROPOSAL_KEY,
        proposal_instructions_frozen: true,
        instructions: vec![example_instruction(900)],
    };
    let (state, dispatch) = finalize_proposal(
        &mut dao,
        &mut proposal,
        &instructions,
        &pass_amm,
        &fail_amm,
        INSTRUCTIONS_KEY,
        PASS_AMM_KEY,
        FAIL_AMM_KEY,
        TREASURY,
        150,
    )
    .unwrap();
    assert_eq!(state, ProposalState::Failed);
    assert!(dispatch.is_empty());
}

#[test]
fn escrow_stays_balanced_through_mint_and_merge() {
    let Setup { mut vault, .. } = staged_proposal();
    let balanced = |v: &ProposalVault| {
        v.meta_vault_balance == v.conditional_on_pass_meta_supply
            && v.meta_vault_balance == v.conditional_on_fail_meta_supply
            && v.usdc_vault_balance == v.conditional_on_pass_usdc_supply
            && v.usdc_vault_balance == v.conditional_on_fail_usdc_supply
    };
    assert!(balanced(&vault));
    let mut holder = fresh_user(1_000, 2_000);
    mint_conditional_tokens(&mut vault, &mut holder, 600, 900).unwrap();
    assert!(balanced(&vault));
    assert_eq!(holder.meta, 400);
    assert_eq!(holder.usdc, 1_100);
    assert_eq!(holder.conditional_on_pass_meta, 600);
    assert_eq!(holder.conditional_on_fail_meta, 600);
    assert_eq!(holder.conditional_on_pass_usdc, 900);
    assert_eq!(holder.conditional_on_fail_usdc, 900);
    assert_eq!(vault.meta_vault_balance, 5_000_600);
    merge_conditional_tokens(&mut vault, &mut holder, 200, 850).unwrap();
    assert!(balanced(&vault));
    assert_eq!(holder.meta, 600);
    assert_eq!(holder.usdc, 1_950);
    assert_eq!(holder.conditional_on_pass_meta, 400);
    assert_eq!(holder.conditional_on_fail_usdc, 50);
    assert_eq!(vault.meta_vault_balance, 5_000_400);
}

#[test]
fn mint_and_merge_validate_balances() {
    let Setup { mut vault, .. } = staged_proposal();
    let mut holder = fresh_user(100, 100);
    assert_eq!(
        mint_conditional_tokens(&mut vault, &mut holder, 101, 0).err(),
        Some(ErrorCode::InsufficientUnderlyingTokens)
    );
    mint_conditional_tokens(&mut vault, &mut holder, 100, 100).unwrap();
    assert_eq!(
        merge_conditional_tokens(&mut vault, &mut holder, 101, 0).err(),
        Some(ErrorCode::InsufficientConditionalTokens)
    );
}

#[test]
fn redeem_pays_winning_side_only() {
    let Setup { mut vault, .. } = staged_proposal();
    let mut holder = fresh_user(1_000, 1_000);
    mint_conditional_tokens(&mut vault, &mut holder, 700, 500).unwrap();
    // Simulate trading away part of the fail side.
    holder.conditional_on_fail_meta = 300;
    holder.conditional_on_fail_usdc = 100;
    assert_eq!(
        redeem_conditional_tokens(&mut vault, &mut holder, ProposalState::Pending).err(),
        Some(ErrorCode::ProposalStillPending)
    );
    let (meta_redeemed, usdc_redeemed) =
        redeem_conditional_tokens(&mut vault, &mut holder, ProposalState::Failed).unwrap();
    // On a failed proposal only the fail-conditional balances pay out; the
    // pass side burns worthless.
    assert_eq!((meta_redeemed, usdc_redeemed), (300, 100));
    assert_eq!(holder.meta, 600);
    assert_eq!(holder.usdc, 600);
    assert_eq!(holder.conditional_on_pass_meta, 0);
    assert_eq!(holder.conditional_on_fail_meta, 0);
    // The vault still backs every remaining fail-side token one for one.
    assert_eq!(vault.meta_vault_balance, vault.conditional_on_fail_meta_supply);
    assert_eq!(vault.usdc_vault_balance, vault.conditional_on_fail_usdc_supply);
}

#[test]
fn market_swap_is_gated_to_the_right_pool() {
    let Setup { dao, mut proposal, mut pass_amm, .. } = staged_proposal();
    proposal.slot_enqueued = 0;
    proposal.slots_duration = 100;
    // The wrong pool key is rejected before anything moves.
    assert_eq!(
        swap(&dao, &proposal, FAIL_AMM_KEY, &mut pass_amm, GOVERNANCE, true, 100_000, 0, true, 5)
            .err(),
        Some(ErrorCode::InvalidMarket)
    );
    let output =
        swap(&dao, &proposal, PASS_AMM_KEY, &mut pass_amm, GOVERNANCE, true, 100_000, 0, true, 5)
            .unwrap();
    assert_eq!(output, 46_257);
    // The oracle advanced along with the swap.
    assert_eq!(pass_amm.ltwap_slot_updated, 5);
    assert!(pass_amm.ltwap_denominator_agg > 0);
}

#[test]
fn market_swap_leaves_pool_untouched_on_failure() {
    let Setup { dao, proposal, mut pass_amm, .. } = staged_proposal();
    let before_denominator = pass_amm.ltwap_denominator_agg;
    let before_base = pass_amm.base_amount;
    assert_eq!(
        swap(
            &dao,
            &proposal,
            PASS_AMM_KEY,
            &mut pass_amm,
            GOVERNANCE,
            true,
            100_000,
            u64::MAX,
            true,
            5,
        )
        .err(),
        Some(ErrorCode::SwapSlippageExceeded)
    );
    assert_eq!(pass_amm.ltwap_denominator_agg, before_denominator);
    assert_eq!(pass_amm.base_amount, before_base);
    assert_eq!(pass_amm.ltwap_slot_updated, 0);
}

#[test]
fn proposer_cannot_pull_liquidity_during_window() {
    let Setup { dao, proposal, mut pass_amm, mut pass_position, .. } = staged_proposal();
    assert_eq!(
        remove_liquidity(
            &dao,
            &proposal,
            PASS_AMM_KEY,
            &mut pass_amm,
            &mut pass_position,
            GOVERNANCE,
            5_000,
            true,
            50,
        )
        .err(),
        Some(ErrorCode::ProposerCannotPullLiquidityWhileMarketIsPending)
    );
    // Once the window has elapsed the proposer may withdraw.
    let (base_out, quote_out) = remove_liquidity(
        &dao,
        &proposal,
        PASS_AMM_KEY,
        &mut pass_amm,
        &mut pass_position,
        GOVERNANCE,
        5_000,
        true,
        200,
    )
    .unwrap();
    assert_eq!((base_out, quote_out), (500_000, 1_000_000));
}

#[test]
fn market_liquidity_tracks_ownership() {
    let Setup { dao, proposal, mut pass_amm, .. } = staged_proposal();
    let mut trader_position =
        futarchy::amm::create_position(&pass_amm, GOVERNANCE, 60, PASS_AMM_KEY).unwrap();
    let (base_used, quote_used) = add_liquidity(
        &dao,
        &proposal,
        PASS_AMM_KEY,
        &mut pass_amm,
        &mut trader_position,
        GOVERNANCE,
        500_000,
        1_000_000,
        true,
        5,
    )
    .unwrap();
    assert_eq!((base_used, quote_used), (500_000, 1_000_000));
    assert_eq!(trader_position.ownership, 1_000_000);
    assert_eq!(pass_amm.total_ownership, 3_000_000);
    let (base_out, quote_out) = remove_liquidity(
        &dao,
        &proposal,
        PASS_AMM_KEY,
        &mut pass_amm,
        &mut trader_position,
        GOVERNANCE,
        10_000,
        true,
        6,
    )
    .unwrap();
    assert_eq!((base_out, quote_out), (500_000, 1_000_000));
    assert_eq!(trader_position.ownership, 0);
    assert_eq!(pass_amm.total_ownership, 2_000_000);
}

#[test]
fn submission_fee_rejects_unrepresentable_doubling() {
    let Setup {
        mut dao,
        mut proposer,
        mut proposal,
        mut pass_amm,
        mut fail_amm,
        ..
    } = staged_proposal();
    let mut instructions = create_proposal_instructions(
        &mut proposal,
        PROPOSAL_KEY,
        INSTRUCTIONS_KEY,
        PROPOSER,
        Vec::new(),
    )
    .unwrap();
    // Doubling the fee 64 times does not fit a 64-bit amount.
    dao.proposals_active = 64;
    assert_eq!(
        submit_proposal(
            &mut dao,
            &mut proposal,
            &mut instructions,
            &mut pass_amm,
            &mut fail_amm,
            &mut proposer,
            PROPOSER,
            INSTRUCTIONS_KEY,
            PASS_AMM_KEY,
            FAIL_AMM_KEY,
            GOVERNANCE,
            10,
        )
        .err(),
        Some(ErrorCode::ArithmeticError)
    );
    assert_eq!(proposal.state, ProposalState::Initialize);
    assert!(!instructions.proposal_instructions_frozen);
}

#[test]
fn empty_instruction_list_has_zero_size() {
    assert_eq!(get_instructions_size(&Vec::new()), 0);
    let lone = vec![ProposalInstruction { program_id: 900, accounts: Vec::new(), data: Vec::new() }];
    assert_eq!(get_instructions_size(&lone), 40);
}

#[test]
fn dao_update_changes_only_supplied_fields() {
    let mut dao = initialize_dao(99, TREASURY, META_MINT, USDC_MINT);
    let duration_before = dao.proposal_duration_slots;
    update_dao(
        &mut dao,
        UpdateDaoParams {
            pass_threshold_bps: Some(750),
            proposal_duration_slots: None,
            finalize_window_slots: None,
            proposal_fee_usdc: Some(5),
            amm_initial_quote_liquidity_amount: None,
            amm_swap_fee_bps: None,
            amm_ltwap_decimals: None,
        },
    );
    assert_eq!(dao.pass_threshold_bps, 750);
    assert_eq!(dao.proposal_fee_usdc, 5);
    assert_eq!(dao.proposal_duration_slots, duration_before);
    assert_eq!(dao.meta_mint, META_MINT);
}
