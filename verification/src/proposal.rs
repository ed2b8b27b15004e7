//! Proposals, their life-cycle states, and the embedded instruction lists
//! they carry.
//!
//! A proposal moves strictly forward through
//! `Initialize -> Pending -> {Passed | Failed}`; the two resolved states are
//! terminal. Its instruction list may grow only while the proposal is in
//! `Initialize` and is frozen the moment it is submitted.

use vstd::prelude::*;

use crate::error::ErrorCode;
use crate::Pubkey;

verus! {

/// Life-cycle state of a proposal.
#[derive(Debug, Clone, Copy, PartialEq, Eq, Structural)]
pub enum ProposalState {
    /// Being assembled by the proposer: markets are created and the
    /// instruction list may still grow.
    Initialize,
    /// Submitted: the trading window is running and the instruction list is
    /// frozen.
    Pending,
    /// Resolved in favour; the embedded instructions were dispatched.
    Passed,
    /// Resolved against; the embedded instructions were discarded.
    Failed,
}

/// How far along its life cycle a state is. Transitions only ever increase
/// this rank, and the two terminal states share the highest rank.
pub open spec fn state_rank(s: ProposalState) -> int {
    match s {
        ProposalState::Initialize => 0,
        ProposalState::Pending => 1,
        ProposalState::Passed => 2,
        ProposalState::Failed => 2,
    }
}

/// Whether a proposal state is terminal.
pub open spec fn is_terminal(s: ProposalState) -> bool {
    s == ProposalState::Passed || s == ProposalState::Failed
}

/// One proposal under futarchy governance.
pub struct Proposal {
    /// Strictly increasing sequence number, with no gaps.
    pub number: u64,
    /// The proposer's identity.
    pub proposer: Pubkey,
    /// Where the proposal is described, at most 100 bytes.
    pub description_url: String,
    /// Slot at which the proposal was submitted.
    pub slot_enqueued: u64,
    /// Length of the trading window, in slots.
    pub slots_duration: u64,
    /// Life-cycle state.
    pub state: ProposalState,
    /// Address of the proposal's instruction list.
    pub instructions: Pubkey,
    /// Address of the escrow vault backing the conditional tokens.
    pub proposal_vault: Pubkey,
    /// Whether the pass market side has been created.
    pub is_pass_market_created: bool,
    /// Whether the fail market side has been created.
    pub is_fail_market_created: bool,
    /// Mint of the underlying base (governance) token.
    pub meta_mint: Pubkey,
    /// Mint of the underlying quote token.
    pub usdc_mint: Pubkey,
    /// Address of the pass market's pool.
    pub pass_market_amm: Pubkey,
    /// Address of the fail market's pool.
    pub fail_market_amm: Pubkey,
    /// Mint of the pass-conditional base token.
    pub conditional_on_pass_meta_mint: Pubkey,
    /// Mint of the pass-conditional quote token.
    pub conditional_on_pass_usdc_mint: Pubkey,
    /// Mint of the fail-conditional base token.
    pub conditional_on_fail_meta_mint: Pubkey,
    /// Mint of the fail-conditional quote token.
    pub conditional_on_fail_usdc_mint: Pubkey,
    /// Base collateral the proposer committed at creation.
    pub proposer_initial_conditional_meta_minted: u64,
    /// Quote collateral the proposer committed at creation.
    pub proposer_initial_conditional_usdc_minted: u64,
}

/// One account reference inside an embedded instruction.
#[derive(Debug, Clone, Copy, PartialEq, Eq, Structural)]
pub struct ProposalAccount {
    /// The referenced account.
    pub pubkey: Pubkey,
    /// Whether the account signs the dispatched instruction.
    pub is_signer: bool,
    /// Whether the account may be written by the dispatched instruction.
    pub is_writable: bool,
}

/// One externally defined action descriptor a proposal carries.
pub struct ProposalInstruction {
    /// The program the instruction targets.
    pub program_id: Pubkey,
    /// The accounts handed to the target.
    pub accounts: Vec<ProposalAccount>,
    /// Opaque payload handed to the target.
    pub data: Vec<u8>,
}

/// The instruction list attached to one proposal: append-only while the
/// proposal is in `Initialize`, immutable once frozen.
pub struct ProposalInstructions {
    /// Who attached the list.
    pub proposer: Pubkey,
    /// The proposal the list belongs to.
    pub proposal: Pubkey,
    /// Set at submission; no append is accepted afterwards.
    pub proposal_instructions_frozen: bool,
    /// The action descriptors themselves.
    pub instructions: Vec<ProposalInstruction>,
}

/// Serialized size of one embedded instruction: the target id, two
/// length prefixes, 34 bytes per account reference, and the payload.
pub open spec fn instruction_size(ix: ProposalInstruction) -> int {
    32 + 4 + ix.accounts@.len() * (32 + 1 + 1) + 4 + ix.data@.len() as int
}

/// Serialized size of a list of embedded instructions.
pub open spec fn instructions_size(s: Seq<ProposalInstruction>) -> int
    decreases s.len(),
{
    if s.len() == 0 {
        0
    } else {
        instructions_size(s.drop_last()) + instruction_size(s.last())
    }
}

/// A prefix of a list never serializes larger than the whole list.
proof fn lemma_instructions_size_prefix(s: Seq<ProposalInstruction>, i: int)
    requires
        0 <= i <= s.len(),
    ensures
        0 <= instructions_size(s.take(i)) <= instructions_size(s),
    decreases s.len(),
{
    if s.len() == 0 {
        assert(s.take(i) =~= s);
    } else if i == s.len() {
        assert(s.take(i) =~= s);
        lemma_instructions_size_prefix(s.drop_last(), s.len() - 1);
    } else {
        assert(s.take(i) =~= s.drop_last().take(i));
        lemma_instructions_size_prefix(s.drop_last(), i);
    }
}

/// Taking one more element adds exactly its size.
proof fn lemma_instructions_size_take_succ(s: Seq<ProposalInstruction>, i: int)
    requires
        0 <= i < s.len(),
    ensures
        instructions_size(s.take(i + 1)) == instructions_size(s.take(i)) + instruction_size(s[i]),
{
    assert(s.take(i + 1).drop_last() =~= s.take(i));
    assert(s.take(i + 1).last() == s[i]);
}

/// The serialized size of `instructions`.
pub fn get_instructions_size(instructions: &Vec<ProposalInstruction>) -> (r: usize)
    requires
        instructions_size(instructions@) <= usize::MAX,
    ensures
        r == instructions_size(instructions@),
{
    let mut accumulator: usize = 0;
    let mut i: usize = 0;
    while i < instructions.len()
        invariant
            0 <= i <= instructions.len(),
            accumulator == instructions_size(instructions@.take(i as int)),
            instructions_size(instructions@) <= usize::MAX,
        decreases instructions.len() - i,
    {
        proof {
            lemma_instructions_size_take_succ(instructions@, i as int);
            lemma_instructions_size_prefix(instructions@, i + 1);
        }
        let ix = &instructions[i];
        accumulator = accumulator + 32 + 4 + ix.accounts.len() * (32 + 1 + 1) + 4 + ix.data.len();
        i = i + 1;
    }
    proof {
        assert(instructions@.take(instructions@.len() as int) =~= instructions@);
    }
    accumulator
}

/// Attaches an instruction list to a proposal still in `Initialize`,
/// recording the list's address on the proposal.
pub fn create_proposal_instructions(
    proposal: &mut Proposal,
    proposal_key: Pubkey,
    instructions_key: Pubkey,
    proposer: Pubkey,
    instructions: Vec<ProposalInstruction>,
) -> (r: Result<ProposalInstructions, ErrorCode>)
    ensures
        match r {
            Ok(pi) => {
                &&& old(proposal).state == ProposalState::Initialize
                &&& pi.proposer == proposer
                &&& pi.proposal == proposal_key
                &&& pi.proposal_instructions_frozen == false
                &&& pi.instructions@ == instructions@
                &&& *final(proposal) == (Proposal { instructions: instructions_key, ..*old(
                    proposal) })
            },
            Err(e) => {
                &&& e == ErrorCode::ProposalAlreadySubmitted
                &&& old(proposal).state != ProposalState::Initialize
                &&& *final(proposal) == *old(proposal)
            },
        },
{
    if !matches!(proposal.state, ProposalState::Initialize) {
        return Err(ErrorCode::ProposalAlreadySubmitted);
    }
    proposal.instructions = instructions_key;
    Ok(
        ProposalInstructions {
            proposer,
            proposal: proposal_key,
            proposal_instructions_frozen: false,
            instructions,
        },
    )
}

/// Appends further instructions to a proposal's list.
///
/// Accepted only while the list is not frozen and the proposal is still in
/// `Initialize`; the list is append-only, so everything already attached
/// stays in place.
pub fn add_proposal_instructions(
    proposal: &Proposal,
    proposal_instructions: &mut ProposalInstructions,
    proposal_instructions_key: Pubkey,
    instructions: Vec<ProposalInstruction>,
) -> (r: Result<(), ErrorCode>)
    requires
        proposal_instructions_key == proposal.instructions,
    ensures
        final(proposal_instructions).proposer == old(proposal_instructions).proposer,
        final(proposal_instructions).proposal == old(proposal_instructions).proposal,
        match r {
            Ok(()) => {
                &&& !old(proposal_instructions).proposal_instructions_frozen
                &&& proposal.state == ProposalState::Initialize
                &&& !final(proposal_instructions).proposal_instructions_frozen
                &&& final(proposal_instructions).instructions@ == old(
                    proposal_instructions).instructions@ + instructions@
            },
            Err(e) => {
                &&& *final(proposal_instructions) == *old(proposal_instructions)
                &&& if old(proposal_instructions).proposal_instructions_frozen {
                    e == ErrorCode::ProposalInstructionsFrozen
                } else {
                    e == ErrorCode::ProposalAlreadySubmitted && proposal.state
                        != ProposalState::Initialize
                }
            },
        },
{
    if proposal_instructions.proposal_instructions_frozen {
        return Err(ErrorCode::ProposalInstructionsFrozen);
    }
    if !matches!(proposal.state, ProposalState::Initialize) {
        return Err(ErrorCode::ProposalAlreadySubmitted);
    }
    let mut extra = instructions;
    proposal_instructions.instructions.append(&mut extra);
    Ok(())
}

} // verus!
