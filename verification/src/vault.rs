//! The conditional-token escrow.
//!
//! The vault holds underlying collateral one-for-one against the outstanding
//! conditional tokens: minting deposits collateral and issues equal amounts
//! of the pass- and fail-conditional token, merging burns both sides and
//! releases collateral, and redemption — once the proposal is resolved —
//! burns a holder's entire conditional balances and releases collateral
//! equal to the winning side only.

use vstd::prelude::*;

use crate::error::ErrorCode;
use crate::proposal::{is_terminal, ProposalState};
use crate::Pubkey;

verus! {

/// The escrow vault of one proposal.
///
/// The vault tracks, for each underlying asset, the collateral it holds and
/// the outstanding supply of the two conditional tokens minted against it.
pub struct ProposalVault {
    /// The proposal the vault belongs to.
    pub proposal: Pubkey,
    /// Underlying base (governance) collateral held.
    pub meta_vault_balance: u64,
    /// Underlying quote collateral held.
    pub usdc_vault_balance: u64,
    /// Outstanding supply of the pass-conditional base token.
    pub conditional_on_pass_meta_supply: u64,
    /// Outstanding supply of the pass-conditional quote token.
    pub conditional_on_pass_usdc_supply: u64,
    /// Outstanding supply of the fail-conditional base token.
    pub conditional_on_fail_meta_supply: u64,
    /// Outstanding supply of the fail-conditional quote token.
    pub conditional_on_fail_usdc_supply: u64,
}

/// One holder's balances of the tokens a proposal touches.
pub struct UserBalances {
    /// Underlying base (governance) tokens.
    pub meta: u64,
    /// Underlying quote tokens.
    pub usdc: u64,
    /// Pass-conditional base tokens.
    pub conditional_on_pass_meta: u64,
    /// Pass-conditional quote tokens.
    pub conditional_on_pass_usdc: u64,
    /// Fail-conditional base tokens.
    pub conditional_on_fail_meta: u64,
    /// Fail-conditional quote tokens.
    pub conditional_on_fail_usdc: u64,
}

impl ProposalVault {
    /// Escrow conservation: each underlying balance equals the outstanding
    /// supply on both of its conditional sides. Established when the vault
    /// is funded and preserved by every mint and merge.
    pub open spec fn escrow_balanced(self) -> bool {
        &&& self.meta_vault_balance == self.conditional_on_pass_meta_supply
        &&& self.meta_vault_balance == self.conditional_on_fail_meta_supply
        &&& self.usdc_vault_balance == self.conditional_on_pass_usdc_supply
        &&& self.usdc_vault_balance == self.conditional_on_fail_usdc_supply
    }

    /// `user`'s conditional balances are covered by the outstanding
    /// supplies, as the ledger guarantees for any single holder.
    pub open spec fn covers_user(self, user: UserBalances) -> bool {
        &&& user.conditional_on_pass_meta <= self.conditional_on_pass_meta_supply
        &&& user.conditional_on_pass_usdc <= self.conditional_on_pass_usdc_supply
        &&& user.conditional_on_fail_meta <= self.conditional_on_fail_meta_supply
        &&& user.conditional_on_fail_usdc <= self.conditional_on_fail_usdc_supply
    }
}

/// Mints `meta_amount` and `usdc_amount` of both conditional token sides
/// against an equal deposit of underlying collateral.
///
/// Conditional tokens are never minted without the matching escrow deposit:
/// the vault balance and both conditional supplies grow in lockstep, so the
/// escrow stays balanced.
pub fn mint_conditional_tokens(
    vault: &mut ProposalVault,
    user: &mut UserBalances,
    meta_amount: u64,
    usdc_amount: u64,
) -> (r: Result<(), ErrorCode>)
    requires
        old(vault).escrow_balanced(),
        old(vault).covers_user(*old(user)),
    ensures
        final(vault).escrow_balanced(),
        final(vault).proposal == old(vault).proposal,
        final(vault).covers_user(*final(user)),
        match r {
            Ok(()) => {
                &&& meta_amount <= old(user).meta
                &&& usdc_amount <= old(user).usdc
                &&& old(vault).meta_vault_balance + meta_amount <= u64::MAX
                &&& old(vault).usdc_vault_balance + usdc_amount <= u64::MAX
                &&& *final(vault) == (ProposalVault {
                    meta_vault_balance: (old(vault).meta_vault_balance + meta_amount) as u64,
                    usdc_vault_balance: (old(vault).usdc_vault_balance + usdc_amount) as u64,
                    conditional_on_pass_meta_supply: (old(
                        vault).conditional_on_pass_meta_supply + meta_amount) as u64,
                    conditional_on_pass_usdc_supply: (old(
                        vault).conditional_on_pass_usdc_supply + usdc_amount) as u64,
                    conditional_on_fail_meta_supply: (old(
                        vault).conditional_on_fail_meta_supply + meta_amount) as u64,
                    conditional_on_fail_usdc_supply: (old(
                        vault).conditional_on_fail_usdc_supply + usdc_amount) as u64,
                    ..*old(vault)
                })
                &&& *final(user) == (UserBalances {
                    meta: (old(user).meta - meta_amount) as u64,
                    usdc: (old(user).usdc - usdc_amount) as u64,
                    conditional_on_pass_meta: (old(user).conditional_on_pass_meta
                        + meta_amount) as u64,
                    conditional_on_pass_usdc: (old(user).conditional_on_pass_usdc
                        + usdc_amount) as u64,
                    conditional_on_fail_meta: (old(user).conditional_on_fail_meta
                        + meta_amount) as u64,
                    conditional_on_fail_usdc: (old(user).conditional_on_fail_usdc
                        + usdc_amount) as u64,
                })
            },
            Err(e) => {
                &&& *final(vault) == *old(vault)
                &&& *final(user) == *old(user)
                &&& if meta_amount > old(user).meta || usdc_amount > old(user).usdc {
                    e == ErrorCode::InsufficientUnderlyingTokens
                } else {
                    e == ErrorCode::ArithmeticError && (old(vault).meta_vault_balance
                        + meta_amount > u64::MAX || old(vault).usdc_vault_balance + usdc_amount
                        > u64::MAX)
                }
            },
        },
{
    if meta_amount > user.meta || usdc_amount > user.usdc {
        return Err(ErrorCode::InsufficientUnderlyingTokens);
    }
    let new_meta_balance = match vault.meta_vault_balance.checked_add(meta_amount) {
        Some(v) => v,
        None => return Err(ErrorCode::ArithmeticError),
    };
    let new_usdc_balance = match vault.usdc_vault_balance.checked_add(usdc_amount) {
        Some(v) => v,
        None => return Err(ErrorCode::ArithmeticError),
    };
    vault.meta_vault_balance = new_meta_balance;
    vault.usdc_vault_balance = new_usdc_balance;
    vault.conditional_on_pass_meta_supply = vault.conditional_on_pass_meta_supply + meta_amount;
    vault.conditional_on_fail_meta_supply = vault.conditional_on_fail_meta_supply + meta_amount;
    vault.conditional_on_pass_usdc_supply = vault.conditional_on_pass_usdc_supply + usdc_amount;
    vault.conditional_on_fail_usdc_supply = vault.conditional_on_fail_usdc_supply + usdc_amount;
    user.meta = user.meta - meta_amount;
    user.usdc = user.usdc - usdc_amount;
    user.conditional_on_pass_meta = user.conditional_on_pass_meta + meta_amount;
    user.conditional_on_fail_meta = user.conditional_on_fail_meta + meta_amount;
    user.conditional_on_pass_usdc = user.conditional_on_pass_usdc + usdc_amount;
    user.conditional_on_fail_usdc = user.conditional_on_fail_usdc + usdc_amount;
    Ok(())
}

/// Burns `meta_amount` and `usdc_amount` from both conditional sides and
/// releases the matching underlying collateral.
///
/// The inverse of `mint_conditional_tokens`, usable at any time — not gated
/// on proposal resolution — so a hedged holder can flatten a position
/// early. The escrow stays balanced.
pub fn merge_conditional_tokens(
    vault: &mut ProposalVault,
    user: &mut UserBalances,
    meta_amount: u64,
    usdc_amount: u64,
) -> (r: Result<(), ErrorCode>)
    requires
        old(vault).escrow_balanced(),
        old(vault).covers_user(*old(user)),
    ensures
        final(vault).escrow_balanced(),
        final(vault).proposal == old(vault).proposal,
        final(vault).covers_user(*final(user)),
        match r {
            Ok(()) => {
                &&& meta_amount <= old(user).conditional_on_pass_meta
                &&& meta_amount <= old(user).conditional_on_fail_meta
                &&& usdc_amount <= old(user).conditional_on_pass_usdc
                &&& usdc_amount <= old(user).conditional_on_fail_usdc
                &&& *final(vault) == (ProposalVault {
                    meta_vault_balance: (old(vault).meta_vault_balance - meta_amount) as u64,
                    usdc_vault_balance: (old(vault).usdc_vault_balance - usdc_amount) as u64,
                    conditional_on_pass_meta_supply: (old(
                        vault).conditional_on_pass_meta_supply - meta_amount) as u64,
                    conditional_on_pass_usdc_supply: (old(
                        vault).conditional_on_pass_usdc_supply - usdc_amount) as u64,
                    conditional_on_fail_meta_supply: (old(
                        vault).conditional_on_fail_meta_supply - meta_amount) as u64,
                    conditional_on_fail_usdc_supply: (old(
                        vault).conditional_on_fail_usdc_supply - usdc_amount) as u64,
                    ..*old(vault)
                })
                &&& *final(user) == (UserBalances {
                    meta: (old(user).meta + meta_amount) as u64,
                    usdc: (old(user).usdc + usdc_amount) as u64,
                    conditional_on_pass_meta: (old(user).conditional_on_pass_meta
                        - meta_amount) as u64,
                    conditional_on_pass_usdc: (old(user).conditional_on_pass_usdc
                        - usdc_amount) as u64,
                    conditional_on_fail_meta: (old(user).conditional_on_fail_meta
                        - meta_amount) as u64,
                    conditional_on_fail_usdc: (old(user).conditional_on_fail_usdc
                        - usdc_amount) as u64,
                })
            },
            Err(e) => {
                &&& *final(vault) == *old(vault)
                &&& *final(user) == *old(user)
                &&& if meta_amount > old(user).conditional_on_pass_meta || meta_amount > old(
                    user).conditional_on_fail_meta || usdc_amount > old(user).conditional_on_pass_usdc
                    || usdc_amount > old(user).conditional_on_fail_usdc {
                    e == ErrorCode::InsufficientConditionalTokens
                } else {
                    e == ErrorCode::ArithmeticError && (old(user).meta + meta_amount > u64::MAX
                        || old(user).usdc + usdc_amount > u64::MAX)
                }
            },
        },
{
    if meta_amount > user.conditional_on_pass_meta || meta_amount
        > user.conditional_on_fail_meta || usdc_amount > user.conditional_on_pass_usdc
        || usdc_amount > user.conditional_on_fail_usdc {
        return Err(ErrorCode::InsufficientConditionalTokens);
    }
    let new_user_meta = match user.meta.checked_add(meta_amount) {
        Some(v) => v,
        None => return Err(ErrorCode::ArithmeticError),
    };
    let new_user_usdc = match user.usdc.checked_add(usdc_amount) {
        Some(v) => v,
        None => return Err(ErrorCode::ArithmeticError),
    };
    vault.conditional_on_pass_meta_supply = vault.conditional_on_pass_meta_supply - meta_amount;
    vault.conditional_on_fail_meta_supply = vault.conditional_on_fail_meta_supply - meta_amount;
    vault.conditional_on_pass_usdc_supply = vault.conditional_on_pass_usdc_supply - usdc_amount;
    vault.conditional_on_fail_usdc_supply = vault.conditional_on_fail_usdc_supply - usdc_amount;
    vault.meta_vault_balance = vault.meta_vault_balance - meta_amount;
    vault.usdc_vault_balance = vault.usdc_vault_balance - usdc_amount;
    user.conditional_on_pass_meta = user.conditional_on_pass_meta - meta_amount;
    user.conditional_on_fail_meta = user.conditional_on_fail_meta - meta_amount;
    user.conditional_on_pass_usdc = user.conditional_on_pass_usdc - usdc_amount;
    user.conditional_on_fail_usdc = user.conditional_on_fail_usdc - usdc_amount;
    user.meta = new_user_meta;
    user.usdc = new_user_usdc;
    Ok(())
}

/// Burns the holder's entire balance of all four conditional tokens and
/// releases underlying collateral equal to the winning side only; the
/// losing side's tokens are burned worthless.
///
/// Permitted only once the proposal is resolved; returns the `(meta, usdc)`
/// amounts released. Afterwards each underlying balance still equals the
/// outstanding supply of its winning conditional side, so every remaining
/// holder stays covered.
pub fn redeem_conditional_tokens(
    vault: &mut ProposalVault,
    user: &mut UserBalances,
    proposal_state: ProposalState,
) -> (r: Result<(u64, u64), ErrorCode>)
    requires
        old(vault).escrow_balanced(),
        old(vault).covers_user(*old(user)),
    ensures
        final(vault).proposal == old(vault).proposal,
        match r {
            Ok(redeemed) => {
                &&& is_terminal(proposal_state)
                &&& redeemed.0 == if proposal_state == ProposalState::Passed {
                    old(user).conditional_on_pass_meta
                } else {
                    old(user).conditional_on_fail_meta
                }
                &&& redeemed.1 == if proposal_state == ProposalState::Passed {
                    old(user).conditional_on_pass_usdc
                } else {
                    old(user).conditional_on_fail_usdc
                }
                &&& *final(vault) == (ProposalVault {
                    meta_vault_balance: (old(vault).meta_vault_balance - redeemed.0) as u64,
                    usdc_vault_balance: (old(vault).usdc_vault_balance - redeemed.1) as u64,
                    conditional_on_pass_meta_supply: (old(
                        vault).conditional_on_pass_meta_supply - old(user).conditional_on_pass_meta)
                        as u64,
                    conditional_on_pass_usdc_supply: (old(
                        vault).conditional_on_pass_usdc_supply - old(user).conditional_on_pass_usdc)
                        as u64,
                    conditional_on_fail_meta_supply: (old(
                        vault).conditional_on_fail_meta_supply - old(user).conditional_on_fail_meta)
                        as u64,
                    conditional_on_fail_usdc_supply: (old(
                        vault).conditional_on_fail_usdc_supply - old(user).conditional_on_fail_usdc)
                        as u64,
                    ..*old(vault)
                })
                &&& *final(user) == (UserBalances {
                    meta: (old(user).meta + redeemed.0) as u64,
                    usdc: (old(user).usdc + redeemed.1) as u64,
                    conditional_on_pass_meta: 0u64,
                    conditional_on_pass_usdc: 0u64,
                    conditional_on_fail_meta: 0u64,
                    conditional_on_fail_usdc: 0u64,
                })
                &&& final(vault).meta_vault_balance == if proposal_state
                    == ProposalState::Passed {
                    final(vault).conditional_on_pass_meta_supply
                } else {
                    final(vault).conditional_on_fail_meta_supply
                }
                &&& final(vault).usdc_vault_balance == if proposal_state
                    == ProposalState::Passed {
                    final(vault).conditional_on_pass_usdc_supply
                } else {
                    final(vault).conditional_on_fail_usdc_supply
                }
            },
            Err(e) => {
                &&& *final(vault) == *old(vault)
                &&& *final(user) == *old(user)
                &&& if !is_terminal(proposal_state) {
                    e == ErrorCode::ProposalStillPending
                } else {
                    let meta_win = if proposal_state == ProposalState::Passed {
                        old(user).conditional_on_pass_meta
                    } else {
                        old(user).conditional_on_fail_meta
                    };
                    let usdc_win = if proposal_state == ProposalState::Passed {
                        old(user).conditional_on_pass_usdc
                    } else {
                        old(user).conditional_on_fail_usdc
                    };
                    e == ErrorCode::ArithmeticError && (old(user).meta + meta_win > u64::MAX
                        || old(user).usdc + usdc_win > u64::MAX)
                }
            },
        },
{
    if !(matches!(proposal_state, ProposalState::Passed) || matches!(
        proposal_state,
        ProposalState::Failed,
    )) {
        return Err(ErrorCode::ProposalStillPending);
    }
    let meta_redeemed = if matches!(proposal_state, ProposalState::Passed) {
        user.conditional_on_pass_meta
    } else {
        user.conditional_on_fail_meta
    };
    let usdc_redeemed = if matches!(proposal_state, ProposalState::Passed) {
        user.conditional_on_pass_usdc
    } else {
        user.conditional_on_fail_usdc
    };
    let new_user_meta = match user.meta.checked_add(meta_redeemed) {
        Some(v) => v,
        None => return Err(ErrorCode::ArithmeticError),
    };
    let new_user_usdc = match user.usdc.checked_add(usdc_redeemed) {
        Some(v) => v,
        None => return Err(ErrorCode::ArithmeticError),
    };
    vault.conditional_on_pass_meta_supply = vault.conditional_on_pass_meta_supply
        - user.conditional_on_pass_meta;
    vault.conditional_on_pass_usdc_supply = vault.conditional_on_pass_usdc_supply
        - user.conditional_on_pass_usdc;
    vault.conditional_on_fail_meta_supply = vault.conditional_on_fail_meta_supply
        - user.conditional_on_fail_meta;
    vault.conditional_on_fail_usdc_supply = vault.conditional_on_fail_usdc_supply
        - user.conditional_on_fail_usdc;
    vault.meta_vault_balance = vault.meta_vault_balance - meta_redeemed;
    vault.usdc_vault_balance = vault.usdc_vault_balance - usdc_redeemed;
    user.conditional_on_pass_meta = 0;
    user.conditional_on_pass_usdc = 0;
    user.conditional_on_fail_meta = 0;
    user.conditional_on_fail_usdc = 0;
    user.meta = new_user_meta;
    user.usdc = new_user_usdc;
    Ok((meta_redeemed, usdc_redeemed))
}

} // verus!
