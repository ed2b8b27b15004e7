//! A verified core for futarchy governance: binary proposals are decided by
//! comparing the liquidity-time-weighted average prices (LTWAP) of two
//! parallel conditional-token markets, a "pass" market and a "fail" market.
//!
//! The crate models the settlement-critical state over plain integers and
//! proves its behaviour: a constant-product market maker whose invariant
//! never decreases across a successful swap, proportional liquidity
//! accounting that conserves ownership shares, an oracle whose average never
//! leaves the range of observed prices, a conditional-token escrow that
//! always backs outstanding supply one-for-one, and a proposal state machine
//! whose transitions only move forward.
//!
//! The surrounding ledger (account storage, signature checks, token
//! transfers, clock) is treated as an external collaborator: callers hand in
//! authenticated identities, balances and the current slot as plain values,
//! and perform the token movements that the functions here compute.

pub mod amm;
pub mod autocrat;
pub mod dao;
pub mod error;
pub mod math;
pub mod proposal;
pub mod vault;

use vstd::prelude::*;

verus! {

/// An account address on the surrounding ledger.
///
/// Addresses are deterministically derived, opaque identifiers; nothing in
/// the core logic reads their structure, so they are modeled as plain
/// integers handed in by the caller. The zero address stands for the ledger's
/// default (unset) key.
pub type Pubkey = u64;

} // verus!
