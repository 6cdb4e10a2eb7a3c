//! Ledger-resident services of a small gaming platform: a verifiable
//! randomness oracle, a wagering game settled from its output, and the
//! bookkeeping contracts that surround them.
//!
//! Each contract is a value that holds its own state; an operation takes the
//! authenticated invoker, and the ledger time or sequence where it needs one,
//! as arguments. Token movements go through a [`token::TokenLedger`], and an
//! operation that fails leaves every value it was handed as it found it.
use vstd::prelude::*;

pub mod rng;
pub mod token;
pub mod number_guess;
pub mod monitoring;
pub mod circuit_breaker;
pub mod upgrade_timelock;
pub mod escrow_vault;
pub mod call_guard;
pub mod governance_token;
pub mod penalty_slashing;
pub mod settlement_queue;
pub mod epoch_scheduler;
pub mod treasury_allocation;
pub mod reward_vesting;
pub mod oracle_integration;
pub mod matchmaking_queue;
pub mod health_registry;
pub mod gas_analysis;
pub mod metadata_registry;
pub mod session_nonce;
pub mod vip_subscription;
pub mod fee_policy;
pub mod reward_emission;
pub mod interaction_library;
pub mod revenue_split;

verus! {

/// An account or contract identity on the ledger.
///
/// The host authenticates whoever invokes an operation; an `Address` handed to
/// an operation of this library names that authenticated principal.
#[derive(Clone, Copy, Debug, PartialEq, Eq, Structural, Hash)]
pub struct Address(pub u64);

} // verus!
