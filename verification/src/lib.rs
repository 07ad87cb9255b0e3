//! A custodial dead-man's-switch vault.
//!
//! A depositor locks a reserve of lamports, receives a fungible
//! claim-receipt token minted 1:1 against the deposit, and must
//! periodically prove activity with a heartbeat. Once the depositor has
//! been inactive for longer than the configured window, anyone may
//! trigger an inheritance event that burns the outstanding claim-receipt
//! supply and distributes the reserve to a pre-declared list of
//! beneficiaries by proportional share, paying a fixed reward to the
//! caller who triggered it.
//!
//! The ledger and token engine are external collaborators; this crate
//! models them at their interface ([`state::Mint`],
//! [`state::TokenAccount`], plain lamport balances) and verifies the
//! vault lifecycle engine and the transfer policy guard against that
//! model. Every operation takes the bounded set of accounts it declares,
//! and either fully succeeds or fails with a distinct error and no state
//! change.

pub mod add_sol;
pub mod distribution;
pub mod errors;
pub mod initialize;
pub mod ping;
pub mod redeem;
pub mod state;
pub mod transfer_hook;
pub mod trigger_inheritance;
