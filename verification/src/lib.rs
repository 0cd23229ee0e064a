//! A minimal deterministic state-transition runtime.
//!
//! A fixed set of modules ("pallets"), each owning a disjoint slice of global
//! state, is composed into one runtime that processes ordered batches of
//! operations ("blocks" of "extrinsics") and produces a new state
//! deterministically. The crate proves that block execution follows a single
//! specification-level transition function: sequence numbers advance by
//! exactly one per block, nonces count submitted operations, balances are
//! conserved by transfers, and claims have at most one owner at a time.

pub mod balances;
pub mod proof_of_existence;
pub mod runtime;
pub mod storage;
pub mod support;
pub mod system;
pub mod types;
