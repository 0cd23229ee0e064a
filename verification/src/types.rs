//! The concrete types used throughout the runtime, defined exactly once so
//! that every pallet shares the same identifier and numeric types.

use vstd::prelude::*;

verus! {

/// Identifies a participant; used as a map key everywhere.
pub type AccountId = String;

/// A non-negative amount of funds.
pub type Balance = u128;

/// The global, monotonically increasing sequence number.
pub type BlockNumber = u32;

/// A per-account count of submitted operations.
pub type Nonce = u32;

/// An opaque content value that an account can claim.
pub type Content = String;

/// The concrete operation envelope handled by the runtime.
pub type Extrinsic = crate::support::Extrinsic<AccountId, crate::runtime::RuntimeCall>;

/// The concrete block header handled by the runtime.
pub type Header = crate::support::Header<BlockNumber>;

/// The concrete block handled by the runtime.
pub type Block = crate::support::Block<Header, Extrinsic>;

} // verus!
