//! Shared protocol types: the block and operation envelopes, and the failure
//! reasons that operations and blocks can report.

use vstd::prelude::*;

verus! {

/// An ordered batch of operation envelopes tagged with a declared sequence
/// number.
#[derive(Debug)]
pub struct Block<H, E> {
    /// The block header, holding the declared sequence number.
    pub header: H,
    /// The state transitions to execute, in order.
    pub extrinsics: Vec<E>,
}

/// A block header, holding only the declared sequence number.
#[derive(Debug)]
pub struct Header<BlockNumber> {
    /// The sequence number this block declares it will become.
    pub block_number: BlockNumber,
}

/// An operation envelope: an external message from outside the runtime,
/// pairing the caller with the operation to execute. The caller is carried
/// separately from the operation payload, so an operation can never speak for
/// another account.
#[derive(Debug)]
pub struct Extrinsic<Caller, Call> {
    /// The account submitting the operation.
    pub caller: Caller,
    /// The operation to execute on that account's behalf.
    pub call: Call,
}

/// Why a single operation was rejected. Operation failures are reported and
/// contained; they never abort the surrounding block.
#[derive(Debug, Clone, Copy, PartialEq, Eq)]
pub enum DispatchError {
    /// A transfer asked for more funds than the caller holds.
    InsufficientFunds,
    /// A transfer would push the recipient's balance past the numeric range.
    Overflow,
    /// The content is already claimed by some account.
    AlreadyClaimed,
    /// The content has no owner to revoke.
    NoSuchClaim,
    /// The caller is not the current owner of the claim.
    NotOwner,
}

/// The outcome of dispatching one operation.
pub type DispatchResult = Result<(), DispatchError>;

/// Why a whole block was rejected before any of its operations ran.
#[derive(Debug, Clone, Copy, PartialEq, Eq)]
pub enum BlockError {
    /// The block's declared sequence number is not the successor of the
    /// current one.
    BlockNumberMismatch,
}

} // verus!
