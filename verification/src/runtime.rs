//! The composition root: owns one instance of each pallet, routes an
//! incoming operation to the owning pallet, and executes blocks.
//!
//! The whole runtime state is modelled by [`State`], and block execution is
//! pinned to the specification-level transition functions below: advancing
//! the block number, bumping the caller's nonce before each operation, and
//! folding the per-operation transitions over the block's operation list.

use crate::balances;
use crate::proof_of_existence;
use crate::support::{BlockError, DispatchResult};
use crate::system;
use crate::system::nonce_in;
use crate::types::{AccountId, Balance, Block, BlockNumber, Nonce};
use vstd::prelude::*;

verus! {

/// The abstract state of the whole runtime: each pallet's slice, side by
/// side.
#[verifier::ext_equal]
pub struct State {
    /// The current block number.
    pub block_number: BlockNumber,
    /// The recorded nonces, keyed by account.
    pub nonces: Map<Seq<char>, Nonce>,
    /// The recorded balances, keyed by account.
    pub balances: Map<Seq<char>, Balance>,
    /// The recorded claims, keyed by content, valued by owner.
    pub claims: Map<Seq<char>, Seq<char>>,
}

/// The state a fresh runtime starts in: block number zero, no nonce, no
/// balance, no claim.
pub open spec fn initial_state() -> State {
    State {
        block_number: 0,
        nonces: Map::empty(),
        balances: Map::empty(),
        claims: Map::empty(),
    }
}

/// One top-level operation: one variant per pallet, each wrapping that
/// pallet's own set of operations.
#[derive(Debug)]
pub enum RuntimeCall {
    /// An operation of the balances pallet.
    Balances(balances::Call),
    /// An operation of the proof-of-existence pallet.
    ProofOfExistence(proof_of_existence::Call),
}

/// Whether dispatching `call` on behalf of `caller` succeeds in state `s`.
pub open spec fn dispatch_ok(s: State, caller: Seq<char>, call: RuntimeCall) -> bool {
    match call {
        RuntimeCall::Balances(c) => balances::call_ok(s.balances, caller, c),
        RuntimeCall::ProofOfExistence(c) => proof_of_existence::call_ok(s.claims, caller, c),
    }
}

/// The state after dispatching `call`, successful or not: only the owning
/// pallet's slice can change, and a failed operation changes nothing.
pub open spec fn dispatch_post(s: State, caller: Seq<char>, call: RuntimeCall) -> State {
    match call {
        RuntimeCall::Balances(c) => State {
            balances: balances::call_post(s.balances, caller, c),
            ..s
        },
        RuntimeCall::ProofOfExistence(c) => State {
            claims: proof_of_existence::call_post(s.claims, caller, c),
            ..s
        },
    }
}

/// What dispatching `call` returns.
pub open spec fn dispatch_result(s: State, caller: Seq<char>, call: RuntimeCall) -> DispatchResult {
    match call {
        RuntimeCall::Balances(c) => balances::call_result(s.balances, caller, c),
        RuntimeCall::ProofOfExistence(c) => proof_of_existence::call_result(s.claims, caller, c),
    }
}

/// The state after recording one more operation against account `a`.
pub open spec fn bump_nonce(s: State, a: Seq<char>) -> State {
    State { nonces: s.nonces.insert(a, (nonce_in(s.nonces, a) + 1) as Nonce), ..s }
}

/// The state after processing one operation envelope: the caller's nonce is
/// bumped first, whether or not the operation then succeeds.
pub open spec fn apply_extrinsic(s: State, e: crate::types::Extrinsic) -> State {
    dispatch_post(bump_nonce(s, e.caller@), e.caller@, e.call)
}

/// The state after processing a list of operation envelopes, in order.
pub open spec fn apply_extrinsics(s: State, exts: Seq<crate::types::Extrinsic>) -> State
    decreases exts.len(),
{
    if exts.len() == 0 {
        s
    } else {
        apply_extrinsics(apply_extrinsic(s, exts.first()), exts.drop_first())
    }
}

/// The state after advancing the block number by one.
pub open spec fn advanced(s: State) -> State {
    State { block_number: (s.block_number + 1) as BlockNumber, ..s }
}

/// How many of the operation envelopes in `exts` were submitted by account
/// `a`.
pub open spec fn count_submitted(exts: Seq<crate::types::Extrinsic>, a: Seq<char>) -> int
    decreases exts.len(),
{
    if exts.len() == 0 {
        0
    } else {
        (if exts.first().caller@ == a {
            1int
        } else {
            0int
        }) + count_submitted(exts.drop_first(), a)
    }
}

/// Nonce monotonicity: processing a list of operation envelopes raises each
/// account's nonce by exactly the number of envelopes that account
/// submitted, regardless of how many of those operations failed. Applied
/// block by block, an account's nonce equals the total count of its
/// submitted operations.
pub proof fn lemma_nonce_counts_operations(
    s: State,
    exts: Seq<crate::types::Extrinsic>,
    a: Seq<char>,
)
    requires
        forall|b: Seq<char>| #[trigger] nonce_in(s.nonces, b) + exts.len() <= Nonce::MAX,
    ensures
        nonce_in(apply_extrinsics(s, exts).nonces, a) == nonce_in(s.nonces, a) + count_submitted(
            exts,
            a,
        ),
    decreases exts.len(),
{
    if exts.len() > 0 {
        let e = exts.first();
        let s1 = apply_extrinsic(s, e);
        assert(nonce_in(s.nonces, e.caller@) + exts.len() <= Nonce::MAX);
        assert(s1.nonces == bump_nonce(s, e.caller@).nonces);
        assert forall|b: Seq<char>|
            #[trigger] nonce_in(s1.nonces, b) + exts.drop_first().len() <= Nonce::MAX by {
            assert(nonce_in(s.nonces, b) + exts.len() <= Nonce::MAX);
        }
        lemma_nonce_counts_operations(s1, exts.drop_first(), a);
    }
}

/// Whether `call`, submitted by `caller`, is a revoke of content `c` by its
/// current owner `owner`.
pub open spec fn is_revoke_by_owner(
    call: RuntimeCall,
    caller: Seq<char>,
    owner: Seq<char>,
    c: Seq<char>,
) -> bool {
    match call {
        RuntimeCall::ProofOfExistence(proof_of_existence::Call::RevokeClaim { claim }) => claim@
            == c && caller == owner,
        _ => false,
    }
}

/// Claim persistence: as long as the owner of a claim does not revoke it
/// itself, no dispatched operation — by anyone — can take the claim away or
/// hand it to someone else.
pub proof fn lemma_claim_persists(
    s: State,
    caller: Seq<char>,
    call: RuntimeCall,
    a: Seq<char>,
    c: Seq<char>,
)
    requires
        s.claims.contains_key(c),
        s.claims[c] == a,
        !is_revoke_by_owner(call, caller, a, c),
    ensures
        dispatch_post(s, caller, call).claims.contains_key(c),
        dispatch_post(s, caller, call).claims[c] == a,
{
}

/// The runtime: one instance of each pallet.
#[derive(Debug)]
pub struct Runtime {
    /// The system pallet.
    pub system: system::Pallet,
    /// The balances pallet.
    pub balances: balances::Pallet,
    /// The proof-of-existence pallet.
    pub proof_of_existence: proof_of_existence::Pallet,
}

impl Runtime {
    pub open spec fn wf(&self) -> bool {
        self.system.wf() && self.balances.wf() && self.proof_of_existence.wf()
    }

    /// The runtime's abstract state, assembled from the pallets' slices.
    pub open spec fn state(&self) -> State {
        State {
            block_number: self.system.spec_block_number(),
            nonces: self.system.nonces(),
            balances: self.balances.balances_map(),
            claims: self.proof_of_existence.claims_map(),
        }
    }

    /// A fresh runtime in the all-zero, all-empty state.
    pub fn new() -> (r: Self)
        ensures
            r.wf(),
            r.state() == initial_state(),
    {
        let r = Runtime {
            system: system::Pallet::new(),
            balances: balances::Pallet::new(),
            proof_of_existence: proof_of_existence::Pallet::new(),
        };
        proof {
            assert(r.state() =~= initial_state());
        }
        r
    }

    /// Routes `call` to the owning pallet's own dispatch, with the caller
    /// supplied separately from the operation payload.
    pub fn dispatch(&mut self, caller: AccountId, call: RuntimeCall) -> (r: DispatchResult)
        requires
            old(self).wf(),
        ensures
            final(self).wf(),
            r.is_ok() == dispatch_ok(old(self).state(), caller@, call),
            final(self).state() == dispatch_post(old(self).state(), caller@, call),
            r == dispatch_result(old(self).state(), caller@, call),
    {
        match call {
            RuntimeCall::Balances(c) => {
                let r = self.balances.dispatch(caller, c);
                proof {
                    assert(self.state() =~= dispatch_post(old(self).state(), caller@, call));
                }
                r
            },
            RuntimeCall::ProofOfExistence(c) => {
                let r = self.proof_of_existence.dispatch(caller, c);
                proof {
                    assert(self.state() =~= dispatch_post(old(self).state(), caller@, call));
                }
                r
            },
        }
    }

    /// Executes one block: advances the block number, rejects the block
    /// wholesale when its declared number is not the new current value, and
    /// otherwise processes every operation envelope in order. Before each
    /// operation the caller's nonce is recorded; a failed operation is
    /// contained and never aborts the rest of the block, nor rolls the nonce
    /// back.
    pub fn execute_block(&mut self, block: Block) -> (r: Result<(), BlockError>)
        requires
            old(self).wf(),
            old(self).state().block_number < BlockNumber::MAX,
            forall|a: Seq<char>|
                #[trigger] nonce_in(old(self).state().nonces, a) + block.extrinsics@.len()
                    <= Nonce::MAX,
        ensures
            final(self).wf(),
            r.is_ok() == (block.header.block_number == old(self).state().block_number + 1),
            (match r {
                Ok(()) => final(self).state() == apply_extrinsics(
                    advanced(old(self).state()),
                    block.extrinsics@,
                ),
                Err(e) => e == BlockError::BlockNumberMismatch && final(self).state() == advanced(
                    old(self).state(),
                ),
            }),
    {
        self.system.inc_block_number();
        proof {
            assert(self.state() =~= advanced(old(self).state()));
        }
        if block.header.block_number != self.system.block_number() {
            return Err(BlockError::BlockNumberMismatch);
        }
        let ghost s_start = self.state();
        let ghost all = block.extrinsics@;
        let mut exts = block.extrinsics;
        while exts.len() > 0
            invariant
                self.wf(),
                apply_extrinsics(self.state(), exts@) == apply_extrinsics(s_start, all),
                forall|a: Seq<char>|
                    #[trigger] nonce_in(self.state().nonces, a) + exts@.len() <= Nonce::MAX,
            decreases exts@.len(),
        {
            let ghost pre = self.state();
            let ghost before_exts = exts@;
            let ext = exts.remove(0);
            let ghost e0 = ext;
            proof {
                assert(nonce_in(pre.nonces, e0.caller@) + before_exts.len() <= Nonce::MAX);
            }
            self.system.inc_nonce(&ext.caller);
            proof {
                assert(self.state() =~= bump_nonce(pre, e0.caller@));
            }
            let ghost mid = self.state();
            let _ = self.dispatch(ext.caller, ext.call);
            proof {
                assert(self.state() == apply_extrinsic(pre, e0));
                assert(before_exts.first() == e0);
                assert(before_exts.drop_first() =~= exts@);
                assert(apply_extrinsics(pre, before_exts) == apply_extrinsics(self.state(), exts@));
                assert(self.state().nonces == mid.nonces);
                assert forall|a: Seq<char>|
                    #[trigger] nonce_in(self.state().nonces, a) + exts@.len() <= Nonce::MAX by {
                    assert(nonce_in(pre.nonces, a) + before_exts.len() <= Nonce::MAX);
                }
            }
        }
        proof {
            assert(apply_extrinsics(self.state(), exts@) == self.state());
        }
        Ok(())
    }
}

} // verus!
