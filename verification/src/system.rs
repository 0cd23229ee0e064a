//! The system pallet: owns the current block number and the per-account
//! operation counters ("nonces").

use crate::storage::StorageMap;
use crate::types::{AccountId, BlockNumber, Nonce};
use vstd::prelude::*;

verus! {

/// The nonce a map records for an account: zero when the account is unseen.
pub open spec fn nonce_in(m: Map<Seq<char>, Nonce>, a: Seq<char>) -> Nonce {
    if m.contains_key(a) {
        m[a]
    } else {
        0
    }
}

/// The system pallet, managing the low-level state of the runtime.
#[derive(Debug)]
pub struct Pallet {
    /// The current block number.
    block_number: BlockNumber,
    /// A map from an account to its nonce.
    nonce: StorageMap<Nonce>,
}

impl Pallet {
    /// The current block number, as a specification value.
    pub closed spec fn spec_block_number(&self) -> BlockNumber {
        self.block_number
    }

    /// The recorded nonces, as a map from account to counter.
    pub closed spec fn nonces(&self) -> Map<Seq<char>, Nonce> {
        self.nonce@
    }

    /// The nonce of `a`: zero if `a` is unseen.
    pub open spec fn nonce_of(&self, a: Seq<char>) -> Nonce {
        nonce_in(self.nonces(), a)
    }

    pub closed spec fn wf(&self) -> bool {
        self.nonce.wf()
    }

    /// A fresh pallet: block number zero and no recorded nonce.
    pub fn new() -> (r: Self)
        ensures
            r.wf(),
            r.spec_block_number() == 0,
            r.nonces() == Map::<Seq<char>, Nonce>::empty(),
    {
        Pallet { block_number: 0, nonce: StorageMap::new() }
    }

    /// The current block number; a pure read.
    pub fn block_number(&self) -> (r: BlockNumber)
        ensures
            r == self.spec_block_number(),
    {
        self.block_number
    }

    /// The nonce of an account; zero if unseen. A pure read.
    pub fn nonce(&self, who: &AccountId) -> (r: Nonce)
        requires
            self.wf(),
        ensures
            r == self.nonce_of(who@),
    {
        match self.nonce.get(who) {
            Some(n) => *n,
            None => 0,
        }
    }

    /// Increments the block number by one.
    pub fn inc_block_number(&mut self)
        requires
            old(self).spec_block_number() < BlockNumber::MAX,
        ensures
            final(self).spec_block_number() == old(self).spec_block_number() + 1,
            final(self).nonces() == old(self).nonces(),
            final(self).wf() == old(self).wf(),
    {
        self.block_number = self.block_number + 1;
    }

    /// Increments the nonce of an account by one, counting an unseen account
    /// as starting from zero.
    pub fn inc_nonce(&mut self, who: &AccountId)
        requires
            old(self).wf(),
            old(self).nonce_of(who@) < Nonce::MAX,
        ensures
            final(self).wf(),
            final(self).spec_block_number() == old(self).spec_block_number(),
            final(self).nonces() == old(self).nonces().insert(
                who@,
                (old(self).nonce_of(who@) + 1) as Nonce,
            ),
    {
        let current = self.nonce(who);
        self.nonce.insert(who.clone(), current + 1);
    }
}

} // verus!
