//! The proof-of-existence pallet: lets accounts claim the existence of some
//! content, with at most one owner per content value at any time.

use crate::storage::StorageMap;
use crate::support::{DispatchError, DispatchResult};
use crate::types::{AccountId, Content};
use vstd::prelude::*;

verus! {

/// Whether creating a claim on `content` succeeds on claims `m`: the content
/// must be unclaimed.
pub open spec fn create_ok(m: Map<Seq<char>, Seq<char>>, content: Seq<char>) -> bool {
    !m.contains_key(content)
}

/// The claims after a create by `caller`, successful or not.
pub open spec fn create_post(
    m: Map<Seq<char>, Seq<char>>,
    caller: Seq<char>,
    content: Seq<char>,
) -> Map<Seq<char>, Seq<char>> {
    if create_ok(m, content) {
        m.insert(content, caller)
    } else {
        m
    }
}

/// What creating a claim returns: the content taken by anyone, the caller
/// included, is rejected.
pub open spec fn create_result(
    m: Map<Seq<char>, Seq<char>>,
    content: Seq<char>,
) -> DispatchResult {
    if create_ok(m, content) {
        Ok(())
    } else {
        Err(DispatchError::AlreadyClaimed)
    }
}

/// Whether revoking the claim on `content` by `caller` succeeds on claims
/// `m`: the content must be claimed, and by the caller.
pub open spec fn revoke_ok(
    m: Map<Seq<char>, Seq<char>>,
    caller: Seq<char>,
    content: Seq<char>,
) -> bool {
    m.contains_key(content) && m[content] == caller
}

/// The claims after a revoke by `caller`, successful or not.
pub open spec fn revoke_post(
    m: Map<Seq<char>, Seq<char>>,
    caller: Seq<char>,
    content: Seq<char>,
) -> Map<Seq<char>, Seq<char>> {
    if revoke_ok(m, caller, content) {
        m.remove(content)
    } else {
        m
    }
}

/// What revoking a claim returns: an unclaimed content is reported as
/// missing, a claim held by someone else as not owned.
pub open spec fn revoke_result(
    m: Map<Seq<char>, Seq<char>>,
    caller: Seq<char>,
    content: Seq<char>,
) -> DispatchResult {
    if !m.contains_key(content) {
        Err(DispatchError::NoSuchClaim)
    } else if m[content] != caller {
        Err(DispatchError::NotOwner)
    } else {
        Ok(())
    }
}

/// The proof-of-existence pallet, managing claims.
#[derive(Debug)]
pub struct Pallet {
    /// A mapping from the content to the account that claimed it.
    claims: StorageMap<AccountId>,
}

impl Pallet {
    /// The recorded claims, as a map from content to owning account.
    pub closed spec fn claims_map(&self) -> Map<Seq<char>, Seq<char>> {
        self.claims@.map_values(|a: AccountId| a@)
    }

    /// The owner of `content`, when `content` is claimed.
    pub open spec fn owner_of(&self, content: Seq<char>) -> Seq<char> {
        self.claims_map()[content]
    }

    pub closed spec fn wf(&self) -> bool {
        self.claims.wf()
    }

    /// A fresh pallet with no claims.
    pub fn new() -> (r: Self)
        ensures
            r.wf(),
            r.claims_map() == Map::<Seq<char>, Seq<char>>::empty(),
    {
        let r = Pallet { claims: StorageMap::new() };
        proof {
            assert(r.claims_map() =~= Map::<Seq<char>, Seq<char>>::empty());
        }
        r
    }

    /// The owner of a claim, if it exists. A pure read.
    pub fn get_claim(&self, claim: &Content) -> (r: Option<&AccountId>)
        requires
            self.wf(),
        ensures
            match r {
                Some(a) => self.claims_map().contains_key(claim@) && a@ == self.owner_of(claim@),
                None => !self.claims_map().contains_key(claim@),
            },
    {
        self.claims.get(claim)
    }

    /// Creates a claim on `claim` on behalf of `caller`.
    ///
    /// Fails with `AlreadyClaimed` when the content already has an owner; a
    /// failed create writes nothing.
    pub fn create_claim(&mut self, caller: AccountId, claim: Content) -> (r: DispatchResult)
        requires
            old(self).wf(),
        ensures
            final(self).wf(),
            r.is_ok() == create_ok(old(self).claims_map(), claim@),
            final(self).claims_map() == create_post(old(self).claims_map(), caller@, claim@),
            r == create_result(old(self).claims_map(), claim@),
    {
        if self.claims.contains_key(&claim) {
            return Err(DispatchError::AlreadyClaimed);
        }
        let ghost before = self.claims@;
        self.claims.insert(claim, caller);
        proof {
            assert(self.claims_map() =~= before.map_values(|a: AccountId| a@).insert(
                claim@,
                caller@,
            ));
        }
        Ok(())
    }

    /// Revokes the claim on `claim` on behalf of `caller`, freeing the
    /// content for a new claim by anyone.
    ///
    /// Fails with `NoSuchClaim` when the content has no owner and with
    /// `NotOwner` when the current owner differs from the caller; a failed
    /// revoke writes nothing.
    pub fn revoke_claim(&mut self, caller: AccountId, claim: Content) -> (r: DispatchResult)
        requires
            old(self).wf(),
        ensures
            final(self).wf(),
            r.is_ok() == revoke_ok(old(self).claims_map(), caller@, claim@),
            final(self).claims_map() == revoke_post(old(self).claims_map(), caller@, claim@),
            r == revoke_result(old(self).claims_map(), caller@, claim@),
    {
        let is_owner = match self.claims.get(&claim) {
            None => {
                return Err(DispatchError::NoSuchClaim);
            },
            Some(owner) => owner.eq(&caller),
        };
        if !is_owner {
            return Err(DispatchError::NotOwner);
        }
        let ghost before = self.claims@;
        self.claims.remove(&claim);
        proof {
            assert(self.claims_map() =~= before.map_values(|a: AccountId| a@).remove(claim@));
        }
        Ok(())
    }
}

/// A dispatchable call of the proof-of-existence pallet.
#[derive(Debug)]
pub enum Call {
    /// Claim some content on behalf of the caller.
    CreateClaim {
        /// The content to claim.
        claim: Content,
    },
    /// Revoke the caller's claim on some content.
    RevokeClaim {
        /// The content whose claim to revoke.
        claim: Content,
    },
}

/// Whether dispatching `call` on behalf of `caller` succeeds on claims `m`.
pub open spec fn call_ok(m: Map<Seq<char>, Seq<char>>, caller: Seq<char>, call: Call) -> bool {
    match call {
        Call::CreateClaim { claim } => create_ok(m, claim@),
        Call::RevokeClaim { claim } => revoke_ok(m, caller, claim@),
    }
}

/// The claims after dispatching `call`, successful or not.
pub open spec fn call_post(m: Map<Seq<char>, Seq<char>>, caller: Seq<char>, call: Call) -> Map<
    Seq<char>,
    Seq<char>,
> {
    match call {
        Call::CreateClaim { claim } => create_post(m, caller, claim@),
        Call::RevokeClaim { claim } => revoke_post(m, caller, claim@),
    }
}

/// What dispatching `call` returns.
pub open spec fn call_result(
    m: Map<Seq<char>, Seq<char>>,
    caller: Seq<char>,
    call: Call,
) -> DispatchResult {
    match call {
        Call::CreateClaim { claim } => create_result(m, claim@),
        Call::RevokeClaim { claim } => revoke_result(m, caller, claim@),
    }
}

/// Claim exclusivity: once `a` has successfully claimed `c`, a create of `c`
/// by anyone — `a` included — fails with `AlreadyClaimed` and changes
/// nothing, and `a` stays the owner.
pub proof fn lemma_claim_exclusive(
    m: Map<Seq<char>, Seq<char>>,
    a: Seq<char>,
    b: Seq<char>,
    c: Seq<char>,
)
    requires
        create_ok(m, c),
    ensures
        create_post(m, a, c)[c] == a,
        create_result(create_post(m, a, c), c) == Result::<(), DispatchError>::Err(
            DispatchError::AlreadyClaimed,
        ),
        create_post(create_post(m, a, c), b, c) == create_post(m, a, c),
{
}

/// Revoke authorization: a revoke of `c` by `b` while `a != b` owns it fails
/// with `NotOwner`, and the claim remains owned by `a`.
pub proof fn lemma_revoke_authorization(
    m: Map<Seq<char>, Seq<char>>,
    a: Seq<char>,
    b: Seq<char>,
    c: Seq<char>,
)
    requires
        m.contains_key(c),
        m[c] == a,
        b != a,
    ensures
        revoke_result(m, b, c) == Result::<(), DispatchError>::Err(DispatchError::NotOwner),
        revoke_post(m, b, c) == m,
        revoke_post(m, b, c)[c] == a,
{
}

impl Pallet {
    /// Routes a proof-of-existence call to its handler, with the caller
    /// supplied separately from the operation payload.
    pub fn dispatch(&mut self, caller: AccountId, call: Call) -> (r: DispatchResult)
        requires
            old(self).wf(),
        ensures
            final(self).wf(),
            r.is_ok() == call_ok(old(self).claims_map(), caller@, call),
            final(self).claims_map() == call_post(old(self).claims_map(), caller@, call),
            r == call_result(old(self).claims_map(), caller@, call),
    {
        match call {
            Call::CreateClaim { claim } => self.create_claim(caller, claim),
            Call::RevokeClaim { claim } => self.revoke_claim(caller, claim),
        }
    }
}

} // verus!
