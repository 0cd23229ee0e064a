//! The balances pallet: owns the mapping from account to balance and exposes
//! a checked transfer operation.

use crate::storage::StorageMap;
use crate::support::{DispatchError, DispatchResult};
use crate::types::{AccountId, Balance};
use vstd::prelude::*;

verus! {

/// The balance a map records for an account: zero when the account is unseen.
pub open spec fn balance_in(m: Map<Seq<char>, Balance>, a: Seq<char>) -> Balance {
    if m.contains_key(a) {
        m[a]
    } else {
        0
    }
}

/// Whether a transfer of `amount` from `caller` to `to` succeeds on balances
/// `m`: the caller must hold at least `amount`, and the recipient's new
/// balance must stay within the numeric range. A self-transfer credits what
/// it debited, so it can never overflow.
pub open spec fn transfer_ok(
    m: Map<Seq<char>, Balance>,
    caller: Seq<char>,
    to: Seq<char>,
    amount: Balance,
) -> bool {
    &&& amount <= balance_in(m, caller)
    &&& (to == caller || balance_in(m, to) + amount <= Balance::MAX)
}

/// The balances after a successful transfer: the caller is debited, then the
/// recipient is credited. A self-transfer leaves the balance unchanged.
pub open spec fn transfer_updates(
    m: Map<Seq<char>, Balance>,
    caller: Seq<char>,
    to: Seq<char>,
    amount: Balance,
) -> Map<Seq<char>, Balance> {
    let debited = (balance_in(m, caller) - amount) as Balance;
    let credited = if to == caller {
        balance_in(m, caller)
    } else {
        (balance_in(m, to) + amount) as Balance
    };
    m.insert(caller, debited).insert(to, credited)
}

/// The balances after a transfer, successful or not: a failed transfer
/// leaves every balance untouched.
pub open spec fn transfer_post(
    m: Map<Seq<char>, Balance>,
    caller: Seq<char>,
    to: Seq<char>,
    amount: Balance,
) -> Map<Seq<char>, Balance> {
    if transfer_ok(m, caller, to, amount) {
        transfer_updates(m, caller, to, amount)
    } else {
        m
    }
}

/// What a transfer returns: success exactly when `transfer_ok` holds, an
/// insufficient-funds failure when the caller holds less than `amount`, and
/// an overflow failure otherwise.
pub open spec fn transfer_result(
    m: Map<Seq<char>, Balance>,
    caller: Seq<char>,
    to: Seq<char>,
    amount: Balance,
) -> DispatchResult {
    if transfer_ok(m, caller, to, amount) {
        Ok(())
    } else if amount > balance_in(m, caller) {
        Err(DispatchError::InsufficientFunds)
    } else {
        Err(DispatchError::Overflow)
    }
}

/// The balances pallet, managing account balances.
#[derive(Debug)]
pub struct Pallet {
    /// A mapping from account to balance.
    balances: StorageMap<Balance>,
}

impl Pallet {
    /// The recorded balances, as a map from account to amount.
    pub closed spec fn balances_map(&self) -> Map<Seq<char>, Balance> {
        self.balances@
    }

    /// The balance of `a`: zero if `a` is unseen.
    pub open spec fn balance_of(&self, a: Seq<char>) -> Balance {
        balance_in(self.balances_map(), a)
    }

    pub closed spec fn wf(&self) -> bool {
        self.balances.wf()
    }

    /// A fresh pallet where every account holds zero.
    pub fn new() -> (r: Self)
        ensures
            r.wf(),
            r.balances_map() == Map::<Seq<char>, Balance>::empty(),
    {
        Pallet { balances: StorageMap::new() }
    }

    /// Sets the balance of an account unconditionally. Used only for initial
    /// state seeding; it is not routed as a normal operation.
    pub fn set_balance(&mut self, who: &AccountId, amount: Balance)
        requires
            old(self).wf(),
        ensures
            final(self).wf(),
            final(self).balances_map() == old(self).balances_map().insert(who@, amount),
    {
        self.balances.insert(who.clone(), amount);
    }

    /// The balance of an account; zero if unseen. A pure read.
    pub fn balance(&self, who: &AccountId) -> (r: Balance)
        requires
            self.wf(),
        ensures
            r == self.balance_of(who@),
    {
        match self.balances.get(who) {
            Some(b) => *b,
            None => 0,
        }
    }

    /// Transfers `amount` from `caller` to `to` with checked arithmetic.
    ///
    /// Fails with `InsufficientFunds` when the debit would go below zero and
    /// with `Overflow` when the credit would leave the numeric range; a
    /// failed transfer writes nothing. Both new values are computed before
    /// either is committed. A self-transfer is not an error and leaves the
    /// balance unchanged.
    pub fn transfer(&mut self, caller: AccountId, to: AccountId, amount: Balance) -> (r:
        DispatchResult)
        requires
            old(self).wf(),
        ensures
            final(self).wf(),
            r.is_ok() == transfer_ok(old(self).balances_map(), caller@, to@, amount),
            final(self).balances_map() == transfer_post(
                old(self).balances_map(),
                caller@,
                to@,
                amount,
            ),
            r == transfer_result(old(self).balances_map(), caller@, to@, amount),
    {
        let caller_balance = self.balance(&caller);
        let new_caller_balance = match caller_balance.checked_sub(amount) {
            Some(v) => v,
            None => {
                return Err(DispatchError::InsufficientFunds);
            },
        };
        let to_base = if to.eq(&caller) {
            new_caller_balance
        } else {
            self.balance(&to)
        };
        let new_to_balance = match to_base.checked_add(amount) {
            Some(v) => v,
            None => {
                return Err(DispatchError::Overflow);
            },
        };
        self.balances.insert(caller, new_caller_balance);
        self.balances.insert(to, new_to_balance);
        Ok(())
    }
}

/// A dispatchable call of the balances pallet.
#[derive(Debug)]
pub enum Call {
    /// Transfer funds from the caller to another account.
    Transfer {
        /// The account to credit.
        to: AccountId,
        /// The amount to move.
        amount: Balance,
    },
}

/// Whether dispatching `call` on behalf of `caller` succeeds on balances `m`.
pub open spec fn call_ok(m: Map<Seq<char>, Balance>, caller: Seq<char>, call: Call) -> bool {
    match call {
        Call::Transfer { to, amount } => transfer_ok(m, caller, to@, amount),
    }
}

/// The balances after dispatching `call`, successful or not.
pub open spec fn call_post(m: Map<Seq<char>, Balance>, caller: Seq<char>, call: Call) -> Map<
    Seq<char>,
    Balance,
> {
    match call {
        Call::Transfer { to, amount } => transfer_post(m, caller, to@, amount),
    }
}

/// What dispatching `call` returns.
pub open spec fn call_result(
    m: Map<Seq<char>, Balance>,
    caller: Seq<char>,
    call: Call,
) -> DispatchResult {
    match call {
        Call::Transfer { to, amount } => transfer_result(m, caller, to@, amount),
    }
}

/// An account holds zero before anything touches it: in the initial, empty
/// balances every account's balance is zero.
pub proof fn lemma_initial_balance_zero(a: Seq<char>)
    ensures
        balance_in(Map::empty(), a) == 0,
{
}

/// A seeding write to one account leaves every other account's balance
/// unchanged.
pub proof fn lemma_set_balance_untouched(
    m: Map<Seq<char>, Balance>,
    who: Seq<char>,
    amount: Balance,
    a: Seq<char>,
)
    requires
        a != who,
    ensures
        balance_in(m.insert(who, amount), a) == balance_in(m, a),
{
}

/// A transfer, successful or not, leaves the balance of every uninvolved
/// account unchanged.
pub proof fn lemma_transfer_untouched(
    m: Map<Seq<char>, Balance>,
    caller: Seq<char>,
    to: Seq<char>,
    amount: Balance,
    a: Seq<char>,
)
    requires
        a != caller,
        a != to,
    ensures
        balance_in(transfer_post(m, caller, to, amount), a) == balance_in(m, a),
{
}

/// Transfer conservation: a successful transfer moves funds without creating
/// or destroying any, and a self-transfer leaves the balance unchanged.
pub proof fn lemma_transfer_conserves(
    m: Map<Seq<char>, Balance>,
    caller: Seq<char>,
    to: Seq<char>,
    amount: Balance,
)
    requires
        transfer_ok(m, caller, to, amount),
    ensures
        balance_in(transfer_updates(m, caller, to, amount), caller) + balance_in(
            transfer_updates(m, caller, to, amount),
            to,
        ) == balance_in(m, caller) + balance_in(m, to),
        caller == to ==> balance_in(transfer_updates(m, caller, to, amount), caller) == balance_in(
            m,
            caller,
        ),
{
}

/// Transfer rejection: a transfer of more than the caller holds fails with
/// `InsufficientFunds` and leaves every balance unchanged.
pub proof fn lemma_transfer_rejection(
    m: Map<Seq<char>, Balance>,
    caller: Seq<char>,
    to: Seq<char>,
    amount: Balance,
)
    requires
        amount > balance_in(m, caller),
    ensures
        transfer_result(m, caller, to, amount) == Result::<(), DispatchError>::Err(
            DispatchError::InsufficientFunds,
        ),
        transfer_post(m, caller, to, amount) == m,
{
}

impl Pallet {
    /// Routes a balances call to its handler, with the caller supplied
    /// separately from the operation payload.
    pub fn dispatch(&mut self, caller: AccountId, call: Call) -> (r: DispatchResult)
        requires
            old(self).wf(),
        ensures
            final(self).wf(),
            r.is_ok() == call_ok(old(self).balances_map(), caller@, call),
            final(self).balances_map() == call_post(old(self).balances_map(), caller@, call),
            r == call_result(old(self).balances_map(), caller@, call),
    {
        match call {
            Call::Transfer { to, amount } => self.transfer(caller, to, amount),
        }
    }
}

} // verus!
