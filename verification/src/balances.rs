//! The balances module: per-account funds and a checked, atomic transfer.

use vstd::prelude::*;

use crate::config::{AccountId, Balance};
use crate::string_map::StringMap;
use crate::support::{Dispatch, DispatchError, DispatchResult};

verus! {

/// The balance an account holds in the ledger `m`: absence means zero.
pub open spec fn balance_of(m: Map<Seq<char>, Balance>, who: Seq<char>) -> Balance {
    if m.dom().contains(who) {
        m[who]
    } else {
        0
    }
}

/// What `transfer` does: the ledger and result of moving `amount` from
/// `caller` to `to`. The sender's cover is checked first, then the
/// recipient's headroom, both against the pre-transfer balances; on any
/// failure the ledger does not move. A transfer from an account to itself
/// debits and credits that one account, so the ledger does not move either.
pub open spec fn spec_transfer(
    m: Map<Seq<char>, Balance>,
    caller: Seq<char>,
    to: Seq<char>,
    amount: Balance,
) -> (Map<Seq<char>, Balance>, DispatchResult) {
    let from_balance = balance_of(m, caller);
    let to_balance = balance_of(m, to);
    if amount > from_balance {
        (m, Err(DispatchError::InsufficientFunds))
    } else if to_balance + amount > u128::MAX {
        (m, Err(DispatchError::Overflow))
    } else if caller == to {
        (m, Ok(()))
    } else {
        (
            m.insert(caller, (from_balance - amount) as Balance).insert(
                to,
                (to_balance + amount) as Balance,
            ),
            Ok(()),
        )
    }
}

/// Tracks how much balance each account has.
#[derive(Debug)]
pub struct Pallet {
    balances: StringMap<Balance>,
}

impl View for Pallet {
    type V = Map<Seq<char>, Balance>;

    closed spec fn view(&self) -> Map<Seq<char>, Balance> {
        self.balances@
    }
}

impl Pallet {
    /// A fresh balances module: no account holds anything.
    pub fn new() -> (r: Self)
        ensures
            r.wf(),
            r@ == Map::<Seq<char>, Balance>::empty(),
    {
        Pallet { balances: StringMap::new() }
    }

    /// Overwrite the balance of `who` with `amount`. Bootstrap only: no
    /// check of any kind is made.
    pub fn set_balance(&mut self, who: AccountId, amount: Balance)
        requires
            old(self).wf(),
        ensures
            final(self).wf(),
            final(self)@ == old(self)@.insert(who@, amount),
    {
        self.balances.insert(who, amount);
    }

    /// The balance of `who`: zero for an account never written. Never errs.
    pub fn balance(&self, who: &AccountId) -> (b: Balance)
        requires
            self.wf(),
        ensures
            b == balance_of(self@, who@),
    {
        match self.balances.get(who) {
            Some(b) => *b,
            None => 0,
        }
    }

    /// Move `amount` from `caller` to `to`, checking that `caller` can
    /// cover it and that `to`'s balance has room for it. Atomic: either
    /// both balances update or neither does.
    pub fn transfer(&mut self, caller: AccountId, to: AccountId, amount: Balance) -> (r:
        DispatchResult)
        requires
            old(self).wf(),
        ensures
            final(self).wf(),
            final(self)@ == spec_transfer(old(self)@, caller@, to@, amount).0,
            r == spec_transfer(old(self)@, caller@, to@, amount).1,
    {
        let from_balance = self.balance(&caller);
        let to_balance = self.balance(&to);
        let new_from_balance = match from_balance.checked_sub(amount) {
            Some(b) => b,
            None => {
                return Err(DispatchError::InsufficientFunds);
            },
        };
        let new_to_balance = match to_balance.checked_add(amount) {
            Some(b) => b,
            None => {
                return Err(DispatchError::Overflow);
            },
        };
        if caller == to {
            // The debit and the credit meet on one account and cancel.
            return Ok(());
        }
        self.balances.insert(caller, new_from_balance);
        self.balances.insert(to, new_to_balance);
        Ok(())
    }
}

/// The calls the balances module exposes to the dispatcher. The caller of
/// each call is supplied by the dispatcher, not carried in the call.
pub enum Call {
    Transfer { to: AccountId, amount: Balance },
}

/// What dispatching a balances call does to the ledger.
pub open spec fn spec_dispatch(
    m: Map<Seq<char>, Balance>,
    caller: Seq<char>,
    call: Call,
) -> (Map<Seq<char>, Balance>, DispatchResult) {
    match call {
        Call::Transfer { to, amount } => spec_transfer(m, caller, to@, amount),
    }
}

impl Dispatch for Pallet {
    type Caller = AccountId;

    type Call = Call;

    closed spec fn wf(&self) -> bool {
        self.balances.wf()
    }

    /// Route a balances call to the operation it names.
    fn dispatch(&mut self, caller: AccountId, call: Call) -> (r: DispatchResult)
        ensures
            final(self)@ == spec_dispatch(old(self)@, caller@, call).0,
            r == spec_dispatch(old(self)@, caller@, call).1,
    {
        match call {
            Call::Transfer { to, amount } => self.transfer(caller, to, amount),
        }
    }
}

/// On a fresh ledger every account's balance is zero.
pub proof fn lemma_fresh_balance_zero(who: Seq<char>)
    ensures
        balance_of(Map::<Seq<char>, Balance>::empty(), who) == 0,
{
}

/// A `set_balance` for one account leaves every other account's balance
/// alone.
pub proof fn lemma_set_balance_frame(
    m: Map<Seq<char>, Balance>,
    who: Seq<char>,
    amount: Balance,
    other: Seq<char>,
)
    requires
        other != who,
    ensures
        balance_of(m.insert(who, amount), other) == balance_of(m, other),
{
}

/// A transfer between two accounts leaves every third account's balance
/// alone.
pub proof fn lemma_transfer_frame(
    m: Map<Seq<char>, Balance>,
    caller: Seq<char>,
    to: Seq<char>,
    amount: Balance,
    other: Seq<char>,
)
    requires
        other != caller,
        other != to,
    ensures
        balance_of(spec_transfer(m, caller, to, amount).0, other) == balance_of(m, other),
{
}

/// A transfer between two distinct accounts succeeds exactly when the
/// sender can cover the amount and the recipient's balance has room for
/// it; on success the sender's balance falls by the amount, the
/// recipient's rises by it, and the sum of the two balances is unchanged.
pub proof fn lemma_transfer_moves_funds(
    m: Map<Seq<char>, Balance>,
    caller: Seq<char>,
    to: Seq<char>,
    amount: Balance,
)
    requires
        caller != to,
    ensures
        spec_transfer(m, caller, to, amount).1 is Ok <==> amount <= balance_of(m, caller)
            && balance_of(m, to) + amount <= u128::MAX,
        spec_transfer(m, caller, to, amount).1 is Ok ==> {
            let after = spec_transfer(m, caller, to, amount).0;
            &&& balance_of(after, caller) == balance_of(m, caller) - amount
            &&& balance_of(after, to) == balance_of(m, to) + amount
            &&& balance_of(after, caller) + balance_of(after, to) == balance_of(m, caller)
                + balance_of(m, to)
        },
{
}

/// A transfer from an account to itself succeeds exactly when the account
/// can cover the amount, and leaves its balance unchanged. The one family
/// of inputs left out: when the balance plus the amount cannot be
/// represented, the headroom check rejects the transfer first.
pub proof fn lemma_self_transfer(m: Map<Seq<char>, Balance>, who: Seq<char>, amount: Balance)
    requires
        balance_of(m, who) + amount <= u128::MAX,
    ensures
        spec_transfer(m, who, who, amount).1 is Ok <==> amount <= balance_of(m, who),
        balance_of(spec_transfer(m, who, who, amount).0, who) == balance_of(m, who),
{
}

} // verus!
