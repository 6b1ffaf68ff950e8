use vstd::prelude::*;

use crate::account_map::AccountMap;
use crate::support::{DispatchError, DispatchResult};
use crate::types::{AccountId, Balance};

verus! {

/// The balance that `ledger` gives `who`: zero where it has no entry.
pub open spec fn balance_in(ledger: Map<Seq<char>, u128>, who: Seq<char>) -> u128 {
    if ledger.contains_key(who) {
        ledger[who]
    } else {
        0
    }
}

/// What a transfer of `amount` from `from` to `to` returns on `ledger`.
pub open spec fn transfer_result(
    ledger: Map<Seq<char>, u128>,
    from: Seq<char>,
    to: Seq<char>,
    amount: u128,
) -> DispatchResult {
    if balance_in(ledger, from) < amount {
        Err(DispatchError::InsufficientFunds)
    } else if balance_in(ledger, to) + amount > u128::MAX {
        Err(DispatchError::BalanceOverflow)
    } else {
        Ok(())
    }
}

/// The ledger after a transfer of `amount` from `from` to `to`: unchanged
/// where the transfer fails or the two accounts are one.
pub open spec fn ledger_after_transfer(
    ledger: Map<Seq<char>, u128>,
    from: Seq<char>,
    to: Seq<char>,
    amount: u128,
) -> Map<Seq<char>, u128> {
    if transfer_result(ledger, from, to, amount) is Err || from == to {
        ledger
    } else {
        ledger.insert(from, (balance_in(ledger, from) - amount) as u128).insert(
            to,
            (balance_in(ledger, to) + amount) as u128,
        )
    }
}

/// Relies on num's `CheckedSub` for `u128`: the difference, or `None` where
/// it would fall below zero.
#[verifier::external_body]
fn checked_sub_balance(a: u128, b: u128) -> (r: Option<u128>)
    ensures
        r == (if a >= b {
            Some((a - b) as u128)
        } else {
            None::<u128>
        }),
{
    <u128 as num::CheckedSub>::checked_sub(&a, &b)
}

/// Relies on num's `CheckedAdd` for `u128`: the sum, or `None` where it would
/// exceed `u128::MAX`.
#[verifier::external_body]
fn checked_add_balance(a: u128, b: u128) -> (r: Option<u128>)
    ensures
        r == (if a + b <= u128::MAX {
            Some((a + b) as u128)
        } else {
            None::<u128>
        }),
{
    <u128 as num::CheckedAdd>::checked_add(&a, &b)
}

/// The ledger: the balance of each account.
#[derive(Debug)]
pub struct Pallet {
    balances: AccountMap<Balance>,
}

impl View for Pallet {
    type V = Map<Seq<char>, u128>;

    closed spec fn view(&self) -> Map<Seq<char>, u128> {
        self.balances@
    }
}

impl Pallet {
    /// The balance of `who`.
    pub open spec fn balance_of(&self, who: Seq<char>) -> u128 {
        balance_in(self@, who)
    }

    /// An empty ledger: every account has balance zero.
    pub fn new() -> (r: Self)
        ensures
            r@ == Map::<Seq<char>, u128>::empty(),
            forall|who: Seq<char>| r.balance_of(who) == 0,
    {
        Pallet { balances: AccountMap::new() }
    }

    /// Sets the balance of `who` to `amount`, whatever it was.
    pub fn set_balance(&mut self, who: &AccountId, amount: Balance)
        ensures
            final(self)@ == old(self)@.insert(who@, amount),
    {
        self.balances.insert(who, amount);
    }

    /// The balance of `who`: zero for an account that was never written.
    pub fn balance(&self, who: &AccountId) -> (r: Balance)
        ensures
            r == self.balance_of(who@),
    {
        match self.balances.get(who) {
            Some(b) => b,
            None => 0,
        }
    }

    /// Moves `amount` from `from` to `to`. Both checks are made before any
    /// write, so a failing transfer changes nothing; a transfer from an
    /// account to itself changes nothing either.
    pub fn transfer(&mut self, from: &AccountId, to: &AccountId, amount: Balance) -> (r:
        DispatchResult)
        ensures
            r == transfer_result(old(self)@, from@, to@, amount),
            final(self)@ == ledger_after_transfer(old(self)@, from@, to@, amount),
            r == Err::<(), DispatchError>(DispatchError::InsufficientFunds) <==> old(
                self,
            ).balance_of(from@) < amount,
            old(self).balance_of(from@) >= amount ==> (r == Err::<(), DispatchError>(
                DispatchError::BalanceOverflow) <==> old(self).balance_of(to@) + amount
                > u128::MAX),
            r is Err ==> final(self)@ == old(self)@,
            r is Ok ==> final(self).balance_of(from@) + final(self).balance_of(to@) == old(
                self,
            ).balance_of(from@) + old(self).balance_of(to@),
    {
        let from_balance = self.balance(from);
        let to_balance = self.balance(to);
        let new_from_balance = match checked_sub_balance(from_balance, amount) {
            Some(b) => b,
            None => {
                return Err(DispatchError::InsufficientFunds);
            },
        };
        let new_to_balance = match checked_add_balance(to_balance, amount) {
            Some(b) => b,
            None => {
                return Err(DispatchError::BalanceOverflow);
            },
        };
        if *from != *to {
            self.set_balance(from, new_from_balance);
            self.set_balance(to, new_to_balance);
        }
        Ok(())
    }
}

} // verus!
