//! The balances module of the sandboxed runtime: native currency accounts.

use std::collections::HashMap;

use vstd::prelude::*;

use crate::errors::v0::ApiError;
use crate::runtime::{BalancesError, RuntimeError};
use crate::{AccountId, Balance};

verus! {

broadcast use vstd::std_specs::hash::group_hash_axioms;

/// The smallest balance an account may hold (the existential deposit).
pub const EXISTENTIAL_DEPOSIT: Balance = 1;

/// Native currency accounts: a total map from account to balance, stored
/// sparsely (absent accounts hold zero).
pub struct BalancesState {
    accounts: HashMap<AccountId, Balance>,
}

impl BalancesState {
    /// The stored account table.
    pub closed spec fn accounts(self) -> Map<AccountId, Balance> {
        self.accounts@
    }

    /// The balance of `account`: the stored entry, or zero if none.
    pub open spec fn spec_balance(self, account: AccountId) -> Balance {
        if self.accounts().contains_key(account) {
            self.accounts()[account]
        } else {
            0
        }
    }

    /// Creates an empty account table.
    pub fn empty() -> (r: BalancesState)
        ensures
            r.accounts() == Map::<AccountId, Balance>::empty(),
    {
        BalancesState { accounts: HashMap::new() }
    }

    /// Copies the account table; the copy holds exactly the same balances.
    pub fn snapshot(&self) -> (r: BalancesState)
        ensures
            r.accounts() == self.accounts(),
    {
        BalancesState { accounts: self.accounts.clone() }
    }

    /// Reads the balance of `account`.
    pub fn balance(&self, account: AccountId) -> (r: Balance)
        ensures
            r == self.spec_balance(account),
    {
        match self.accounts.get(&account) {
            Some(b) => *b,
            None => 0,
        }
    }

    /// Writes the balance of `account` directly, as genesis seeding does.
    pub fn set_balance(&mut self, account: AccountId, amount: Balance)
        ensures
            final(self).accounts() == old(self).accounts().insert(account, amount),
    {
        self.accounts.insert(account, amount);
    }

    /// Mints `amount` into `account`, increasing its balance.
    ///
    /// Fails with an arithmetic overflow error if and only if the account
    /// balance would exceed the balance type's range; on failure the table is
    /// unchanged.
    pub fn mint_into(&mut self, account: AccountId, amount: Balance) -> (r: Result<
        Balance,
        ApiError,
    >)
        ensures
            old(self).spec_balance(account) + amount <= Balance::MAX ==> {
                &&& r == Result::<Balance, ApiError>::Ok(
                    (old(self).spec_balance(account) + amount) as Balance,
                )
                &&& final(self).accounts() == old(self).accounts().insert(
                    account,
                    (old(self).spec_balance(account) + amount) as Balance,
                )
            },
            old(self).spec_balance(account) + amount > Balance::MAX ==> {
                &&& r == Result::<Balance, ApiError>::Err(
                    ApiError::Arithmetic(crate::errors::v0::ArithmeticError::Overflow),
                )
                &&& final(self).accounts() == old(self).accounts()
            },
    {
        let current = self.balance(account);
        if amount > Balance::MAX - current {
            Err(ApiError::Arithmetic(crate::errors::v0::ArithmeticError::Overflow))
        } else {
            let updated = current + amount;
            self.accounts.insert(account, updated);
            Ok(updated)
        }
    }

    /// Transfers `amount` from `from` to `to`.
    ///
    /// Fails if and only if: the sender's balance is below `amount`
    /// (insufficient balance); the recipient did not exist and `amount` is
    /// below the existential deposit; or the recipient's balance would
    /// overflow. On failure the table is unchanged.
    pub fn transfer(&mut self, from: AccountId, to: AccountId, amount: Balance) -> (r: Result<
        (),
        ApiError,
    >)
        ensures
            r is Ok <==> old(self).spec_transfer_ok(from, to, amount),
            r == old(self).spec_transfer_result(from, to, amount),
            r is Ok ==> final(self).accounts() == old(self).spec_transfer_outcome(
                from,
                to,
                amount,
            ),
            r is Err ==> final(self).accounts() == old(self).accounts(),
    {
        let from_balance = self.balance(from);
        if from_balance < amount {
            return Err(crate::runtime::module_error(RuntimeError::Balances(
                BalancesError::InsufficientBalance,
            )));
        }
        if from == to {
            return Ok(());
        }
        let to_balance = self.balance(to);
        if to_balance == 0 && amount < EXISTENTIAL_DEPOSIT {
            return Err(crate::runtime::module_error(RuntimeError::Balances(
                BalancesError::ExistentialDeposit,
            )));
        }
        if amount > Balance::MAX - to_balance {
            return Err(ApiError::Arithmetic(crate::errors::v0::ArithmeticError::Overflow));
        }
        self.accounts.insert(from, from_balance - amount);
        self.accounts.insert(to, to_balance + amount);
        Ok(())
    }

    /// Whether a transfer of `amount` from `from` to `to` succeeds.
    pub open spec fn spec_transfer_ok(self, from: AccountId, to: AccountId, amount: Balance)
        -> bool {
        &&& self.spec_balance(from) >= amount
        &&& (from == to || {
            &&& self.spec_balance(to) != 0 || amount >= EXISTENTIAL_DEPOSIT
            &&& self.spec_balance(to) + amount <= Balance::MAX
        })
    }

    /// The result value of a transfer of `amount` from `from` to `to`,
    /// pairing each failure mode with its error.
    pub open spec fn spec_transfer_result(self, from: AccountId, to: AccountId, amount: Balance)
        -> Result<(), ApiError> {
        if self.spec_balance(from) < amount {
            Result::Err(
                crate::runtime::spec_module_error(
                    RuntimeError::Balances(BalancesError::InsufficientBalance),
                ),
            )
        } else if from == to {
            Result::Ok(())
        } else if self.spec_balance(to) == 0 && amount < EXISTENTIAL_DEPOSIT {
            Result::Err(
                crate::runtime::spec_module_error(
                    RuntimeError::Balances(BalancesError::ExistentialDeposit),
                ),
            )
        } else if self.spec_balance(to) + amount > Balance::MAX {
            Result::Err(ApiError::Arithmetic(crate::errors::v0::ArithmeticError::Overflow))
        } else {
            Result::Ok(())
        }
    }

    /// The account table after a successful transfer: the sender is debited
    /// and the recipient credited, all other accounts unchanged.
    pub open spec fn spec_transfer_outcome(self, from: AccountId, to: AccountId, amount: Balance)
        -> Map<AccountId, Balance> {
        if from == to {
            self.accounts()
        } else {
            self.accounts().insert(from, (self.spec_balance(from) - amount) as Balance).insert(
                to,
                (self.spec_balance(to) + amount) as Balance,
            )
        }
    }
}

} // verus!
