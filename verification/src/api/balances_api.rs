//! Balances API for the sandbox: native-currency operations over the
//! sandbox's world state.

use vstd::prelude::*;

use crate::runtime::DispatchError;
use crate::sandbox::Sandbox;
use crate::state::{State, StateModel};
use crate::system::Event;
use crate::{AccountId, Balance};

verus! {

/// Native-currency operations of a sandboxed runtime.
///
/// Every operation works on the live world state: [`Self::api_state`] names
/// that state, and each method's contract pins down exactly how the
/// operation's outcome and the state's content relate.
pub trait BalancesAPI: Sized {
    /// The live world state the API operates on.
    spec fn api_state(self) -> State;

    /// Reads the free balance of `address`.
    fn free_balance(&mut self, address: &AccountId) -> (r: Balance)
        ensures
            r == old(self).api_state().balances.spec_balance(*address),
            *final(self) == *old(self),
    ;

    /// Mints `amount` into `address` and returns the account's new balance.
    ///
    /// Fails if and only if the account's balance would overflow; on failure
    /// the state is unchanged.
    fn mint_into(&mut self, address: &AccountId, amount: Balance) -> (r: Result<
        Balance,
        DispatchError,
    >)
        ensures
            old(self).api_state().balances.spec_balance(*address) + amount <= Balance::MAX ==> {
                &&& r == Result::<Balance, DispatchError>::Ok(
                    (old(self).api_state().balances.spec_balance(*address) + amount) as Balance,
                )
                &&& final(self).api_state().model() == (StateModel {
                    balances: old(self).api_state().balances.accounts().insert(
                        *address,
                        (old(self).api_state().balances.spec_balance(*address)
                            + amount) as Balance,
                    ),
                    events: old(self).api_state().model().events.push(
                        (Event::Minted { who: *address, amount }),
                    ),
                    ..old(self).api_state().model()
                })
            },
            old(self).api_state().balances.spec_balance(*address) + amount > Balance::MAX ==> {
                &&& r == Result::<Balance, DispatchError>::Err(
                    crate::errors::v0::ApiError::Arithmetic(
                        crate::errors::v0::ArithmeticError::Overflow,
                    ),
                )
                &&& final(self).api_state().model() == old(self).api_state().model()
            },
    ;

    /// Transfers `amount` from `from` to `to`.
    ///
    /// Fails exactly as the balance table's transfer rule says; on failure
    /// the state is unchanged.
    fn transfer(&mut self, from: &AccountId, to: &AccountId, amount: Balance) -> (r: Result<
        (),
        DispatchError,
    >)
        ensures
            r == old(self).api_state().balances.spec_transfer_result(*from, *to, amount),
            r is Ok ==> final(self).api_state().model() == (StateModel {
                balances: old(self).api_state().balances.spec_transfer_outcome(
                    *from,
                    *to,
                    amount,
                ),
                events: old(self).api_state().model().events.push(
                    (Event::Transfer { from: *from, to: *to, amount }),
                ),
                ..old(self).api_state().model()
            }),
            r is Err ==> final(self).api_state().model() == old(self).api_state().model(),
    ;
}

impl BalancesAPI for Sandbox {
    open spec fn api_state(self) -> State {
        self.state()
    }

    fn free_balance(&mut self, address: &AccountId) -> (r: Balance) {
        self.state_ref().balances.balance(*address)
    }

    fn mint_into(&mut self, address: &AccountId, amount: Balance) -> (r: Result<
        Balance,
        DispatchError,
    >) {
        let state = self.state_mut();
        let r = state.balances.mint_into(*address, amount);
        if r.is_ok() {
            state.system.deposit_event(Event::Minted { who: *address, amount });
        }
        proof {
            assert(self.api_state().model() =~= if r is Ok {
                StateModel {
                    balances: old(self).api_state().balances.accounts().insert(
                        *address,
                        (old(self).api_state().balances.spec_balance(*address)
                            + amount) as Balance,
                    ),
                    events: old(self).api_state().model().events.push(
                        (Event::Minted { who: *address, amount }),
                    ),
                    ..old(self).api_state().model()
                }
            } else {
                old(self).api_state().model()
            });
        }
        r
    }

    fn transfer(&mut self, from: &AccountId, to: &AccountId, amount: Balance) -> (r: Result<
        (),
        DispatchError,
    >) {
        let state = self.state_mut();
        let r = state.balances.transfer(*from, *to, amount);
        if r.is_ok() {
            state.system.deposit_event(Event::Transfer { from: *from, to: *to, amount });
        }
        proof {
            assert(self.api_state().model() =~= if r is Ok {
                StateModel {
                    balances: old(self).api_state().balances.spec_transfer_outcome(
                        *from,
                        *to,
                        amount,
                    ),
                    events: old(self).api_state().model().events.push(
                        (Event::Transfer { from: *from, to: *to, amount }),
                    ),
                    ..old(self).api_state().model()
                }
            } else {
                old(self).api_state().model()
            });
        }
        r
    }
}

} // verus!
