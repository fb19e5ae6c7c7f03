//! Assets API for the sandbox: fungible-token operations over the sandbox's
//! world state.

use vstd::prelude::*;

use crate::assets::{AssetDetails, AssetStatus};
use crate::runtime::DispatchError;
use crate::sandbox::Sandbox;
use crate::state::{State, StateModel};
use crate::system::Event;
use crate::{AccountId, AssetId, Balance, Origin};

verus! {

/// Fungible-token operations of a sandboxed runtime.
///
/// Every operation works on the live world state: [`Self::api_state`] names
/// that state, and each method's contract pins down exactly how the
/// operation's outcome and the state's content relate.
pub trait AssetsAPI: Sized {
    /// The live world state the API operates on.
    spec fn api_state(self) -> State;

    /// Creates asset `id` owned by `owner`, requiring holdings of at least
    /// `min_balance`.
    ///
    /// Fails if and only if the asset id is in use or the minimum balance is
    /// zero; on failure the state is unchanged.
    fn create(&mut self, id: &AssetId, owner: &AccountId, min_balance: Balance) -> (r: Result<
        (),
        DispatchError,
    >)
        ensures
            r == old(self).api_state().assets.spec_create_result(*id, min_balance),
            r is Ok ==> final(self).api_state().model() == (StateModel {
                assets: old(self).api_state().assets.assets().insert(
                    *id,
                    (AssetDetails {
                        owner: *owner,
                        min_balance,
                        supply: 0,
                        status: AssetStatus::Live,
                    }),
                ),
                events: old(self).api_state().model().events.push(
                    (Event::AssetCreated { asset: *id, owner: *owner }),
                ),
                ..old(self).api_state().model()
            }),
            r is Err ==> final(self).api_state().model() == old(self).api_state().model(),
    ;

    /// Starts the destruction of an existing asset.
    ///
    /// Fails if and only if the asset does not exist; on failure the state is
    /// unchanged.
    fn start_destroy(&mut self, asset: &AssetId) -> (r: Result<(), DispatchError>)
        ensures
            r == old(self).api_state().assets.spec_start_destroy_result(*asset),
            r is Ok ==> final(self).api_state().model() == (StateModel {
                assets: old(self).api_state().assets.assets().insert(
                    *asset,
                    (AssetDetails {
                        status: AssetStatus::Destroying,
                        ..old(self).api_state().assets.spec_details(*asset)->Some_0
                    }),
                ),
                events: old(self).api_state().model().events.push(
                    (Event::DestructionStarted { asset: *asset }),
                ),
                ..old(self).api_state().model()
            }),
            r is Err ==> final(self).api_state().model() == old(self).api_state().model(),
    ;

    /// Sets the name, symbol and decimals of an asset.
    ///
    /// Fails if and only if the origin is not a signature of the asset's
    /// owner, the asset does not exist, or the name or symbol exceeds the
    /// length limit; on failure the state is unchanged.
    fn set_metadata(
        &mut self,
        origin: Origin,
        asset: &AssetId,
        name: Vec<u8>,
        symbol: Vec<u8>,
        decimals: u8,
    ) -> (r: Result<(), DispatchError>)
        ensures
            r == old(self).api_state().assets.spec_set_metadata_result(
                origin,
                *asset,
                name@,
                symbol@,
            ),
            r is Ok ==> final(self).api_state().model() == (StateModel {
                metadata: old(self).api_state().assets.metadata().insert(
                    *asset,
                    (crate::assets::AssetMetadata { name, symbol, decimals }),
                ),
                events: old(self).api_state().model().events.push(
                    (Event::MetadataSet { asset: *asset }),
                ),
                ..old(self).api_state().model()
            }),
            r is Err ==> final(self).api_state().model() == old(self).api_state().model(),
    ;

    /// Approves `delegate` to spend `amount` of `asset` on behalf of
    /// `owner`; successive calls overwrite the previous value.
    ///
    /// Fails if and only if the asset does not exist; on failure the state is
    /// unchanged.
    fn approve(
        &mut self,
        asset: &AssetId,
        owner: &AccountId,
        delegate: &AccountId,
        amount: Balance,
    ) -> (r: Result<(), DispatchError>)
        ensures
            r == old(self).api_state().assets.spec_approve_result(*asset),
            r is Ok ==> final(self).api_state().model() == (StateModel {
                approvals: old(self).api_state().assets.approvals().insert(
                    (crate::assets::ApprovalKey {
                        asset: *asset,
                        owner: *owner,
                        delegate: *delegate,
                    }),
                    amount,
                ),
                events: old(self).api_state().model().events.push(
                    (Event::ApprovedTransfer {
                        asset: *asset,
                        owner: *owner,
                        delegate: *delegate,
                        amount,
                    }),
                ),
                ..old(self).api_state().model()
            }),
            r is Err ==> final(self).api_state().model() == old(self).api_state().model(),
    ;

    /// Mints `value` of `asset` into `account`, increasing the total supply,
    /// and returns the amount minted.
    ///
    /// Fails exactly as the asset table's minting rule says; on failure the
    /// state is unchanged.
    fn mint_into(&mut self, asset: &AssetId, account: &AccountId, value: Balance) -> (r: Result<
        Balance,
        DispatchError,
    >)
        ensures
            r == match old(self).api_state().assets.spec_mint_result(*asset, *account, value) {
                Result::Ok(()) => Result::<Balance, DispatchError>::Ok(value),
                Result::Err(e) => Result::<Balance, DispatchError>::Err(e),
            },
            r is Ok ==> final(self).api_state().model() == (StateModel {
                assets: old(self).api_state().assets.assets().insert(
                    *asset,
                    (AssetDetails {
                        supply: (old(self).api_state().assets.spec_supply(*asset)
                            + value) as Balance,
                        ..old(self).api_state().assets.spec_details(*asset)->Some_0
                    }),
                ),
                holdings: old(self).api_state().assets.holdings().insert(
                    crate::assets::spec_holding_key(*asset, *account),
                    (old(self).api_state().assets.spec_balance(*asset, *account)
                        + value) as Balance,
                ),
                events: old(self).api_state().model().events.push(
                    (Event::AssetsIssued { asset: *asset, owner: *account, amount: value }),
                ),
                ..old(self).api_state().model()
            }),
            r is Err ==> final(self).api_state().model() == old(self).api_state().model(),
    ;

    /// Transfers `amount` of `asset` from `from` to `to`.
    ///
    /// Fails exactly as the asset table's transfer rule says; on failure the
    /// state is unchanged.
    fn transfer(&mut self, asset: &AssetId, from: &AccountId, to: &AccountId, amount: Balance)
        -> (r: Result<(), DispatchError>)
        ensures
            r == old(self).api_state().assets.spec_transfer_result(*asset, *from, *to, amount),
            r is Ok ==> final(self).api_state().model() == (StateModel {
                holdings: old(self).api_state().assets.spec_transfer_outcome(
                    *asset,
                    *from,
                    *to,
                    amount,
                ),
                events: old(self).api_state().model().events.push(
                    (Event::AssetsTransferred {
                        asset: *asset,
                        from: *from,
                        to: *to,
                        amount,
                    }),
                ),
                ..old(self).api_state().model()
            }),
            r is Err ==> final(self).api_state().model() == old(self).api_state().model(),
    ;

    /// Burns `amount` of `asset` from `who`, decreasing the total supply.
    ///
    /// Fails exactly as the asset table's burning rule says; on failure the
    /// state is unchanged.
    fn burn(&mut self, asset: &AssetId, who: &AccountId, amount: Balance) -> (r: Result<
        (),
        DispatchError,
    >)
        ensures
            r == old(self).api_state().assets.spec_burn_result(*asset, *who, amount),
            r is Ok ==> final(self).api_state().model() == (StateModel {
                assets: old(self).api_state().assets.assets().insert(
                    *asset,
                    (AssetDetails {
                        supply: (old(self).api_state().assets.spec_supply(*asset)
                            - amount) as Balance,
                        ..old(self).api_state().assets.spec_details(*asset)->Some_0
                    }),
                ),
                holdings: old(self).api_state().assets.holdings().insert(
                    crate::assets::spec_holding_key(*asset, *who),
                    (old(self).api_state().assets.spec_balance(*asset, *who) - amount) as Balance,
                ),
                events: old(self).api_state().model().events.push(
                    (Event::AssetsBurned { asset: *asset, owner: *who, amount }),
                ),
                ..old(self).api_state().model()
            }),
            r is Err ==> final(self).api_state().model() == old(self).api_state().model(),
    ;

    /// Reads the balance `owner` holds of `asset`.
    fn balance_of(&mut self, asset: &AssetId, owner: &AccountId) -> (r: Balance)
        ensures
            r == old(self).api_state().assets.spec_balance(*asset, *owner),
            *final(self) == *old(self),
    ;

    /// Reads the total supply of `asset`.
    fn total_supply(&mut self, asset: &AssetId) -> (r: Balance)
        ensures
            r == old(self).api_state().assets.spec_supply(*asset),
            *final(self) == *old(self),
    ;

    /// Reads the amount of `asset` that `owner` approved `delegate` to
    /// spend.
    fn allowance(&mut self, asset: &AssetId, owner: &AccountId, delegate: &AccountId) -> (r:
        Balance)
        ensures
            r == old(self).api_state().assets.spec_allowance(*asset, *owner, *delegate),
            *final(self) == *old(self),
    ;

    /// Whether `asset` exists.
    fn asset_exists(&mut self, asset: &AssetId) -> (r: bool)
        ensures
            r == old(self).api_state().assets.spec_exists(*asset),
            *final(self) == *old(self),
    ;
}

impl AssetsAPI for Sandbox {
    open spec fn api_state(self) -> State {
        self.state()
    }

    fn create(&mut self, id: &AssetId, owner: &AccountId, min_balance: Balance) -> (r: Result<
        (),
        DispatchError,
    >) {
        let state = self.state_mut();
        let r = state.assets.create(*id, *owner, min_balance);
        if r.is_ok() {
            state.system.deposit_event(Event::AssetCreated { asset: *id, owner: *owner });
        }
        proof {
            assert(self.api_state().model() =~= if r is Ok {
                StateModel {
                    assets: old(self).api_state().assets.assets().insert(
                        *id,
                        (AssetDetails {
                            owner: *owner,
                            min_balance,
                            supply: 0,
                            status: AssetStatus::Live,
                        }),
                    ),
                    events: old(self).api_state().model().events.push(
                        (Event::AssetCreated { asset: *id, owner: *owner }),
                    ),
                    ..old(self).api_state().model()
                }
            } else {
                old(self).api_state().model()
            });
        }
        r
    }

    fn start_destroy(&mut self, asset: &AssetId) -> (r: Result<(), DispatchError>) {
        let state = self.state_mut();
        let r = state.assets.start_destroy(*asset);
        if r.is_ok() {
            state.system.deposit_event(Event::DestructionStarted { asset: *asset });
        }
        proof {
            assert(self.api_state().model() =~= if r is Ok {
                StateModel {
                    assets: old(self).api_state().assets.assets().insert(
                        *asset,
                        (AssetDetails {
                            status: AssetStatus::Destroying,
                            ..old(self).api_state().assets.spec_details(*asset)->Some_0
                        }),
                    ),
                    events: old(self).api_state().model().events.push(
                        (Event::DestructionStarted { asset: *asset }),
                    ),
                    ..old(self).api_state().model()
                }
            } else {
                old(self).api_state().model()
            });
        }
        r
    }

    fn set_metadata(
        &mut self,
        origin: Origin,
        asset: &AssetId,
        name: Vec<u8>,
        symbol: Vec<u8>,
        decimals: u8,
    ) -> (r: Result<(), DispatchError>) {
        let state = self.state_mut();
        let r = state.assets.set_metadata(origin, *asset, name, symbol, decimals);
        if r.is_ok() {
            state.system.deposit_event(Event::MetadataSet { asset: *asset });
        }
        proof {
            assert(self.api_state().model() =~= if r is Ok {
                StateModel {
                    metadata: old(self).api_state().assets.metadata().insert(
                        *asset,
                        (crate::assets::AssetMetadata { name, symbol, decimals }),
                    ),
                    events: old(self).api_state().model().events.push(
                        (Event::MetadataSet { asset: *asset }),
                    ),
                    ..old(self).api_state().model()
                }
            } else {
                old(self).api_state().model()
            });
        }
        r
    }

    fn approve(
        &mut self,
        asset: &AssetId,
        owner: &AccountId,
        delegate: &AccountId,
        amount: Balance,
    ) -> (r: Result<(), DispatchError>) {
        let state = self.state_mut();
        let r = state.assets.approve(*asset, *owner, *delegate, amount);
        if r.is_ok() {
            state.system.deposit_event(
                Event::ApprovedTransfer {
                    asset: *asset,
                    owner: *owner,
                    delegate: *delegate,
                    amount,
                },
            );
        }
        proof {
            assert(self.api_state().model() =~= if r is Ok {
                StateModel {
                    approvals: old(self).api_state().assets.approvals().insert(
                        (crate::assets::ApprovalKey {
                            asset: *asset,
                            owner: *owner,
                            delegate: *delegate,
                        }),
                        amount,
                    ),
                    events: old(self).api_state().model().events.push(
                        (Event::ApprovedTransfer {
                            asset: *asset,
                            owner: *owner,
                            delegate: *delegate,
                            amount,
                        }),
                    ),
                    ..old(self).api_state().model()
                }
            } else {
                old(self).api_state().model()
            });
        }
        r
    }

    fn mint_into(&mut self, asset: &AssetId, account: &AccountId, value: Balance) -> (r: Result<
        Balance,
        DispatchError,
    >) {
        let state = self.state_mut();
        let r = match state.assets.mint(*asset, *account, value) {
            Ok(()) => {
                state.system.deposit_event(
                    Event::AssetsIssued { asset: *asset, owner: *account, amount: value },
                );
                Ok(value)
            },
            Err(e) => Err(e),
        };
        proof {
            assert(self.api_state().model() =~= if r is Ok {
                StateModel {
                    assets: old(self).api_state().assets.assets().insert(
                        *asset,
                        (AssetDetails {
                            supply: (old(self).api_state().assets.spec_supply(*asset)
                                + value) as Balance,
                            ..old(self).api_state().assets.spec_details(*asset)->Some_0
                        }),
                    ),
                    holdings: old(self).api_state().assets.holdings().insert(
                        crate::assets::spec_holding_key(*asset, *account),
                        (old(self).api_state().assets.spec_balance(*asset, *account)
                            + value) as Balance,
                    ),
                    events: old(self).api_state().model().events.push(
                        (Event::AssetsIssued { asset: *asset, owner: *account, amount: value }),
                    ),
                    ..old(self).api_state().model()
                }
            } else {
                old(self).api_state().model()
            });
        }
        r
    }

    fn transfer(&mut self, asset: &AssetId, from: &AccountId, to: &AccountId, amount: Balance)
        -> (r: Result<(), DispatchError>) {
        let state = self.state_mut();
        let r = state.assets.transfer(*asset, *from, *to, amount);
        if r.is_ok() {
            state.system.deposit_event(
                Event::AssetsTransferred { asset: *asset, from: *from, to: *to, amount },
            );
        }
        proof {
            assert(self.api_state().model() =~= if r is Ok {
                StateModel {
                    holdings: old(self).api_state().assets.spec_transfer_outcome(
                        *asset,
                        *from,
                        *to,
                        amount,
                    ),
                    events: old(self).api_state().model().events.push(
                        (Event::AssetsTransferred {
                            asset: *asset,
                            from: *from,
                            to: *to,
                            amount,
                        }),
                    ),
                    ..old(self).api_state().model()
                }
            } else {
                old(self).api_state().model()
            });
        }
        r
    }

    fn burn(&mut self, asset: &AssetId, who: &AccountId, amount: Balance) -> (r: Result<
        (),
        DispatchError,
    >) {
        let state = self.state_mut();
        let r = state.assets.burn(*asset, *who, amount);
        if r.is_ok() {
            state.system.deposit_event(
                Event::AssetsBurned { asset: *asset, owner: *who, amount },
            );
        }
        proof {
            assert(self.api_state().model() =~= if r is Ok {
                StateModel {
                    assets: old(self).api_state().assets.assets().insert(
                        *asset,
                        (AssetDetails {
                            supply: (old(self).api_state().assets.spec_supply(*asset)
                                - amount) as Balance,
                            ..old(self).api_state().assets.spec_details(*asset)->Some_0
                        }),
                    ),
                    holdings: old(self).api_state().assets.holdings().insert(
                        crate::assets::spec_holding_key(*asset, *who),
                        (old(self).api_state().assets.spec_balance(*asset, *who)
                            - amount) as Balance,
                    ),
                    events: old(self).api_state().model().events.push(
                        (Event::AssetsBurned { asset: *asset, owner: *who, amount }),
                    ),
                    ..old(self).api_state().model()
                }
            } else {
                old(self).api_state().model()
            });
        }
        r
    }

    fn balance_of(&mut self, asset: &AssetId, owner: &AccountId) -> (r: Balance) {
        self.state_ref().assets.balance_of(*asset, *owner)
    }

    fn total_supply(&mut self, asset: &AssetId) -> (r: Balance) {
        self.state_ref().assets.total_supply(*asset)
    }

    fn allowance(&mut self, asset: &AssetId, owner: &AccountId, delegate: &AccountId) -> (r:
        Balance) {
        self.state_ref().assets.allowance(*asset, *owner, *delegate)
    }

    fn asset_exists(&mut self, asset: &AssetId) -> (r: bool) {
        self.state_ref().assets.asset_exists(*asset)
    }
}

} // verus!
