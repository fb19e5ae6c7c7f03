//! Nfts API for the sandbox: non-fungible operations over the sandbox's
//! world state.

use vstd::prelude::*;

use crate::nfts::{CollectionDetails, CollectionId, ItemDetails, ItemId};
use crate::runtime::DispatchError;
use crate::sandbox::Sandbox;
use crate::state::{State, StateModel};
use crate::system::Event;
use crate::{AccountId, Origin};

verus! {

/// Non-fungible operations of a sandboxed runtime.
///
/// Every operation works on the live world state: [`Self::api_state`] names
/// that state, and each method's contract pins down exactly how the
/// operation's outcome and the state's content relate.
pub trait NftsAPI: Sized {
    /// The live world state the API operates on.
    spec fn api_state(self) -> State;

    /// The id the next created collection will get.
    fn next_collection_id(&mut self) -> (r: CollectionId)
        ensures
            r == old(self).api_state().nfts.spec_next_collection_id(),
            *final(self) == *old(self),
    ;

    /// Creates a collection at the next free id. The signer of `origin`
    /// becomes the collection's owner and administers it; `admin` is the
    /// account the front end proposes as administrator, which this runtime
    /// resolves to the signer.
    ///
    /// Fails if and only if the origin is not signed or the collection ids
    /// are exhausted; on failure the state is unchanged.
    fn create(&mut self, origin: Origin, admin: &AccountId) -> (r: Result<(), DispatchError>)
        ensures
            r == old(self).api_state().nfts.spec_create_result(origin),
            r is Ok ==> final(self).api_state().model() == (StateModel {
                collections: old(self).api_state().nfts.collections().insert(
                    old(self).api_state().nfts.spec_next_collection_id(),
                    (CollectionDetails { owner: origin->Signed_0, items: 0 }),
                ),
                next_collection_id: (old(self).api_state().nfts.spec_next_collection_id()
                    + 1) as CollectionId,
                events: old(self).api_state().model().events.push(
                    (Event::CollectionCreated {
                        collection: old(self).api_state().nfts.spec_next_collection_id(),
                        owner: origin->Signed_0,
                    }),
                ),
                ..old(self).api_state().model()
            }),
            r is Err ==> final(self).api_state().model() == old(self).api_state().model(),
    ;

    /// Destroys an empty collection.
    ///
    /// Fails exactly as the collection table's destruction rule says; on
    /// failure the state is unchanged.
    fn destroy(&mut self, origin: Origin, collection: CollectionId) -> (r: Result<
        (),
        DispatchError,
    >)
        ensures
            r == old(self).api_state().nfts.spec_destroy_result(origin, collection),
            r is Ok ==> final(self).api_state().model() == (StateModel {
                collections: old(self).api_state().nfts.collections().remove(collection),
                events: old(self).api_state().model().events.push(
                    (Event::CollectionDestroyed { collection }),
                ),
                ..old(self).api_state().model()
            }),
            r is Err ==> final(self).api_state().model() == old(self).api_state().model(),
    ;

    /// Mints `item` of `collection` to the `mint_to` account.
    ///
    /// Fails exactly as the item table's minting rule says; on failure the
    /// state is unchanged.
    fn mint(
        &mut self,
        origin: Origin,
        collection: CollectionId,
        item: ItemId,
        mint_to: &AccountId,
    ) -> (r: Result<(), DispatchError>)
        ensures
            r == old(self).api_state().nfts.spec_mint_result(origin, collection, item, *mint_to),
            r is Ok ==> final(self).api_state().model() == (StateModel {
                items: old(self).api_state().nfts.items().insert(
                    crate::nfts::spec_item_key(collection, item),
                    (ItemDetails { owner: *mint_to }),
                ),
                collections: old(self).api_state().nfts.collections().insert(
                    collection,
                    (CollectionDetails {
                        items: (old(self).api_state().nfts.spec_collection(
                            collection,
                        )->Some_0.items + 1) as u32,
                        ..old(self).api_state().nfts.spec_collection(collection)->Some_0
                    }),
                ),
                nft_holdings: old(self).api_state().nfts.holdings().insert(
                    crate::assets::spec_holding_key(collection, *mint_to),
                    (old(self).api_state().nfts.spec_balance(collection, *mint_to) + 1) as u32,
                ),
                events: old(self).api_state().model().events.push(
                    (Event::NftMinted { collection, item, owner: *mint_to }),
                ),
                ..old(self).api_state().model()
            }),
            r is Err ==> final(self).api_state().model() == old(self).api_state().model(),
    ;

    /// Burns `item` of `collection`; only its owner may.
    ///
    /// Fails exactly as the item table's burning rule says; on failure the
    /// state is unchanged.
    fn burn(&mut self, origin: Origin, collection: CollectionId, item: ItemId) -> (r: Result<
        (),
        DispatchError,
    >)
        ensures
            r == old(self).api_state().nfts.spec_burn_result(origin, collection, item),
            r is Err ==> final(self).api_state().model() == old(self).api_state().model(),
            r is Ok ==> final(self).api_state().model() == (StateModel {
                items: old(self).api_state().nfts.items().remove(
                    crate::nfts::spec_item_key(collection, item),
                ),
                collections: match old(self).api_state().nfts.spec_collection(collection) {
                    Some(d) => old(self).api_state().nfts.collections().insert(
                        collection,
                        (CollectionDetails {
                            items: if d.items > 0 {
                                (d.items - 1) as u32
                            } else {
                                0
                            },
                            ..d
                        }),
                    ),
                    None => old(self).api_state().nfts.collections(),
                },
                nft_holdings: old(self).api_state().nfts.holdings().insert(
                    crate::assets::spec_holding_key(collection, origin->Signed_0),
                    if old(self).api_state().nfts.spec_balance(collection, origin->Signed_0)
                        > 0 {
                        (old(self).api_state().nfts.spec_balance(collection, origin->Signed_0)
                            - 1) as u32
                    } else {
                        0
                    },
                ),
                events: old(self).api_state().model().events.push(
                    (Event::NftBurned { collection, item }),
                ),
                ..old(self).api_state().model()
            }),
    ;

    /// Transfers `item` of `collection` to `dest`; only its owner may.
    ///
    /// Fails exactly as the item table's transfer rule says; on failure the
    /// state is unchanged.
    fn transfer(
        &mut self,
        origin: Origin,
        collection: CollectionId,
        item: ItemId,
        dest: &AccountId,
    ) -> (r: Result<(), DispatchError>)
        ensures
            r == old(self).api_state().nfts.spec_transfer_result(origin, collection, item, *dest),
            r is Ok ==> final(self).api_state().model() == (StateModel {
                items: old(self).api_state().nfts.items().insert(
                    crate::nfts::spec_item_key(collection, item),
                    (ItemDetails { owner: *dest }),
                ),
                nft_holdings: old(self).api_state().nfts.spec_transfer_holdings(
                    collection,
                    origin->Signed_0,
                    *dest,
                ),
                events: old(self).api_state().model().events.push(
                    (Event::NftTransferred { collection, item, dest: *dest }),
                ),
                ..old(self).api_state().model()
            }),
            r is Err ==> final(self).api_state().model() == old(self).api_state().model(),
    ;

    /// Reads how many items of `collection` the `owner` account holds.
    fn balance_of(&mut self, collection: &CollectionId, owner: &AccountId) -> (r: u32)
        ensures
            r == old(self).api_state().nfts.spec_balance(*collection, *owner),
            *final(self) == *old(self),
    ;

    /// Reads the number of items `collection` holds.
    fn total_supply(&mut self, collection: CollectionId) -> (r: u32)
        ensures
            r == match old(self).api_state().nfts.spec_collection(collection) {
                Some(d) => d.items,
                None => 0,
            },
            *final(self) == *old(self),
    ;

    /// Reads the owner of `collection`.
    fn collection_owner(&mut self, collection: &CollectionId) -> (r: Option<AccountId>)
        ensures
            r == match old(self).api_state().nfts.spec_collection(*collection) {
                Some(d) => Some(d.owner),
                None => None::<AccountId>,
            },
            *final(self) == *old(self),
    ;

    /// Reads the details of `collection`.
    fn collection(&mut self, collection: &CollectionId) -> (r: Option<CollectionDetails>)
        ensures
            r == old(self).api_state().nfts.spec_collection(*collection),
            *final(self) == *old(self),
    ;

    /// Reads the details of an item.
    fn item(&mut self, collection: &CollectionId, item: &ItemId) -> (r: Option<ItemDetails>)
        ensures
            r == old(self).api_state().nfts.spec_item(*collection, *item),
            *final(self) == *old(self),
    ;

    /// Reads the owner of an item.
    fn owner(&mut self, collection: &CollectionId, item: &ItemId) -> (r: Option<AccountId>)
        ensures
            r == match old(self).api_state().nfts.spec_item(*collection, *item) {
                Some(d) => Some(d.owner),
                None => None::<AccountId>,
            },
            *final(self) == *old(self),
    ;
}

impl NftsAPI for Sandbox {
    open spec fn api_state(self) -> State {
        self.state()
    }

    fn next_collection_id(&mut self) -> (r: CollectionId) {
        self.state_ref().nfts.next_collection_id()
    }

    fn create(&mut self, origin: Origin, admin: &AccountId) -> (r: Result<(), DispatchError>) {
        let state = self.state_mut();
        let collection = state.nfts.next_collection_id();
        let r = state.nfts.create(origin);
        if r.is_ok() {
            match origin {
                Origin::Signed(who) => {
                    state.system.deposit_event(Event::CollectionCreated { collection, owner: who });
                },
                _ => {},
            }
        }
        proof {
            assert(self.api_state().model() =~= if r is Ok {
                StateModel {
                    collections: old(self).api_state().nfts.collections().insert(
                        old(self).api_state().nfts.spec_next_collection_id(),
                        (CollectionDetails { owner: origin->Signed_0, items: 0 }),
                    ),
                    next_collection_id: (old(self).api_state().nfts.spec_next_collection_id()
                        + 1) as CollectionId,
                    events: old(self).api_state().model().events.push(
                        (Event::CollectionCreated {
                            collection: old(self).api_state().nfts.spec_next_collection_id(),
                            owner: origin->Signed_0,
                        }),
                    ),
                    ..old(self).api_state().model()
                }
            } else {
                old(self).api_state().model()
            });
        }
        r
    }

    fn destroy(&mut self, origin: Origin, collection: CollectionId) -> (r: Result<
        (),
        DispatchError,
    >) {
        let state = self.state_mut();
        let r = state.nfts.destroy(origin, collection);
        if r.is_ok() {
            state.system.deposit_event(Event::CollectionDestroyed { collection });
        }
        proof {
            assert(self.api_state().model() =~= if r is Ok {
                StateModel {
                    collections: old(self).api_state().nfts.collections().remove(collection),
                    events: old(self).api_state().model().events.push(
                        (Event::CollectionDestroyed { collection }),
                    ),
                    ..old(self).api_state().model()
                }
            } else {
                old(self).api_state().model()
            });
        }
        r
    }

    fn mint(
        &mut self,
        origin: Origin,
        collection: CollectionId,
        item: ItemId,
        mint_to: &AccountId,
    ) -> (r: Result<(), DispatchError>) {
        let state = self.state_mut();
        let r = state.nfts.mint(origin, collection, item, *mint_to);
        if r.is_ok() {
            state.system.deposit_event(Event::NftMinted { collection, item, owner: *mint_to });
        }
        proof {
            assert(self.api_state().model() =~= if r is Ok {
                StateModel {
                    items: old(self).api_state().nfts.items().insert(
                        crate::nfts::spec_item_key(collection, item),
                        (ItemDetails { owner: *mint_to }),
                    ),
                    collections: old(self).api_state().nfts.collections().insert(
                        collection,
                        (CollectionDetails {
                            items: (old(self).api_state().nfts.spec_collection(
                                collection,
                            )->Some_0.items + 1) as u32,
                            ..old(self).api_state().nfts.spec_collection(collection)->Some_0
                        }),
                    ),
                    nft_holdings: old(self).api_state().nfts.holdings().insert(
                        crate::assets::spec_holding_key(collection, *mint_to),
                        (old(self).api_state().nfts.spec_balance(collection, *mint_to)
                            + 1) as u32,
                    ),
                    events: old(self).api_state().model().events.push(
                        (Event::NftMinted { collection, item, owner: *mint_to }),
                    ),
                    ..old(self).api_state().model()
                }
            } else {
                old(self).api_state().model()
            });
        }
        r
    }

    fn burn(&mut self, origin: Origin, collection: CollectionId, item: ItemId) -> (r: Result<
        (),
        DispatchError,
    >) {
        let state = self.state_mut();
        let r = state.nfts.burn(origin, collection, item);
        if r.is_ok() {
            state.system.deposit_event(Event::NftBurned { collection, item });
        }
        proof {
            assert(self.api_state().model() =~= if r is Ok {
                StateModel {
                    items: old(self).api_state().nfts.items().remove(
                        crate::nfts::spec_item_key(collection, item),
                    ),
                    collections: match old(self).api_state().nfts.spec_collection(collection) {
                        Some(d) => old(self).api_state().nfts.collections().insert(
                            collection,
                            (CollectionDetails {
                                items: if d.items > 0 {
                                    (d.items - 1) as u32
                                } else {
                                    0
                                },
                                ..d
                            }),
                        ),
                        None => old(self).api_state().nfts.collections(),
                    },
                    nft_holdings: old(self).api_state().nfts.holdings().insert(
                        crate::assets::spec_holding_key(collection, origin->Signed_0),
                        if old(self).api_state().nfts.spec_balance(
                            collection,
                            origin->Signed_0,
                        ) > 0 {
                            (old(self).api_state().nfts.spec_balance(
                                collection,
                                origin->Signed_0,
                            ) - 1) as u32
                        } else {
                            0
                        },
                    ),
                    events: old(self).api_state().model().events.push(
                        (Event::NftBurned { collection, item }),
                    ),
                    ..old(self).api_state().model()
                }
            } else {
                old(self).api_state().model()
            });
        }
        r
    }

    fn transfer(
        &mut self,
        origin: Origin,
        collection: CollectionId,
        item: ItemId,
        dest: &AccountId,
    ) -> (r: Result<(), DispatchError>) {
        let state = self.state_mut();
        let r = state.nfts.transfer(origin, collection, item, *dest);
        if r.is_ok() {
            state.system.deposit_event(Event::NftTransferred { collection, item, dest: *dest });
        }
        proof {
            assert(self.api_state().model() =~= if r is Ok {
                StateModel {
                    items: old(self).api_state().nfts.items().insert(
                        crate::nfts::spec_item_key(collection, item),
                        (ItemDetails { owner: *dest }),
                    ),
                    nft_holdings: old(self).api_state().nfts.spec_transfer_holdings(
                        collection,
                        origin->Signed_0,
                        *dest,
                    ),
                    events: old(self).api_state().model().events.push(
                        (Event::NftTransferred { collection, item, dest: *dest }),
                    ),
                    ..old(self).api_state().model()
                }
            } else {
                old(self).api_state().model()
            });
        }
        r
    }

    fn balance_of(&mut self, collection: &CollectionId, owner: &AccountId) -> (r: u32) {
        self.state_ref().nfts.balance_of(*collection, *owner)
    }

    fn total_supply(&mut self, collection: CollectionId) -> (r: u32) {
        match self.state_ref().nfts.collection(collection) {
            Some(d) => d.items,
            None => 0,
        }
    }

    fn collection_owner(&mut self, collection: &CollectionId) -> (r: Option<AccountId>) {
        match self.state_ref().nfts.collection(*collection) {
            Some(d) => Some(d.owner),
            None => None,
        }
    }

    fn collection(&mut self, collection: &CollectionId) -> (r: Option<CollectionDetails>) {
        self.state_ref().nfts.collection(*collection)
    }

    fn item(&mut self, collection: &CollectionId, item: &ItemId) -> (r: Option<ItemDetails>) {
        self.state_ref().nfts.item(*collection, *item)
    }

    fn owner(&mut self, collection: &CollectionId, item: &ItemId) -> (r: Option<AccountId>) {
        match self.state_ref().nfts.item(*collection, *item) {
            Some(d) => Some(d.owner),
            None => None,
        }
    }
}

} // verus!
