//! The non-fungibles module of the sandboxed runtime: collections of unique
//! items and their owners.

use std::collections::HashMap;

use vstd::prelude::*;

use crate::assets::{holding_key, spec_holding_key};
use crate::errors::v0::ApiError;
use crate::runtime::{module_error, spec_module_error, NftsError, RuntimeError};
use crate::{AccountId, Origin};

verus! {

broadcast use vstd::std_specs::hash::group_hash_axioms;

/// Collection identifier type used by the sandboxed runtime.
pub type CollectionId = u32;

/// Item identifier type used by the sandboxed runtime.
pub type ItemId = u32;

/// Packs a collection id and an item id into one storage key.
pub open spec fn spec_item_key(collection: CollectionId, item: ItemId) -> u64 {
    ((collection as u64) << 32) | (item as u64)
}

/// Packing is injective: distinct (collection, item) pairs name distinct
/// keys.
pub proof fn lemma_item_key_injective(
    collection1: CollectionId,
    item1: ItemId,
    collection2: CollectionId,
    item2: ItemId,
)
    ensures
        spec_item_key(collection1, item1) == spec_item_key(collection2, item2) ==> collection1
            == collection2 && item1 == item2,
{
    assert((((collection1 as u64) << 32) | (item1 as u64)) == (((collection2 as u64) << 32) | (
    item2 as u64)) ==> collection1 == collection2 && item1 == item2) by (bit_vector);
}

/// Computes the storage key of a (collection, item) pair.
pub fn item_key(collection: CollectionId, item: ItemId) -> (r: u64)
    ensures
        r == spec_item_key(collection, item),
{
    ((collection as u64) << 32) | (item as u64)
}

/// The registered details of one collection.
#[derive(Clone, Copy, Debug, PartialEq, Eq, Structural)]
pub struct CollectionDetails {
    /// The account that owns and administers the collection.
    pub owner: AccountId,
    /// The number of items the collection holds.
    pub items: u32,
}

/// The registered details of one item.
#[derive(Clone, Copy, Debug, PartialEq, Eq, Structural)]
pub struct ItemDetails {
    /// The account that owns the item.
    pub owner: AccountId,
}

/// Non-fungible storage: collections, items, per-account item counts, and
/// the next free collection id.
pub struct NftsState {
    collections: HashMap<CollectionId, CollectionDetails>,
    items: HashMap<u64, ItemDetails>,
    holdings: HashMap<u128, u32>,
    next_collection_id: CollectionId,
}

impl NftsState {
    /// The collection table.
    pub closed spec fn collections(self) -> Map<CollectionId, CollectionDetails> {
        self.collections@
    }

    /// The item table, keyed by [`spec_item_key`].
    pub closed spec fn items(self) -> Map<u64, ItemDetails> {
        self.items@
    }

    /// The per-account item counts, keyed by
    /// [`crate::assets::spec_holding_key`].
    pub closed spec fn holdings(self) -> Map<u128, u32> {
        self.holdings@
    }

    /// The next free collection id.
    pub closed spec fn spec_next_collection_id(self) -> CollectionId {
        self.next_collection_id
    }

    /// The registered details of `collection`, if it exists.
    pub open spec fn spec_collection(self, collection: CollectionId) -> Option<CollectionDetails> {
        if self.collections().contains_key(collection) {
            Some(self.collections()[collection])
        } else {
            None
        }
    }

    /// The registered details of an item, if it exists.
    pub open spec fn spec_item(self, collection: CollectionId, item: ItemId) -> Option<
        ItemDetails,
    > {
        if self.items().contains_key(spec_item_key(collection, item)) {
            Some(self.items()[spec_item_key(collection, item)])
        } else {
            None
        }
    }

    /// The number of items of `collection` that `account` owns.
    pub open spec fn spec_balance(self, collection: CollectionId, account: AccountId) -> u32 {
        if self.holdings().contains_key(spec_holding_key(collection, account)) {
            self.holdings()[spec_holding_key(collection, account)]
        } else {
            0
        }
    }

    /// Creates empty non-fungible storage.
    pub fn empty() -> (r: NftsState)
        ensures
            r.collections() == Map::<CollectionId, CollectionDetails>::empty(),
            r.items() == Map::<u64, ItemDetails>::empty(),
            r.holdings() == Map::<u128, u32>::empty(),
            r.spec_next_collection_id() == 0,
    {
        NftsState {
            collections: HashMap::new(),
            items: HashMap::new(),
            holdings: HashMap::new(),
            next_collection_id: 0,
        }
    }

    /// Copies the non-fungible storage; the copy holds exactly the same
    /// tables.
    pub fn snapshot(&self) -> (r: NftsState)
        ensures
            r.collections() == self.collections(),
            r.items() == self.items(),
            r.holdings() == self.holdings(),
            r.spec_next_collection_id() == self.spec_next_collection_id(),
    {
        NftsState {
            collections: self.collections.clone(),
            items: self.items.clone(),
            holdings: self.holdings.clone(),
            next_collection_id: self.next_collection_id,
        }
    }

    /// Reads the next free collection id.
    pub fn next_collection_id(&self) -> (r: CollectionId)
        ensures
            r == self.spec_next_collection_id(),
    {
        self.next_collection_id
    }

    /// Reads the details of `collection`.
    pub fn collection(&self, collection: CollectionId) -> (r: Option<CollectionDetails>)
        ensures
            r == self.spec_collection(collection),
    {
        match self.collections.get(&collection) {
            Some(d) => Some(*d),
            None => None,
        }
    }

    /// Reads the details of an item.
    pub fn item(&self, collection: CollectionId, item: ItemId) -> (r: Option<ItemDetails>)
        ensures
            r == self.spec_item(collection, item),
    {
        match self.items.get(&item_key(collection, item)) {
            Some(d) => Some(*d),
            None => None,
        }
    }

    /// Reads the number of items of `collection` that `account` owns.
    pub fn balance_of(&self, collection: CollectionId, account: AccountId) -> (r: u32)
        ensures
            r == self.spec_balance(collection, account),
    {
        match self.holdings.get(&holding_key(collection, account)) {
            Some(b) => *b,
            None => 0,
        }
    }

    /// The result of creating a collection from `origin`: the origin must be
    /// signed and a collection id must be free.
    pub open spec fn spec_create_result(self, origin: Origin) -> Result<(), ApiError> {
        match origin {
            Origin::Signed(_) => if self.spec_next_collection_id() == CollectionId::MAX {
                Result::Err(ApiError::Arithmetic(crate::errors::v0::ArithmeticError::Overflow))
            } else {
                Result::Ok(())
            },
            _ => Result::Err(ApiError::BadOrigin),
        }
    }

    /// Creates a collection at the next free id, owned by the signer.
    ///
    /// Fails if and only if the origin is not signed or the collection ids
    /// are exhausted; on failure the storage is unchanged.
    pub fn create(&mut self, origin: Origin) -> (r: Result<(), ApiError>)
        ensures
            r == old(self).spec_create_result(origin),
            r is Ok ==> {
                &&& final(self).collections() == old(self).collections().insert(
                    old(self).spec_next_collection_id(),
                    (CollectionDetails { owner: origin->Signed_0, items: 0 }),
                )
                &&& final(self).spec_next_collection_id() == old(self).spec_next_collection_id()
                    + 1
            },
            r is Err ==> {
                &&& final(self).collections() == old(self).collections()
                &&& final(self).spec_next_collection_id() == old(self).spec_next_collection_id()
            },
            final(self).items() == old(self).items(),
            final(self).holdings() == old(self).holdings(),
    {
        let who = match origin {
            Origin::Signed(who) => who,
            _ => {
                return Err(ApiError::BadOrigin);
            },
        };
        if self.next_collection_id == CollectionId::MAX {
            return Err(ApiError::Arithmetic(crate::errors::v0::ArithmeticError::Overflow));
        }
        self.collections.insert(
            self.next_collection_id,
            CollectionDetails { owner: who, items: 0 },
        );
        self.next_collection_id = self.next_collection_id + 1;
        Ok(())
    }

    /// The result of minting an item: the origin must be a signature of the
    /// collection's owner, the item id must be free, and the counters may not
    /// overflow.
    pub open spec fn spec_mint_result(
        self,
        origin: Origin,
        collection: CollectionId,
        item: ItemId,
        mint_to: AccountId,
    ) -> Result<(), ApiError> {
        match origin {
            Origin::Signed(who) => match self.spec_collection(collection) {
                None => Result::Err(
                    spec_module_error(RuntimeError::Nfts(NftsError::UnknownCollection)),
                ),
                Some(d) => if who != d.owner {
                    Result::Err(spec_module_error(RuntimeError::Nfts(NftsError::NoPermission)))
                } else if self.spec_item(collection, item) is Some {
                    Result::Err(spec_module_error(RuntimeError::Nfts(NftsError::AlreadyExists)))
                } else if d.items == u32::MAX || self.spec_balance(collection, mint_to)
                    == u32::MAX {
                    Result::Err(ApiError::Arithmetic(crate::errors::v0::ArithmeticError::Overflow))
                } else {
                    Result::Ok(())
                },
            },
            _ => Result::Err(ApiError::BadOrigin),
        }
    }

    /// Mints `item` of `collection` to `mint_to`.
    ///
    /// Fails exactly as [`Self::spec_mint_result`] says; on failure the
    /// storage is unchanged.
    pub fn mint(
        &mut self,
        origin: Origin,
        collection: CollectionId,
        item: ItemId,
        mint_to: AccountId,
    ) -> (r: Result<(), ApiError>)
        ensures
            r == old(self).spec_mint_result(origin, collection, item, mint_to),
            r is Ok ==> {
                &&& final(self).items() == old(self).items().insert(
                    spec_item_key(collection, item),
                    (ItemDetails { owner: mint_to }),
                )
                &&& final(self).collections() == old(self).collections().insert(
                    collection,
                    (CollectionDetails {
                        items: (old(self).spec_collection(collection)->Some_0.items + 1) as u32,
                        ..old(self).spec_collection(collection)->Some_0
                    }),
                )
                &&& final(self).holdings() == old(self).holdings().insert(
                    spec_holding_key(collection, mint_to),
                    (old(self).spec_balance(collection, mint_to) + 1) as u32,
                )
            },
            r is Err ==> final(self).items() == old(self).items() && final(self).collections()
                == old(self).collections() && final(self).holdings() == old(self).holdings(),
            final(self).spec_next_collection_id() == old(self).spec_next_collection_id(),
    {
        let who = match origin {
            Origin::Signed(who) => who,
            _ => {
                return Err(ApiError::BadOrigin);
            },
        };
        let details = match self.collections.get(&collection) {
            Some(d) => *d,
            None => {
                return Err(module_error(RuntimeError::Nfts(NftsError::UnknownCollection)));
            },
        };
        if who != details.owner {
            return Err(module_error(RuntimeError::Nfts(NftsError::NoPermission)));
        }
        if self.items.contains_key(&item_key(collection, item)) {
            return Err(module_error(RuntimeError::Nfts(NftsError::AlreadyExists)));
        }
        let held = self.balance_of(collection, mint_to);
        if details.items == u32::MAX || held == u32::MAX {
            return Err(ApiError::Arithmetic(crate::errors::v0::ArithmeticError::Overflow));
        }
        self.items.insert(item_key(collection, item), ItemDetails { owner: mint_to });
        self.collections.insert(
            collection,
            CollectionDetails { items: details.items + 1, ..details },
        );
        self.holdings.insert(holding_key(collection, mint_to), held + 1);
        Ok(())
    }

    /// The result of transferring an item: the origin must be a signature of
    /// the item's owner, and the recipient's count may not overflow.
    pub open spec fn spec_transfer_result(
        self,
        origin: Origin,
        collection: CollectionId,
        item: ItemId,
        dest: AccountId,
    ) -> Result<(), ApiError> {
        match origin {
            Origin::Signed(who) => match self.spec_item(collection, item) {
                None => Result::Err(spec_module_error(RuntimeError::Nfts(NftsError::UnknownItem))),
                Some(d) => if who != d.owner {
                    Result::Err(spec_module_error(RuntimeError::Nfts(NftsError::WrongOwner)))
                } else if who != dest && self.spec_balance(collection, dest) == u32::MAX {
                    Result::Err(ApiError::Arithmetic(crate::errors::v0::ArithmeticError::Overflow))
                } else {
                    Result::Ok(())
                },
            },
            _ => Result::Err(ApiError::BadOrigin),
        }
    }

    /// The per-account counts after a successful transfer of an item of
    /// `collection` from `who` to `dest`: the sender's count drops by one (it
    /// cannot drop below zero) and the recipient's count rises by one.
    pub open spec fn spec_transfer_holdings(
        self,
        collection: CollectionId,
        who: AccountId,
        dest: AccountId,
    ) -> Map<u128, u32> {
        if who == dest {
            self.holdings()
        } else {
            let debited = if self.spec_balance(collection, who) > 0 {
                (self.spec_balance(collection, who) - 1) as u32
            } else {
                0
            };
            self.holdings().insert(spec_holding_key(collection, who), debited).insert(
                spec_holding_key(collection, dest),
                (self.spec_balance(collection, dest) + 1) as u32,
            )
        }
    }

    /// Transfers `item` of `collection` to `dest`.
    ///
    /// Fails exactly as [`Self::spec_transfer_result`] says; on failure the
    /// storage is unchanged.
    pub fn transfer(
        &mut self,
        origin: Origin,
        collection: CollectionId,
        item: ItemId,
        dest: AccountId,
    ) -> (r: Result<(), ApiError>)
        ensures
            r == old(self).spec_transfer_result(origin, collection, item, dest),
            r is Ok ==> {
                &&& final(self).items() == old(self).items().insert(
                    spec_item_key(collection, item),
                    (ItemDetails { owner: dest }),
                )
                &&& final(self).holdings() == old(self).spec_transfer_holdings(
                    collection,
                    origin->Signed_0,
                    dest,
                )
            },
            r is Err ==> final(self).items() == old(self).items() && final(self).holdings()
                == old(self).holdings(),
            final(self).collections() == old(self).collections(),
            final(self).spec_next_collection_id() == old(self).spec_next_collection_id(),
    {
        let who = match origin {
            Origin::Signed(who) => who,
            _ => {
                return Err(ApiError::BadOrigin);
            },
        };
        let details = match self.items.get(&item_key(collection, item)) {
            Some(d) => *d,
            None => {
                return Err(module_error(RuntimeError::Nfts(NftsError::UnknownItem)));
            },
        };
        if who != details.owner {
            return Err(module_error(RuntimeError::Nfts(NftsError::WrongOwner)));
        }
        if who == dest {
            self.items.insert(item_key(collection, item), ItemDetails { owner: dest });
            return Ok(());
        }
        let to_held = self.balance_of(collection, dest);
        if to_held == u32::MAX {
            return Err(ApiError::Arithmetic(crate::errors::v0::ArithmeticError::Overflow));
        }
        let from_held = self.balance_of(collection, who);
        let debited: u32 = if from_held > 0 {
            from_held - 1
        } else {
            0
        };
        proof {
            lemma_holding_key_injective_for_nfts(collection, who, collection, dest);
        }
        self.items.insert(item_key(collection, item), ItemDetails { owner: dest });
        self.holdings.insert(holding_key(collection, who), debited);
        self.holdings.insert(holding_key(collection, dest), to_held + 1);
        Ok(())
    }
}

impl NftsState {
    /// The result of burning an item: the origin must be a signature of the
    /// item's owner.
    pub open spec fn spec_burn_result(
        self,
        origin: Origin,
        collection: CollectionId,
        item: ItemId,
    ) -> Result<(), ApiError> {
        match origin {
            Origin::Signed(who) => match self.spec_item(collection, item) {
                None => Result::Err(spec_module_error(RuntimeError::Nfts(NftsError::UnknownItem))),
                Some(d) => if who != d.owner {
                    Result::Err(spec_module_error(RuntimeError::Nfts(NftsError::WrongOwner)))
                } else {
                    Result::Ok(())
                },
            },
            _ => Result::Err(ApiError::BadOrigin),
        }
    }

    /// Burns `item` of `collection`: the item disappears and the collection's
    /// and owner's counts drop by one (they cannot drop below zero).
    ///
    /// Fails exactly as [`Self::spec_burn_result`] says; on failure the
    /// storage is unchanged.
    pub fn burn(&mut self, origin: Origin, collection: CollectionId, item: ItemId) -> (r: Result<
        (),
        ApiError,
    >)
        ensures
            r == old(self).spec_burn_result(origin, collection, item),
            r is Ok ==> {
                &&& final(self).items() == old(self).items().remove(
                    spec_item_key(collection, item),
                )
                &&& final(self).collections() == match old(self).spec_collection(collection) {
                    Some(d) => old(self).collections().insert(
                        collection,
                        (CollectionDetails {
                            items: if d.items > 0 {
                                (d.items - 1) as u32
                            } else {
                                0
                            },
                            ..d
                        }),
                    ),
                    None => old(self).collections(),
                }
                &&& final(self).holdings() == old(self).holdings().insert(
                    spec_holding_key(collection, origin->Signed_0),
                    if old(self).spec_balance(collection, origin->Signed_0) > 0 {
                        (old(self).spec_balance(collection, origin->Signed_0) - 1) as u32
                    } else {
                        0
                    },
                )
            },
            r is Err ==> {
                &&& final(self).items() == old(self).items()
                &&& final(self).collections() == old(self).collections()
                &&& final(self).holdings() == old(self).holdings()
            },
            final(self).spec_next_collection_id() == old(self).spec_next_collection_id(),
    {
        let who = match origin {
            Origin::Signed(who) => who,
            _ => {
                return Err(ApiError::BadOrigin);
            },
        };
        let details = match self.items.get(&item_key(collection, item)) {
            Some(d) => *d,
            None => {
                return Err(module_error(RuntimeError::Nfts(NftsError::UnknownItem)));
            },
        };
        if who != details.owner {
            return Err(module_error(RuntimeError::Nfts(NftsError::WrongOwner)));
        }
        let _ = self.items.remove(&item_key(collection, item));
        match self.collections.get(&collection) {
            Some(d) => {
                let d = *d;
                let decremented: u32 = if d.items > 0 {
                    d.items - 1
                } else {
                    0
                };
                self.collections.insert(
                    collection,
                    CollectionDetails { items: decremented, ..d },
                );
            },
            None => {},
        }
        let held = self.balance_of(collection, who);
        let debited: u32 = if held > 0 {
            held - 1
        } else {
            0
        };
        self.holdings.insert(holding_key(collection, who), debited);
        Ok(())
    }

    /// The result of destroying a collection: the origin must be a signature
    /// of the collection's owner and the collection must hold no items.
    pub open spec fn spec_destroy_result(self, origin: Origin, collection: CollectionId) -> Result<
        (),
        ApiError,
    > {
        match origin {
            Origin::Signed(who) => match self.spec_collection(collection) {
                None => Result::Err(
                    spec_module_error(RuntimeError::Nfts(NftsError::UnknownCollection)),
                ),
                Some(d) => if who != d.owner {
                    Result::Err(spec_module_error(RuntimeError::Nfts(NftsError::NoPermission)))
                } else if d.items != 0 {
                    Result::Err(
                        spec_module_error(RuntimeError::Nfts(NftsError::CollectionNotEmpty)),
                    )
                } else {
                    Result::Ok(())
                },
            },
            _ => Result::Err(ApiError::BadOrigin),
        }
    }

    /// Destroys an empty collection.
    ///
    /// Fails exactly as [`Self::spec_destroy_result`] says; on failure the
    /// storage is unchanged.
    pub fn destroy(&mut self, origin: Origin, collection: CollectionId) -> (r: Result<
        (),
        ApiError,
    >)
        ensures
            r == old(self).spec_destroy_result(origin, collection),
            r is Ok ==> final(self).collections() == old(self).collections().remove(collection),
            r is Err ==> final(self).collections() == old(self).collections(),
            final(self).items() == old(self).items(),
            final(self).holdings() == old(self).holdings(),
            final(self).spec_next_collection_id() == old(self).spec_next_collection_id(),
    {
        let who = match origin {
            Origin::Signed(who) => who,
            _ => {
                return Err(ApiError::BadOrigin);
            },
        };
        let details = match self.collections.get(&collection) {
            Some(d) => *d,
            None => {
                return Err(module_error(RuntimeError::Nfts(NftsError::UnknownCollection)));
            },
        };
        if who != details.owner {
            return Err(module_error(RuntimeError::Nfts(NftsError::NoPermission)));
        }
        if details.items != 0 {
            return Err(module_error(RuntimeError::Nfts(NftsError::CollectionNotEmpty)));
        }
        let _ = self.collections.remove(&collection);
        Ok(())
    }
}

/// Packing is injective for per-account counts too.
proof fn lemma_holding_key_injective_for_nfts(
    collection1: CollectionId,
    account1: AccountId,
    collection2: CollectionId,
    account2: AccountId,
)
    ensures
        spec_holding_key(collection1, account1) == spec_holding_key(collection2, account2)
            ==> collection1 == collection2 && account1 == account2,
{
    crate::assets::lemma_holding_key_injective(collection1, account1, collection2, account2);
}

} // verus!
