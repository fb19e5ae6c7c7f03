//! The world state store: one owned, in-memory value holding everything the
//! sandboxed runtime keeps in chain storage.
//!
//! There are no hidden globals: every execution borrows a `State` explicitly,
//! and a snapshot is an ordinary value that can later be restored atomically.

use vstd::prelude::*;

use crate::assets::{ApprovalKey, AssetDetails, AssetMetadata, AssetsState};
use crate::balances::BalancesState;
use crate::nfts::{CollectionDetails, CollectionId, ItemDetails, NftsState};
use crate::system::{BlockPhase, Event, SystemState};
use crate::{AccountId, AssetId, Balance, BlockHash, BlockNumber, Moment};

verus! {

/// The mathematical content of a [`State`]: every storage table and scalar,
/// as maps, sequences and plain values.
#[verifier::ext_equal]
pub ghost struct StateModel {
    /// The current block height.
    pub block_number: BlockNumber,
    /// The parent hash of the current block.
    pub parent_hash: BlockHash,
    /// The block lifecycle phase.
    pub phase: BlockPhase,
    /// The events of the current block, oldest first.
    pub events: Seq<Event>,
    /// The current block's timestamp.
    pub timestamp: Moment,
    /// The native currency account table.
    pub balances: Map<AccountId, Balance>,
    /// The asset table.
    pub assets: Map<AssetId, AssetDetails>,
    /// The asset holdings table.
    pub holdings: Map<u128, Balance>,
    /// The asset approvals table.
    pub approvals: Map<ApprovalKey, Balance>,
    /// The asset metadata table.
    pub metadata: Map<AssetId, AssetMetadata>,
    /// The collection table of the non-fungibles module.
    pub collections: Map<CollectionId, CollectionDetails>,
    /// The item table of the non-fungibles module.
    pub items: Map<u64, ItemDetails>,
    /// The per-account item counts of the non-fungibles module.
    pub nft_holdings: Map<u128, u32>,
    /// The next free collection id of the non-fungibles module.
    pub next_collection_id: CollectionId,
}

/// The world state store of one sandbox.
pub struct State {
    /// Block lifecycle bookkeeping and the event log.
    pub system: SystemState,
    /// The native currency accounts.
    pub balances: BalancesState,
    /// The fungible assets.
    pub assets: AssetsState,
    /// The non-fungible collections and items.
    pub nfts: NftsState,
    /// The current block's timestamp, in seconds.
    pub timestamp: Moment,
}

impl State {
    /// The content of the empty genesis state.
    pub open spec fn empty_model() -> StateModel {
        StateModel {
            block_number: 0,
            parent_hash: 0,
            phase: BlockPhase::Closed,
            events: Seq::<Event>::empty(),
            timestamp: 0,
            balances: Map::<AccountId, Balance>::empty(),
            assets: Map::<AssetId, AssetDetails>::empty(),
            holdings: Map::<u128, Balance>::empty(),
            approvals: Map::<ApprovalKey, Balance>::empty(),
            metadata: Map::<AssetId, AssetMetadata>::empty(),
            collections: Map::<CollectionId, CollectionDetails>::empty(),
            items: Map::<u64, ItemDetails>::empty(),
            nft_holdings: Map::<u128, u32>::empty(),
            next_collection_id: 0,
        }
    }

    /// The mathematical content of this state.
    pub open spec fn model(self) -> StateModel {
        StateModel {
            block_number: self.system.spec_block_number(),
            parent_hash: self.system.spec_parent_hash(),
            phase: self.system.spec_phase(),
            events: self.system.spec_events(),
            timestamp: self.timestamp,
            balances: self.balances.accounts(),
            assets: self.assets.assets(),
            holdings: self.assets.holdings(),
            approvals: self.assets.approvals(),
            metadata: self.assets.metadata(),
            collections: self.nfts.collections(),
            items: self.nfts.items(),
            nft_holdings: self.nfts.holdings(),
            next_collection_id: self.nfts.spec_next_collection_id(),
        }
    }

    /// Creates the empty genesis state: height zero, no accounts, no assets.
    pub fn empty() -> (r: State)
        ensures
            r.model() == State::empty_model(),
    {
        let state = State {
            system: SystemState::genesis(),
            balances: BalancesState::empty(),
            assets: AssetsState::empty(),
            nfts: NftsState::empty(),
            timestamp: 0,
        };
        proof {
            assert(state.model() =~= State::empty_model());
        }
        state
    }

    /// Captures the current state opaquely as an ordinary value: the snapshot
    /// has exactly the same mathematical content.
    pub fn snapshot(&self) -> (r: State)
        ensures
            r.model() == self.model(),
    {
        let state = State {
            system: self.system.snapshot(),
            balances: self.balances.snapshot(),
            assets: self.assets.snapshot(),
            nfts: self.nfts.snapshot(),
            timestamp: self.timestamp,
        };
        proof {
            assert(state.model() =~= self.model());
        }
        state
    }
}

} // verus!
