//! The system module of the sandboxed runtime: block lifecycle bookkeeping
//! and the per-block event log.

use vstd::prelude::*;

use crate::{AccountId, AssetId, Balance, BlockHash, BlockNumber, Moment};

verus! {

/// Where the chain is in one block's lifecycle.
#[derive(Clone, Copy, Debug, PartialEq, Eq, Structural)]
pub enum BlockPhase {
    /// A block is being initialized.
    Initializing,
    /// A block is open: initialization finished, execution may proceed.
    Open,
    /// The current block was finalized and no new block was initialized yet.
    Closed,
}

/// An event deposited by a runtime module.
#[derive(Clone, Copy, Debug, PartialEq, Eq, Structural)]
pub enum Event {
    /// An asset was created.
    AssetCreated { asset: AssetId, owner: AccountId },
    /// An amount of an asset was minted.
    AssetsIssued { asset: AssetId, owner: AccountId, amount: Balance },
    /// An amount of an asset moved between accounts.
    AssetsTransferred { asset: AssetId, from: AccountId, to: AccountId, amount: Balance },
    /// An amount of an asset was burned.
    AssetsBurned { asset: AssetId, owner: AccountId, amount: Balance },
    /// A spending approval was set.
    ApprovedTransfer { asset: AssetId, owner: AccountId, delegate: AccountId, amount: Balance },
    /// An asset's metadata was set.
    MetadataSet { asset: AssetId },
    /// An asset's destruction started.
    DestructionStarted { asset: AssetId },
    /// Native currency moved between accounts.
    Transfer { from: AccountId, to: AccountId, amount: Balance },
    /// Native currency was minted into an account.
    Minted { who: AccountId, amount: Balance },
    /// A collection was created.
    CollectionCreated { collection: u32, owner: AccountId },
    /// An item was minted into a collection.
    NftMinted { collection: u32, item: u32, owner: AccountId },
    /// An item changed owner.
    NftTransferred { collection: u32, item: u32, dest: AccountId },
    /// An item was burned.
    NftBurned { collection: u32, item: u32 },
    /// A collection was destroyed.
    CollectionDestroyed { collection: u32 },
}

/// One step of the header digest: mixes one word into an accumulator.
pub open spec fn spec_mix(acc: u64, x: u64) -> u64 {
    ((((acc ^ x) as u128) * 0x9E3779B97F4A7C15) % 0x1_0000_0000_0000_0000) as u64
}

/// The digest of a finalized block header: its height, parent hash and
/// timestamp mixed into one word.
pub open spec fn spec_header_digest(height: BlockNumber, parent: BlockHash, now: Moment)
    -> BlockHash {
    spec_mix(spec_mix(spec_mix(0x6861726e657373, height), parent), now)
}

/// Mixes one word into a digest accumulator.
pub fn mix(acc: u64, x: u64) -> (r: u64)
    ensures
        r == spec_mix(acc, x),
{
    ((((acc ^ x) as u128) * 0x9E3779B97F4A7C15) % 0x1_0000_0000_0000_0000) as u64
}

/// Block lifecycle bookkeeping: the current height, its parent hash, the
/// lifecycle phase, and the event log of the current block.
pub struct SystemState {
    block_number: BlockNumber,
    parent_hash: BlockHash,
    phase: BlockPhase,
    events: Vec<Event>,
}

impl SystemState {
    /// The current block height.
    pub closed spec fn spec_block_number(self) -> BlockNumber {
        self.block_number
    }

    /// The parent hash the current block was initialized with.
    pub closed spec fn spec_parent_hash(self) -> BlockHash {
        self.parent_hash
    }

    /// The current lifecycle phase.
    pub closed spec fn spec_phase(self) -> BlockPhase {
        self.phase
    }

    /// The events deposited in the current block, oldest first.
    pub closed spec fn spec_events(self) -> Seq<Event> {
        self.events@
    }

    /// Creates the genesis system state: height zero, no open block.
    pub fn genesis() -> (r: SystemState)
        ensures
            r.spec_block_number() == 0,
            r.spec_parent_hash() == 0,
            r.spec_phase() == BlockPhase::Closed,
            r.spec_events() == Seq::<Event>::empty(),
    {
        SystemState { block_number: 0, parent_hash: 0, phase: BlockPhase::Closed, events: Vec::new() }
    }

    /// Reads the current block height.
    pub fn block_number(&self) -> (r: BlockNumber)
        ensures
            r == self.spec_block_number(),
    {
        self.block_number
    }

    /// Reads the current lifecycle phase.
    pub fn phase(&self) -> (r: BlockPhase)
        ensures
            r == self.spec_phase(),
    {
        self.phase
    }

    /// Reads the event log of the current block, oldest first.
    pub fn events(&self) -> (r: Vec<Event>)
        ensures
            r@ == self.spec_events(),
    {
        let mut events: Vec<Event> = Vec::new();
        let mut i: usize = 0;
        while i < self.events.len()
            invariant
                i <= self.events.len(),
                events@ == self.events@.subrange(0, i as int),
            decreases self.events.len() - i,
        {
            events.push(self.events[i]);
            proof {
                assert(events@ =~= self.events@.subrange(0, i + 1));
            }
            i += 1;
        }
        proof {
            assert(events@ =~= self.events@);
        }
        events
    }

    /// Copies the system state; the copy holds exactly the same fields.
    pub fn snapshot(&self) -> (r: SystemState)
        ensures
            r.spec_block_number() == self.spec_block_number(),
            r.spec_parent_hash() == self.spec_parent_hash(),
            r.spec_phase() == self.spec_phase(),
            r.spec_events() == self.spec_events(),
    {
        SystemState {
            block_number: self.block_number,
            parent_hash: self.parent_hash,
            phase: self.phase,
            events: self.events(),
        }
    }

    /// Empties the event log.
    pub fn reset_events(&mut self)
        ensures
            final(self).spec_events() == Seq::<Event>::empty(),
            final(self).spec_block_number() == old(self).spec_block_number(),
            final(self).spec_parent_hash() == old(self).spec_parent_hash(),
            final(self).spec_phase() == old(self).spec_phase(),
    {
        self.events.clear();
    }

    /// Appends an event to the log.
    pub fn deposit_event(&mut self, event: Event)
        ensures
            final(self).spec_events() == old(self).spec_events().push(event),
            final(self).spec_block_number() == old(self).spec_block_number(),
            final(self).spec_parent_hash() == old(self).spec_parent_hash(),
            final(self).spec_phase() == old(self).spec_phase(),
    {
        self.events.push(event);
    }

    /// Opens block `height`: records the height and parent hash and enters
    /// the initializing phase.
    ///
    /// A block can only be opened when no block is open, at exactly the next
    /// height: the chain's height increases by one per block, with no skips
    /// or repeats.
    pub fn initialize(&mut self, height: BlockNumber, parent_hash: BlockHash)
        requires
            old(self).spec_phase() == BlockPhase::Closed,
            old(self).spec_block_number() < BlockNumber::MAX,
            height == old(self).spec_block_number() + 1,
        ensures
            final(self).spec_block_number() == height,
            final(self).spec_parent_hash() == parent_hash,
            final(self).spec_phase() == BlockPhase::Initializing,
            final(self).spec_events() == old(self).spec_events(),
    {
        self.block_number = height;
        self.parent_hash = parent_hash;
        self.phase = BlockPhase::Initializing;
    }

    /// Marks initialization as finished: the block is open for execution.
    pub fn note_finished_initialize(&mut self)
        requires
            old(self).spec_phase() == BlockPhase::Initializing,
        ensures
            final(self).spec_phase() == BlockPhase::Open,
            final(self).spec_block_number() == old(self).spec_block_number(),
            final(self).spec_parent_hash() == old(self).spec_parent_hash(),
            final(self).spec_events() == old(self).spec_events(),
    {
        self.phase = BlockPhase::Open;
    }

    /// Closes the open block and returns its header digest, computed from
    /// the height, the parent hash and the block's timestamp.
    pub fn finalize(&mut self, now: Moment) -> (digest: BlockHash)
        requires
            old(self).spec_phase() == BlockPhase::Open,
        ensures
            final(self).spec_phase() == BlockPhase::Closed,
            digest == spec_header_digest(
                old(self).spec_block_number(),
                old(self).spec_parent_hash(),
                now,
            ),
            final(self).spec_block_number() == old(self).spec_block_number(),
            final(self).spec_parent_hash() == old(self).spec_parent_hash(),
            final(self).spec_events() == old(self).spec_events(),
    {
        self.phase = BlockPhase::Closed;
        mix(mix(mix(0x6861726e657373, self.block_number), self.parent_hash), now)
    }
}

} // verus!
