//! The sandbox execution core: an in-memory, disposable simulated chain that
//! owns one world state store, drives it through block lifecycles, executes
//! closures against it, and offers transactional dry runs with guaranteed
//! rollback.

use vstd::prelude::*;
use vstd::string::StringExecFns;

use crate::externalities::{Extension, Extensions, TestExternalities};
use crate::runtime::{
    ASSETS_MODULE_INDEX, BALANCES_MODULE_INDEX, CONTRACTS_MODULE_INDEX, SYSTEM_MODULE_INDEX,
    TIMESTAMP_MODULE_INDEX,
};
use crate::state::{State, StateModel};
use crate::system::{spec_header_digest, BlockPhase, Event};
use crate::{AccountId, Balance, BlockHash, BlockNumber, Moment, Origin};

verus! {

/// One unit of the native currency.
pub const UNIT: Balance = 10_000_000_000;

/// The balance the default account starts with.
pub const INIT_AMOUNT: Balance = 100_000_000 * UNIT;

/// The account used as the implicit caller when tests do not name one.
pub const DEFAULT_ACCOUNT: AccountId = 1;

/// The maximum amount of computation and storage a call may consume.
#[derive(Clone, Copy, Debug, PartialEq, Eq, Structural)]
pub struct Weight {
    /// Computation time budget.
    pub ref_time: u64,
    /// Proof size budget, in bytes.
    pub proof_size: u64,
}

impl Weight {
    /// Builds a weight from its two parts.
    pub fn from_parts(ref_time: u64, proof_size: u64) -> (r: Weight)
        ensures
            r == (Weight { ref_time, proof_size }),
    {
        Weight { ref_time, proof_size }
    }
}

/// The reflective shape of one module of the embedded runtime.
pub struct PalletMetadata {
    /// The module's name.
    pub name: String,
    /// The module's index in the runtime.
    pub index: u8,
}

/// The reflective shape of the embedded runtime: its modules, in index
/// order, for tooling that needs to discover them.
pub struct RuntimeMetadata {
    /// The runtime's modules.
    pub pallets: Vec<PalletMetadata>,
}

/// The balance table built from a genesis seed list, later entries
/// overriding earlier ones.
pub open spec fn spec_seed_balances(s: Seq<(AccountId, Balance)>) -> Map<AccountId, Balance>
    decreases s.len(),
{
    if s.len() == 0 {
        Map::empty()
    } else {
        spec_seed_balances(s.drop_last()).insert(s.last().0, s.last().1)
    }
}

/// A helper for initializing and finalizing blocks on a world state store.
pub struct BlockBuilder;

impl BlockBuilder {
    /// Creates a new store seeded with the given balances, with its first
    /// block initialized at height one and the given wall-clock timestamp.
    pub fn new_ext(balances: Vec<(AccountId, Balance)>, now: Moment) -> (r: TestExternalities)
        ensures
            r.spec_overlay().model() == (StateModel {
                block_number: 1,
                parent_hash: 0,
                phase: BlockPhase::Open,
                events: Seq::<Event>::empty(),
                timestamp: now,
                balances: spec_seed_balances(balances@),
                assets: Map::empty(),
                holdings: Map::empty(),
                approvals: Map::empty(),
                metadata: Map::empty(),
                collections: Map::empty(),
                items: Map::empty(),
                nft_holdings: Map::empty(),
                next_collection_id: 0,
            }),
            r.spec_backend().model() == r.spec_overlay().model(),
            r.spec_extensions() == (Extensions {
                randomness_override: None::<u64>,
                tracing: None::<bool>,
            }),
    {
        let mut state = State::empty();
        let mut i: usize = 0;
        while i < balances.len()
            invariant
                i <= balances.len(),
                state.balances.accounts() == spec_seed_balances(balances@.subrange(0, i as int)),
                state.model() == (StateModel { balances: state.balances.accounts(), ..State::empty_model() }),
            decreases balances.len() - i,
        {
            let (account, amount) = balances[i];
            state.balances.set_balance(account, amount);
            proof {
                assert(balances@.subrange(0, i + 1).drop_last() =~= balances@.subrange(
                    0,
                    i as int,
                ));
                assert(state.model() =~= (StateModel {
                    balances: state.balances.accounts(),
                    ..State::empty_model()
                }));
            }
            i += 1;
        }
        proof {
            assert(balances@.subrange(0, balances@.len() as int) =~= balances@);
        }
        Self::initialize_block(&mut state, 1, 0, now);
        let r = TestExternalities::new(state);
        proof {
            assert(r.spec_overlay().model() =~= (StateModel {
                block_number: 1,
                parent_hash: 0,
                phase: BlockPhase::Open,
                events: Seq::<Event>::empty(),
                timestamp: now,
                balances: spec_seed_balances(balances@),
                assets: Map::empty(),
                holdings: Map::empty(),
                approvals: Map::empty(),
                metadata: Map::empty(),
                collections: Map::empty(),
                items: Map::empty(),
                nft_holdings: Map::empty(),
                next_collection_id: 0,
            }));
        }
        r
    }

    /// Initializes a new block at the given height: resets the event log,
    /// notifies the system module of the new height and parent hash, sets the
    /// timestamp to the given wall-clock seconds, and marks initialization
    /// finished. The modules of this runtime do no further per-block
    /// initialization work.
    ///
    /// A block can only be initialized when the previous one was finalized,
    /// at exactly the next height.
    pub fn initialize_block(
        state: &mut State,
        height: BlockNumber,
        parent_hash: BlockHash,
        now: Moment,
    )
        requires
            old(state).model().phase == BlockPhase::Closed,
            old(state).model().block_number < BlockNumber::MAX,
            height == old(state).model().block_number + 1,
        ensures
            final(state).model() == (StateModel {
                block_number: height,
                parent_hash: parent_hash,
                phase: BlockPhase::Open,
                events: Seq::<Event>::empty(),
                timestamp: now,
                ..old(state).model()
            }),
    {
        state.system.reset_events();
        state.system.initialize(height, parent_hash);
        state.timestamp = now;
        state.system.note_finished_initialize();
        proof {
            assert(final(state).model() =~= (StateModel {
                block_number: height,
                parent_hash: parent_hash,
                phase: BlockPhase::Open,
                events: Seq::<Event>::empty(),
                timestamp: now,
                ..old(state).model()
            }));
        }
    }

    /// Finalizes the block at the given height and returns the finalized
    /// header digest. The modules of this runtime do no per-block
    /// finalization work.
    ///
    /// Finalization must pair with a prior initialization at the same
    /// height.
    pub fn finalize_block(state: &mut State, height: BlockNumber) -> (digest: BlockHash)
        requires
            old(state).model().phase == BlockPhase::Open,
            height == old(state).model().block_number,
        ensures
            digest == spec_header_digest(
                height,
                old(state).model().parent_hash,
                old(state).model().timestamp,
            ),
            final(state).model() == (StateModel { phase: BlockPhase::Closed, ..old(state).model() }),
    {
        let digest = state.system.finalize(state.timestamp);
        proof {
            assert(final(state).model() =~= (StateModel {
                phase: BlockPhase::Closed,
                ..old(state).model()
            }));
        }
        digest
    }
}

/// The sandbox: a disposable simulated execution environment owning one
/// world state store exclusively.
pub struct Sandbox {
    ext: TestExternalities,
}

impl Sandbox {
    /// The live world state the sandbox currently exposes.
    pub closed spec fn state(self) -> State {
        self.ext.spec_overlay()
    }

    /// The committed backend state.
    pub closed spec fn backend(self) -> State {
        self.ext.spec_backend()
    }

    /// The registered extensions.
    pub closed spec fn extensions(self) -> Extensions {
        self.ext.spec_extensions()
    }

    /// The mathematical content of the live world state.
    pub open spec fn storage(self) -> StateModel {
        self.state().model()
    }

    /// The mathematical content of the committed backend.
    pub open spec fn committed(self) -> StateModel {
        self.backend().model()
    }

    /// Borrows the live world state mutably, for the runtime APIs that read
    /// and write storage in place.
    pub(crate) fn state_mut(&mut self) -> (r: &mut State)
        ensures
            *r == old(self).state(),
            final(self).state() == *final(r),
            final(self).backend() == old(self).backend(),
            final(self).extensions() == old(self).extensions(),
    {
        self.ext.overlay_mut()
    }

    /// Borrows the live world state, for the runtime APIs that only read it.
    pub(crate) fn state_ref(&self) -> (r: &State)
        ensures
            *r == self.state(),
    {
        self.ext.overlay_ref()
    }

    /// Creates a sandbox seeded with the given balances, its first block
    /// initialized at the given wall-clock timestamp.
    pub fn new(balances: Vec<(AccountId, Balance)>, now: Moment) -> (r: Sandbox)
        ensures
            r.storage() == (StateModel {
                block_number: 1,
                parent_hash: 0,
                phase: BlockPhase::Open,
                events: Seq::<Event>::empty(),
                timestamp: now,
                balances: spec_seed_balances(balances@),
                assets: Map::empty(),
                holdings: Map::empty(),
                approvals: Map::empty(),
                metadata: Map::empty(),
                collections: Map::empty(),
                items: Map::empty(),
                nft_holdings: Map::empty(),
                next_collection_id: 0,
            }),
            r.committed() == r.storage(),
            r.extensions() == (Extensions {
                randomness_override: None::<u64>,
                tracing: None::<bool>,
            }),
    {
        Sandbox { ext: BlockBuilder::new_ext(balances, now) }
    }

    /// Executes `execute` with the world state store active: the closure
    /// receives the live state and the state it returns becomes the live
    /// state, its mutations committed to the store when it returns.
    pub fn execute_with<T, F: FnOnce(State) -> (State, T)>(&mut self, execute: F) -> (t: T)
        requires
            call_requires(execute, (old(self).state(),)),
        ensures
            call_ensures(execute, (old(self).state(),), (final(self).state(), t)),
            final(self).committed() == old(self).committed(),
            final(self).extensions() == old(self).extensions(),
    {
        self.ext.execute_with(execute)
    }

    /// Dry-runs `action` against the sandbox: mutations buffered before the
    /// call are committed, the action runs with full access to the sandbox,
    /// and then the storage is unconditionally restored to its pre-action
    /// content — the action's return value is preserved while all its
    /// storage side effects are discarded. Extensions the action registered
    /// are kept.
    pub fn dry_run<T, F: FnOnce(Sandbox) -> (Sandbox, T)>(&mut self, action: F) -> (t: T)
        requires
            call_requires(action, (*old(self),)),
        ensures
            final(self).storage() == old(self).storage(),
            final(self).committed() == old(self).storage(),
            exists|after: Sandbox|
                {
                    &&& #[trigger] call_ensures(action, (*old(self),), (after, t))
                    &&& final(self).extensions() == after.extensions()
                },
    {
        let backup = self.ext.as_backend();
        let mut taken = TestExternalities::new(State::empty());
        core::mem::swap(&mut taken, &mut self.ext);
        let sandbox = Sandbox { ext: taken };
        let (after, t) = action(sandbox);
        let Sandbox { ext } = after;
        self.ext = ext;
        self.ext.commit_all();
        self.ext.restore(backup);
        t
    }

    /// Registers a typed extension, visible to subsequent executions,
    /// replacing any previous instance of the same kind.
    pub fn register_extension(&mut self, ext: Extension)
        ensures
            final(self).extensions() == old(self).extensions().spec_with(ext),
            final(self).storage() == old(self).storage(),
            final(self).committed() == old(self).committed(),
    {
        self.ext.register_extension(ext);
    }

    /// Initializes a new block at the given height.
    pub fn initialize_block(
        &mut self,
        height: BlockNumber,
        parent_hash: BlockHash,
        now: Moment,
    )
        requires
            old(self).storage().phase == BlockPhase::Closed,
            old(self).storage().block_number < BlockNumber::MAX,
            height == old(self).storage().block_number + 1,
        ensures
            final(self).storage() == (StateModel {
                block_number: height,
                parent_hash: parent_hash,
                phase: BlockPhase::Open,
                events: Seq::<Event>::empty(),
                timestamp: now,
                ..old(self).storage()
            }),
            final(self).committed() == old(self).committed(),
            final(self).extensions() == old(self).extensions(),
    {
        let state = self.ext.overlay_mut();
        BlockBuilder::initialize_block(state, height, parent_hash, now);
    }

    /// Finalizes the block at the given height and returns its header
    /// digest.
    pub fn finalize_block(&mut self, height: BlockNumber) -> (digest: BlockHash)
        requires
            old(self).storage().phase == BlockPhase::Open,
            height == old(self).storage().block_number,
        ensures
            digest == spec_header_digest(
                height,
                old(self).storage().parent_hash,
                old(self).storage().timestamp,
            ),
            final(self).storage() == (StateModel {
                phase: BlockPhase::Closed,
                ..old(self).storage()
            }),
            final(self).committed() == old(self).committed(),
            final(self).extensions() == old(self).extensions(),
    {
        let state = self.ext.overlay_mut();
        BlockBuilder::finalize_block(state, height)
    }

    /// Finalizes the current block and initializes the next one at the given
    /// wall-clock timestamp, chaining the finalized digest as the new parent
    /// hash. Returns the finalized digest.
    pub fn build_block(&mut self, now: Moment) -> (digest: BlockHash)
        requires
            old(self).storage().phase == BlockPhase::Open,
            old(self).storage().block_number < BlockNumber::MAX,
        ensures
            digest == spec_header_digest(
                old(self).storage().block_number,
                old(self).storage().parent_hash,
                old(self).storage().timestamp,
            ),
            final(self).storage() == (StateModel {
                block_number: (old(self).storage().block_number + 1) as BlockNumber,
                parent_hash: digest,
                phase: BlockPhase::Open,
                events: Seq::<Event>::empty(),
                timestamp: now,
                ..old(self).storage()
            }),
            final(self).committed() == old(self).committed(),
            final(self).extensions() == old(self).extensions(),
    {
        let state = self.ext.overlay_mut();
        let height = state.system.block_number();
        let digest = BlockBuilder::finalize_block(state, height);
        BlockBuilder::initialize_block(state, height + 1, digest, now);
        digest
    }

    /// Runs `count` consecutive finalize/initialize cycles at the given
    /// wall-clock timestamp.
    ///
    /// Block height is monotonic: after the cycles the height is exactly the
    /// old height plus `count`, with no value skipped or repeated, and the
    /// storage tables are untouched.
    pub fn advance_blocks(&mut self, count: u32, now: Moment) -> (digest: BlockHash)
        requires
            old(self).storage().phase == BlockPhase::Open,
            old(self).storage().block_number + count <= BlockNumber::MAX,
        ensures
            final(self).storage().block_number == old(self).storage().block_number + count,
            final(self).storage().phase == BlockPhase::Open,
            final(self).storage().balances == old(self).storage().balances,
            final(self).storage().assets == old(self).storage().assets,
            final(self).storage().holdings == old(self).storage().holdings,
            final(self).storage().approvals == old(self).storage().approvals,
            final(self).storage().metadata == old(self).storage().metadata,
            final(self).committed() == old(self).committed(),
            final(self).extensions() == old(self).extensions(),
    {
        let mut done: u32 = 0;
        let mut digest: BlockHash = 0;
        while done < count
            invariant
                done <= count,
                old(self).storage().block_number + count <= BlockNumber::MAX,
                self.storage().phase == BlockPhase::Open,
                self.storage().block_number == old(self).storage().block_number + done,
                self.storage().balances == old(self).storage().balances,
                self.storage().assets == old(self).storage().assets,
                self.storage().holdings == old(self).storage().holdings,
                self.storage().approvals == old(self).storage().approvals,
                self.storage().metadata == old(self).storage().metadata,
                self.committed() == old(self).committed(),
                self.extensions() == old(self).extensions(),
            decreases count - done,
        {
            digest = self.build_block(now);
            done += 1;
        }
        digest
    }

    /// Reads the current block height.
    pub fn block_number(&self) -> (r: BlockNumber)
        ensures
            r == self.storage().block_number,
    {
        self.ext.overlay_ref().system.block_number()
    }

    /// Reads the current block lifecycle phase.
    pub fn phase(&self) -> (r: BlockPhase)
        ensures
            r == self.storage().phase,
    {
        self.ext.overlay_ref().system.phase()
    }

    /// Reads the event log of the current block, oldest first.
    pub fn events(&self) -> (r: Vec<Event>)
        ensures
            r@ == self.storage().events,
    {
        self.ext.overlay_ref().system.events()
    }

    /// Reads the extension registry.
    pub fn registered_extensions(&self) -> (r: Extensions)
        ensures
            r == self.extensions(),
    {
        self.ext.extensions()
    }

    /// Reads the current block's timestamp.
    pub fn timestamp(&self) -> (r: Moment)
        ensures
            r == self.storage().timestamp,
    {
        self.ext.overlay_ref().timestamp
    }

    /// The fixed account used as the implicit caller when tests do not name
    /// one.
    pub fn default_actor() -> (r: AccountId)
        ensures
            r == DEFAULT_ACCOUNT,
    {
        DEFAULT_ACCOUNT
    }

    /// The default gas limit for calls.
    pub fn default_gas_limit() -> (r: Weight)
        ensures
            r == (Weight { ref_time: 100_000_000_000, proof_size: (3 * 1024 * 1024) as u64 }),
    {
        Weight::from_parts(100_000_000_000, 3 * 1024 * 1024)
    }

    /// Lifts a bare account identifier into the authorization origin the
    /// dispatch layer expects: signed by that account.
    pub fn convert_account_to_origin(account: AccountId) -> (r: Origin)
        ensures
            r == Origin::Signed(account),
    {
        Origin::Signed(account)
    }

    /// The reflective shape of the embedded runtime: its five modules with
    /// their names and indices, in index order.
    pub fn get_metadata() -> (r: RuntimeMetadata)
        ensures
            r.pallets@.len() == 5,
            r.pallets@[0].index == SYSTEM_MODULE_INDEX && r.pallets@[0].name@ == "System"@,
            r.pallets@[1].index == ASSETS_MODULE_INDEX && r.pallets@[1].name@ == "Assets"@,
            r.pallets@[2].index == BALANCES_MODULE_INDEX && r.pallets@[2].name@ == "Balances"@,
            r.pallets@[3].index == TIMESTAMP_MODULE_INDEX && r.pallets@[3].name@ == "Timestamp"@,
            r.pallets@[4].index == CONTRACTS_MODULE_INDEX && r.pallets@[4].name@ == "Contracts"@,
    {
        let mut pallets: Vec<PalletMetadata> = Vec::new();
        pallets.push(PalletMetadata { name: String::from_str("System"), index: SYSTEM_MODULE_INDEX });
        pallets.push(PalletMetadata { name: String::from_str("Assets"), index: ASSETS_MODULE_INDEX });
        pallets.push(
            PalletMetadata { name: String::from_str("Balances"), index: BALANCES_MODULE_INDEX },
        );
        pallets.push(
            PalletMetadata { name: String::from_str("Timestamp"), index: TIMESTAMP_MODULE_INDEX },
        );
        pallets.push(
            PalletMetadata { name: String::from_str("Contracts"), index: CONTRACTS_MODULE_INDEX },
        );
        RuntimeMetadata { pallets }
    }
}

impl Default for Sandbox {
    /// Creates a sandbox holding the default account with its initial
    /// balance, its first block initialized at timestamp zero.
    fn default() -> (r: Sandbox)
        ensures
            r.storage() == (StateModel {
                block_number: 1,
                parent_hash: 0,
                phase: BlockPhase::Open,
                events: Seq::<Event>::empty(),
                timestamp: 0,
                balances: Map::<AccountId, Balance>::empty().insert(DEFAULT_ACCOUNT, INIT_AMOUNT),
                assets: Map::empty(),
                holdings: Map::empty(),
                approvals: Map::empty(),
                metadata: Map::empty(),
                collections: Map::empty(),
                items: Map::empty(),
                nft_holdings: Map::empty(),
                next_collection_id: 0,
            }),
            r.committed() == r.storage(),
            r.extensions() == (Extensions {
                randomness_override: None::<u64>,
                tracing: None::<bool>,
            }),
    {
        let mut balances: Vec<(AccountId, Balance)> = Vec::new();
        balances.push((DEFAULT_ACCOUNT, INIT_AMOUNT));
        proof {
            assert(balances@.drop_last() =~= Seq::<(AccountId, Balance)>::empty());
            assert(spec_seed_balances(Seq::<(AccountId, Balance)>::empty()) == Map::<
                AccountId,
                Balance,
            >::empty());
            assert(balances@.last() == (DEFAULT_ACCOUNT, INIT_AMOUNT));
            assert(spec_seed_balances(balances@) == Map::<AccountId, Balance>::empty().insert(
                DEFAULT_ACCOUNT,
                INIT_AMOUNT,
            ));
        }
        let r = Sandbox::new(balances, 0);
        proof {
            assert(r.storage() =~= (StateModel {
                block_number: 1,
                parent_hash: 0,
                phase: BlockPhase::Open,
                events: Seq::<Event>::empty(),
                timestamp: 0,
                balances: Map::<AccountId, Balance>::empty().insert(DEFAULT_ACCOUNT, INIT_AMOUNT),
                assets: Map::empty(),
                holdings: Map::empty(),
                approvals: Map::empty(),
                metadata: Map::empty(),
                collections: Map::empty(),
                items: Map::empty(),
                nft_holdings: Map::empty(),
                next_collection_id: 0,
            }));
        }
        r
    }
}

} // verus!
