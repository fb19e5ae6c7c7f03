//! Test externalities: the world state store wrapped with a committed
//! backend, a pending overlay, and the registry of protocol extensions.
//!
//! Reads and writes go to the overlay. `commit_all` flushes the overlay into
//! the backend; `as_backend` captures the merged storage (backend plus
//! pending changes) as a snapshot; `restore` replaces the whole store with a
//! snapshot, all or nothing.

use vstd::prelude::*;

use crate::state::{State, StateModel};

verus! {

/// A typed capability made available to code running inside the sandbox.
///
/// The set of extension kinds is closed; each kind occupies one registry
/// slot.
#[derive(Clone, Copy, Debug, PartialEq, Eq, Structural)]
pub enum Extension {
    /// Overrides the sandbox's source of randomness with a fixed seed.
    RandomnessOverride(u64),
    /// Turns tracing of executed operations on or off.
    Tracing(bool),
}

/// The extension registry: one slot per extension kind. Registering an
/// extension fills its kind's slot, silently replacing any previous instance
/// of the same kind.
#[derive(Clone, Copy, Debug, PartialEq, Eq, Structural)]
pub struct Extensions {
    /// The randomness-override slot.
    pub randomness_override: Option<u64>,
    /// The tracing slot.
    pub tracing: Option<bool>,
}

impl Extensions {
    /// The registry after registering `ext`.
    pub open spec fn spec_with(self, ext: Extension) -> Extensions {
        match ext {
            Extension::RandomnessOverride(seed) => Extensions {
                randomness_override: Some(seed),
                ..self
            },
            Extension::Tracing(on) => Extensions { tracing: Some(on), ..self },
        }
    }

    /// Creates an empty registry.
    pub fn none() -> (r: Extensions)
        ensures
            r == (Extensions { randomness_override: None::<u64>, tracing: None::<bool> }),
    {
        Extensions { randomness_override: None, tracing: None }
    }

    /// Registers `ext`, replacing any previous instance of the same kind.
    pub fn register(&mut self, ext: Extension)
        ensures
            *final(self) == old(self).spec_with(ext),
    {
        match ext {
            Extension::RandomnessOverride(seed) => {
                self.randomness_override = Some(seed);
            },
            Extension::Tracing(on) => {
                self.tracing = Some(on);
            },
        }
    }
}

/// The world state store of one sandbox: a committed backend, the live
/// overlay that executions read and mutate, and the extension registry.
pub struct TestExternalities {
    backend: State,
    overlay: State,
    extensions: Extensions,
}

impl TestExternalities {
    /// The committed backend state.
    pub closed spec fn spec_backend(self) -> State {
        self.backend
    }

    /// The live overlay state: the backend plus all pending mutations.
    pub closed spec fn spec_overlay(self) -> State {
        self.overlay
    }

    /// The registered extensions.
    pub closed spec fn spec_extensions(self) -> Extensions {
        self.extensions
    }

    /// Wraps an initial state into a store whose backend and overlay both
    /// hold it, with no extensions registered.
    pub fn new(initial: State) -> (r: TestExternalities)
        ensures
            r.spec_overlay() == initial,
            r.spec_backend().model() == initial.model(),
            r.spec_extensions() == (Extensions {
                randomness_override: None::<u64>,
                tracing: None::<bool>,
            }),
    {
        let backend = initial.snapshot();
        TestExternalities { backend, overlay: initial, extensions: Extensions::none() }
    }

    /// Executes `execute` with the world state active: the closure receives
    /// the overlay state, and the state it returns becomes the overlay, its
    /// mutations committed to the store when it returns.
    pub fn execute_with<T, F: FnOnce(State) -> (State, T)>(&mut self, execute: F) -> (t: T)
        requires
            call_requires(execute, (old(self).spec_overlay(),)),
        ensures
            call_ensures(execute, (old(self).spec_overlay(),), (final(self).spec_overlay(), t)),
            final(self).spec_backend() == old(self).spec_backend(),
            final(self).spec_extensions() == old(self).spec_extensions(),
    {
        let mut taken = State::empty();
        core::mem::swap(&mut taken, &mut self.overlay);
        let (updated, t) = execute(taken);
        self.overlay = updated;
        t
    }

    /// Flushes all pending mutations into the backend, so that a following
    /// snapshot or restore boundary loses no writes.
    pub fn commit_all(&mut self)
        ensures
            final(self).spec_backend().model() == old(self).spec_overlay().model(),
            final(self).spec_overlay() == old(self).spec_overlay(),
            final(self).spec_extensions() == old(self).spec_extensions(),
    {
        self.backend = self.overlay.snapshot();
    }

    /// Captures the current storage, pending mutations included, as an
    /// opaque snapshot value.
    pub fn as_backend(&self) -> (r: State)
        ensures
            r.model() == self.spec_overlay().model(),
    {
        self.overlay.snapshot()
    }

    /// Replaces the live storage with a snapshot, atomically and entirely:
    /// backend and overlay both become the snapshot, discarding every
    /// pending mutation. Registered extensions are kept.
    pub fn restore(&mut self, backup: State)
        ensures
            final(self).spec_backend() == backup,
            final(self).spec_overlay().model() == backup.model(),
            final(self).spec_extensions() == old(self).spec_extensions(),
    {
        self.overlay = backup.snapshot();
        self.backend = backup;
    }

    /// Registers a typed extension, replacing any previous instance of the
    /// same kind.
    pub fn register_extension(&mut self, ext: Extension)
        ensures
            final(self).spec_extensions() == old(self).spec_extensions().spec_with(ext),
            final(self).spec_backend() == old(self).spec_backend(),
            final(self).spec_overlay() == old(self).spec_overlay(),
    {
        self.extensions.register(ext);
    }

    /// Reads the extension registry.
    pub fn extensions(&self) -> (r: Extensions)
        ensures
            r == self.spec_extensions(),
    {
        self.extensions
    }

    /// Borrows the live overlay state mutably, for operations that read and
    /// write storage in place.
    pub fn overlay_mut(&mut self) -> (r: &mut State)
        ensures
            *r == old(self).spec_overlay(),
            final(self).spec_overlay() == *final(r),
            final(self).spec_backend() == old(self).spec_backend(),
            final(self).spec_extensions() == old(self).spec_extensions(),
    {
        &mut self.overlay
    }

    /// Borrows the live overlay state.
    pub fn overlay_ref(&self) -> (r: &State)
        ensures
            *r == self.spec_overlay(),
    {
        &self.overlay
    }
}

} // verus!
