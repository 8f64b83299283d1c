//! The staged handle of the native resource: the backing storage together with
//! the resource value that refers into it, first open, then loaded.
//!
//! The two stages are two types. An open handle can still be configured; loading
//! consumes it and gives a loaded handle, whose configuration is fixed. Neither
//! type gives its storage away, and nothing leads from the loaded type back to
//! the open one.

use vstd::prelude::*;
use crate::error::Error;
use crate::release::{well_ordered, Failure, Release};
use crate::storage::PinnedStorage;

verus! {

/// The stage of a handle that is alive.
#[derive(Clone, Copy, Debug, PartialEq, Eq, Structural)]
pub enum Stage {
    /// Opened, not yet loaded: the read-only data can still be set.
    Open,
    /// Loaded into the kernel: ready for attachment, configuration fixed.
    Loaded,
}

/// What a handle is, whatever its stage.
pub struct HandleView {
    /// The stage the handle is in.
    pub stage: Stage,
    /// The storage that the resource value refers into.
    pub storage: PinnedStorage,
    /// The log level in the resource's read-only data.
    pub log_level: u32,
    /// The names of the programs of the loaded resource, in the resource's
    /// order; empty while the handle is open.
    pub programs: Seq<Seq<char>>,
}

impl HandleView {
    /// The handle right after the native open step succeeded on `storage` and
    /// found `log_level` in the resource's read-only data.
    pub open spec fn opened(storage: PinnedStorage, log_level: u32) -> HandleView {
        HandleView { stage: Stage::Open, storage, log_level, programs: Seq::empty() }
    }

    /// Sets the log level. Only an open handle takes it: a loaded one is left
    /// as it is.
    pub open spec fn configure(self, log_level: u32) -> HandleView {
        match self.stage {
            Stage::Open => HandleView { log_level, ..self },
            Stage::Loaded => self,
        }
    }

    /// Loads an open handle, whose resource then holds `programs`. The storage
    /// and the configuration carry over. A loaded handle is left as it is.
    pub open spec fn load(self, programs: Seq<Seq<char>>) -> HandleView {
        match self.stage {
            Stage::Open => HandleView { stage: Stage::Loaded, programs, ..self },
            Stage::Loaded => self,
        }
    }

    /// What tearing the handle down releases, in order: the resource value,
    /// then the storage.
    pub open spec fn teardown(self) -> Seq<Release> {
        seq![Release::Resource, Release::Storage]
    }
}

/// The releases of a handle's teardown, resource value first.
fn resource_then_storage() -> (plan: Vec<Release>)
    ensures
        plan@ == seq![Release::Resource, Release::Storage],
        well_ordered(plan@),
{
    let mut plan: Vec<Release> = Vec::new();
    plan.push(Release::Resource);
    plan.push(Release::Storage);
    assert(plan@ =~= seq![Release::Resource, Release::Storage]);
    plan
}

/// A handle in the open stage: the storage and the opened resource value.
#[derive(Debug)]
pub struct OpenSkelStorage {
    storage: PinnedStorage,
    log_level: u32,
}

impl View for OpenSkelStorage {
    type V = HandleView;

    closed spec fn view(&self) -> HandleView {
        HandleView::opened(self.storage, self.log_level)
    }
}

impl OpenSkelStorage {
    /// Takes over `storage` for a resource that the native open step was asked
    /// to place in it.
    ///
    /// `opened` is that step's answer: the log level found in the resource's
    /// read-only data, or `None` if the step rejected the descriptor. On
    /// rejection no handle comes to be and the storage is released.
    pub fn new(storage: PinnedStorage, opened: Option<u32>) -> (handle: Result<
        OpenSkelStorage,
        Failure,
    >)
        ensures
            match opened {
                Some(log_level) => handle matches Ok(h) && h@ == HandleView::opened(
                    storage,
                    log_level,
                ),
                None => handle matches Err(failure) && failure.error == Error::OpenFailure
                    && failure.releases@ == seq![Release::Storage] && well_ordered(
                    failure.releases@,
                ),
            },
    {
        match opened {
            Some(log_level) => Ok(OpenSkelStorage { storage, log_level }),
            None => {
                let mut releases: Vec<Release> = Vec::new();
                releases.push(Release::Storage);
                assert(releases@ =~= seq![Release::Storage]);
                Err(Failure { error: Error::OpenFailure, releases })
            },
        }
    }

    /// The stage of the handle: open.
    pub fn stage(&self) -> (stage: Stage)
        ensures
            stage == self@.stage,
            stage == Stage::Open,
    {
        Stage::Open
    }

    /// The storage that the resource value refers into.
    pub fn storage(&self) -> (storage: &PinnedStorage)
        ensures
            *storage == self@.storage,
    {
        &self.storage
    }

    /// The log level in the resource's read-only data.
    pub fn log_level(&self) -> (log_level: u32)
        ensures
            log_level == self@.log_level,
    {
        self.log_level
    }

    /// Sets the log level in the resource's read-only data. Nothing else
    /// changes.
    pub fn set_log_level(&mut self, log_level: u32)
        ensures
            final(self)@ == old(self)@.configure(log_level),
            final(self)@.stage == Stage::Open,
            final(self)@.log_level == log_level,
    {
        self.log_level = log_level;
    }

    /// Tears the handle down without loading it. Gives what is released, in
    /// order.
    pub fn teardown(self) -> (plan: Vec<Release>)
        ensures
            plan@ == self@.teardown(),
            well_ordered(plan@),
    {
        resource_then_storage()
    }
}

/// A handle in the loaded stage: the storage and the loaded resource value.
#[derive(Debug)]
pub struct SkelStorage {
    storage: PinnedStorage,
    log_level: u32,
    programs: Vec<String>,
}

impl View for SkelStorage {
    type V = HandleView;

    closed spec fn view(&self) -> HandleView {
        HandleView {
            stage: Stage::Loaded,
            storage: self.storage,
            log_level: self.log_level,
            programs: self.programs.deep_view(),
        }
    }
}

impl SkelStorage {
    /// Turns the open handle `from` into a loaded one.
    ///
    /// `loaded` is the answer of the native load step, which consumed the open
    /// resource value: the names of the programs of the loaded resource, in its
    /// order, or `None` if the kernel rejected it. On success the storage and
    /// the configuration pass to the loaded handle unchanged. On rejection
    /// nothing is kept: the resource value and then the storage are released.
    pub fn load(from: OpenSkelStorage, loaded: Option<Vec<String>>) -> (handle: Result<
        SkelStorage,
        Failure,
    >)
        ensures
            match loaded {
                Some(programs) => handle matches Ok(h) && h@ == from@.load(programs.deep_view()),
                None => handle matches Err(failure) && failure.error == Error::LoadFailure
                    && failure.releases@ == from@.teardown() && well_ordered(failure.releases@),
            },
    {
        match loaded {
            Some(programs) => Ok(
                SkelStorage { storage: from.storage, log_level: from.log_level, programs },
            ),
            None => Err(Failure { error: Error::LoadFailure, releases: resource_then_storage() }),
        }
    }

    /// The stage of the handle: loaded.
    pub fn stage(&self) -> (stage: Stage)
        ensures
            stage == self@.stage,
            stage == Stage::Loaded,
    {
        Stage::Loaded
    }

    /// The storage that the resource value refers into.
    pub fn storage(&self) -> (storage: &PinnedStorage)
        ensures
            *storage == self@.storage,
    {
        &self.storage
    }

    /// The log level that the resource was loaded with.
    pub fn log_level(&self) -> (log_level: u32)
        ensures
            log_level == self@.log_level,
    {
        self.log_level
    }

    /// The names of the programs of the loaded resource, in its order.
    pub fn programs(&self) -> (programs: &Vec<String>)
        ensures
            programs.deep_view() == self@.programs,
    {
        &self.programs
    }

    /// Tears the handle down. Gives what is released, in order.
    pub fn teardown(self) -> (plan: Vec<Release>)
        ensures
            plan@ == self@.teardown(),
            well_ordered(plan@),
    {
        resource_then_storage()
    }
}

/// One of the operations that act on a handle while it is alive.
pub enum HandleOp {
    /// Set the log level in the read-only data.
    Configure(u32),
    /// Load the resource, which then holds the given programs.
    Load(Seq<Seq<char>>),
}

impl HandleView {
    /// The handle after one operation.
    pub open spec fn apply(self, op: HandleOp) -> HandleView {
        match op {
            HandleOp::Configure(log_level) => self.configure(log_level),
            HandleOp::Load(programs) => self.load(programs),
        }
    }

    /// The handle after a sequence of operations, first to last.
    pub open spec fn apply_all(self, ops: Seq<HandleOp>) -> HandleView
        decreases ops.len(),
    {
        if ops.len() == 0 {
            self
        } else {
            self.apply_all(ops.drop_last()).apply(ops.last())
        }
    }
}

/// Loading is final: whatever is done to a loaded handle, in whatever order,
/// it stays loaded, and its configuration and its programs stay as they are.
pub proof fn lemma_load_is_irreversible(handle: HandleView, ops: Seq<HandleOp>)
    requires
        handle.stage == Stage::Loaded,
    ensures
        handle.apply_all(ops) == handle,
    decreases ops.len(),
{
    if ops.len() > 0 {
        lemma_load_is_irreversible(handle, ops.drop_last());
    }
}

/// The storage is pinned: whatever is done to a handle, in either stage, the
/// resource value keeps referring into the storage that the handle was made
/// with.
pub proof fn lemma_storage_is_pinned(handle: HandleView, ops: Seq<HandleOp>)
    ensures
        handle.apply_all(ops).storage == handle.storage,
    decreases ops.len(),
{
    if ops.len() > 0 {
        lemma_storage_is_pinned(handle, ops.drop_last());
    }
}

/// Tearing a handle down, in either stage, releases the resource value and
/// then the storage, and nothing else.
pub proof fn lemma_handle_teardown_order(handle: HandleView)
    ensures
        well_ordered(handle.teardown()),
        handle.teardown().len() == 2,
        handle.teardown()[0] == Release::Resource,
        handle.teardown()[1] == Release::Storage,
{
}

} // verus!
