//! What is let go of when a handle or a manager is torn down, and in which order.

use vstd::prelude::*;
use crate::error::Error;

verus! {

/// One thing that is let go of during teardown.
#[derive(Clone, Copy, Debug, PartialEq, Eq, Structural)]
pub enum Release {
    /// The attachment with the given identity.
    Attachment(usize),
    /// The resource value, which refers into the storage.
    Resource,
    /// The backing storage.
    Storage,
}

/// The position of a release in the teardown order: attachments come first,
/// the resource value after them, the storage last.
pub open spec fn rank(release: Release) -> int {
    match release {
        Release::Attachment(_) => 0,
        Release::Resource => 1,
        Release::Storage => 2,
    }
}

/// Whether a sequence of releases is safe to perform from first to last.
///
/// Nothing is released twice, no release comes before one of a lower rank, and
/// the storage goes last. So the storage is released exactly once, the resource
/// value at most once and before it, and every attachment before both.
pub open spec fn well_ordered(plan: Seq<Release>) -> bool {
    &&& plan.len() > 0
    &&& plan.last() == Release::Storage
    &&& forall|i: int, j: int|
        0 <= i < j < plan.len() ==> rank(#[trigger] plan[i]) <= rank(#[trigger] plan[j]) && plan[i]
            != plan[j]
}

/// A construction step that failed: why, and what was released, in order, as
/// the construction was abandoned.
#[derive(Debug)]
pub struct Failure {
    pub error: Error,
    pub releases: Vec<Release>,
}

/// In a well-ordered sequence the storage outlives the resource value: the
/// storage is released at the last step and at no other, so the resource value,
/// where it is released at all, is released strictly before the storage, and
/// every attachment strictly before both.
pub proof fn lemma_storage_outlives_resource(plan: Seq<Release>, i: int, j: int)
    requires
        well_ordered(plan),
        0 <= i < plan.len(),
        0 <= j < plan.len(),
    ensures
        plan[j] == Release::Storage <==> j == plan.len() - 1,
        plan[i] == Release::Resource && plan[j] == Release::Storage ==> i < j,
        plan[i] is Attachment && !(plan[j] is Attachment) ==> i < j,
        plan[i] == plan[j] ==> i == j,
{
    let last = plan.len() - 1;
    if j < last {
        assert(rank(plan[j]) <= rank(plan[last]) && plan[j] != plan[last]);
    }
    if j < i {
        assert(rank(plan[j]) <= rank(plan[i]) && plan[j] != plan[i]);
    }
    if i < j {
        assert(rank(plan[i]) <= rank(plan[j]) && plan[i] != plan[j]);
    }
}

/// Whether `what` has been released once the first `done` releases of `plan`
/// are performed.
pub open spec fn gone(plan: Seq<Release>, done: int, what: Release) -> bool {
    exists|i: int| 0 <= i < done && i < plan.len() && plan[i] == what
}

/// At no point of a well-ordered teardown has anything outlived what it rests
/// on. However many releases are performed, once the storage is gone
/// everything else that the sequence releases is gone, the resource value
/// included; and once the resource value is gone, so is every attachment.
pub proof fn lemma_nothing_outlives_what_it_rests_on(plan: Seq<Release>, done: int, what: Release)
    requires
        well_ordered(plan),
        0 <= done <= plan.len(),
        plan.contains(what),
    ensures
        gone(plan, done, Release::Storage) ==> gone(plan, done, what),
        gone(plan, done, Release::Resource) && what is Attachment ==> gone(plan, done, what),
        done == plan.len() ==> gone(plan, done, what),
{
    let at = choose|i: int| 0 <= i < plan.len() && plan[i] == what;
    if gone(plan, done, Release::Storage) {
        let storage = choose|i: int| 0 <= i < done && i < plan.len() && plan[i] == Release::Storage;
        lemma_storage_outlives_resource(plan, at, storage);
        assert(done == plan.len());
    }
    if gone(plan, done, Release::Resource) && what is Attachment {
        let resource = choose|i: int|
            0 <= i < done && i < plan.len() && plan[i] == Release::Resource;
        lemma_storage_outlives_resource(plan, at, resource);
        assert(at < resource);
    }
}

} // verus!
