use vstd::prelude::*;

use crate::world::World;

verus! {

/// Identity of the world whose render worker may occupy the pipeline.
/// The default value is a sentinel meaning "no worker is running".
#[derive(Debug, Copy, Clone, Eq, PartialEq, Structural)]
pub struct RenderWorkerId(pub u64);

impl Default for RenderWorkerId {
    /// The sentinel id: no render worker is running.
    fn default() -> (r: Self)
        ensures
            r == (RenderWorkerId(u64::MAX)),
    {
        RenderWorkerId(u64::MAX)
    }
}

impl RenderWorkerId {
    /// The worker id belonging to `world`.
    pub fn from_world(world: &World) -> (r: Self)
        ensures
            r == (RenderWorkerId(world.id)),
    {
        RenderWorkerId(world.id)
    }
}

/// Tracks which world's render job currently occupies the pipeline, so
/// that at most one job is in flight at a time. Explicit data that the
/// embedding threads into each tick, rather than ambient shared state.
#[derive(Debug)]
pub struct RenderWorkerTarget {
    worker: RenderWorkerId,
}

impl RenderWorkerTarget {
    /// The currently running worker, as last recorded.
    pub closed spec fn spec_id(self) -> RenderWorkerId {
        self.worker
    }

    /// Creates a target with no worker running.
    pub fn new() -> (r: Self)
        ensures
            r.spec_id() == RenderWorkerId(u64::MAX),
    {
        RenderWorkerTarget { worker: RenderWorkerId(u64::MAX) }
    }

    /// The id of the worker whose job is in flight, or the sentinel.
    pub fn id(&self) -> (r: RenderWorkerId)
        ensures
            r == self.spec_id(),
    {
        self.worker
    }

    /// Records `id` as the running worker.
    pub(crate) fn set(&mut self, id: RenderWorkerId)
        ensures
            final(self).spec_id() == id,
    {
        self.worker = id;
    }

    /// Records that no worker is running.
    pub(crate) fn unset(&mut self)
        ensures
            final(self).spec_id() == RenderWorkerId(u64::MAX),
    {
        self.worker = RenderWorkerId(u64::MAX);
    }
}

/// A render worker: the render-side half that marks the pipeline busy
/// while its world's job runs and idle when the job completes.
#[derive(Debug)]
pub struct RenderWorker {
    pub id: RenderWorkerId,
}

impl RenderWorker {
    /// Whether this worker is the one occupying the pipeline.
    pub fn matches_target(&self, target: &RenderWorkerTarget) -> (r: bool)
        ensures
            r == (self.id == target.spec_id()),
    {
        let target_id = target.id();
        self.id == target_id
    }

    /// Marks this worker's job as the one in flight.
    pub fn set(&self, target: &mut RenderWorkerTarget)
        ensures
            final(target).spec_id() == self.id,
    {
        target.set(self.id);
    }

    /// Marks the pipeline as idle again.
    pub fn unset(&self, target: &mut RenderWorkerTarget)
        ensures
            final(target).spec_id() == RenderWorkerId(u64::MAX),
    {
        target.unset();
    }
}

} // verus!
