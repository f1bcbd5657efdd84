//! Per-process view of the worker group.

use vstd::prelude::*;
use crate::errors::PipelineError;

verus! {

/// The rank that gathers all local averages and reports the global result.
pub const COORDINATOR_RANK: usize = 0;

/// Immutable per-process metadata: this process's rank and the number of
/// worker processes. Established once at startup by the launcher and never
/// mutated afterwards.
#[derive(Clone, Copy, Debug, PartialEq, Eq, Structural)]
pub struct WorldView {
    pub rank: usize,
    pub size: usize,
}

impl WorldView {
    /// A well-formed world has at least one worker and a rank inside it.
    pub open spec fn wf(self) -> bool {
        self.size >= 1 && self.rank < self.size
    }

    /// Validates the launcher-supplied rank and size. `size == 0` or an
    /// out-of-range rank is an invalid configuration, reported as an error
    /// rather than a panic.
    pub fn new(rank: usize, size: usize) -> (r: Result<WorldView, PipelineError>)
        ensures
            r is Ok <==> (size >= 1 && rank < size),
            r matches Ok(w) ==> w == (WorldView { rank, size }) && w.wf(),
            r is Err ==> r == Err::<WorldView, PipelineError>(PipelineError::InvalidConfiguration),
    {
        if size >= 1 && rank < size {
            Ok(WorldView { rank, size })
        } else {
            Err(PipelineError::InvalidConfiguration)
        }
    }

    /// Whether this process is the single coordinator of the collective.
    pub fn is_coordinator(&self) -> (r: bool)
        ensures
            r <==> self.rank == COORDINATOR_RANK,
    {
        self.rank == COORDINATOR_RANK
    }
}

} // verus!
