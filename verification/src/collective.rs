//! The coordinator's bookkeeping for the gather collective.
//!
//! Every rank sends exactly one local result to the coordinator; the
//! coordinator accepts messages in arrival order and must not produce a
//! global result before one message per rank has arrived. The runtime owns
//! the transport and the floating-point fold; this state machine owns the
//! protocol decisions: how many contributions are still owed, when the
//! gather is complete, and what the denominator of the global average is.
//!
//! The global result is the unweighted mean of the per-rank local averages
//! (shard sizes are not used as weights, although the coordinator's shard
//! absorbs the remainder and can be larger — that bias is the documented
//! behaviour of this pipeline, not an accident). Ranks whose shard was empty
//! have no local average; under the undefined-average policy they are
//! excluded from the global denominator, so the denominator is the number of
//! defined contributions — equal to the world size whenever every shard is
//! non-empty.

use vstd::prelude::*;
use crate::errors::PipelineError;
use crate::world::WorldView;

verus! {

/// The coordinator's view of an in-progress gather: how many contributions
/// are expected (one per rank), how many have arrived, and how many of the
/// arrivals carried a defined local average.
pub struct GatherState {
    pub size: usize,
    pub received: usize,
    pub defined: usize,
}

impl GatherState {
    /// Arrivals never exceed the world size, and only arrivals can have
    /// carried a defined average.
    pub open spec fn wf(self) -> bool {
        self.defined <= self.received <= self.size && self.size >= 1
    }

    /// The gather is complete once every rank's contribution has arrived.
    pub open spec fn complete(self) -> bool {
        self.received == self.size
    }

    /// A fresh gather on the coordinator — the only rank that receives.
    pub fn new(world: &WorldView) -> (g: GatherState)
        requires
            world.wf(),
            world.rank == crate::world::COORDINATOR_RANK,
        ensures
            g.wf(),
            g.size == world.size,
            g.received == 0,
            g.defined == 0,
            !g.complete(),
    {
        GatherState { size: world.size, received: 0, defined: 0 }
    }

    /// Records one arriving contribution; `defined` says whether the sender
    /// had a non-empty shard and thus a defined local average.
    pub fn record_arrival(&mut self, defined: bool)
        requires
            old(self).wf(),
            !old(self).complete(),
        ensures
            final(self).wf(),
            final(self).size == old(self).size,
            final(self).received == old(self).received + 1,
            final(self).defined == old(self).defined + (if defined { 1int } else { 0int }),
    {
        self.received = self.received + 1;
        if defined {
            self.defined = self.defined + 1;
        }
    }

    /// Whether every rank's contribution has arrived.
    pub fn is_complete(&self) -> (r: bool)
        ensures
            r == self.complete(),
    {
        self.received == self.size
    }

    /// How many contributions the coordinator still blocks on.
    pub fn pending(&self) -> (r: usize)
        requires
            self.wf(),
        ensures
            r == self.size - self.received,
    {
        self.size - self.received
    }

    /// The denominator of the global average. Asking before the gather is
    /// complete is the collective failure (`CollectiveIncomplete`): the
    /// coordinator never proceeds with fewer than `size` contributions. A
    /// complete gather in which no rank had data has no global average
    /// (`UndefinedAverage`); otherwise the denominator is the number of
    /// defined contributions.
    pub fn global_divisor(&self) -> (r: Result<usize, PipelineError>)
        requires
            self.wf(),
        ensures
            !self.complete() ==> r == Err::<usize, PipelineError>(PipelineError::CollectiveIncomplete),
            self.complete() && self.defined == 0 ==> r == Err::<usize, PipelineError>(
                PipelineError::UndefinedAverage,
            ),
            self.complete() && self.defined >= 1 ==> r == Ok::<usize, PipelineError>(self.defined),
    {
        if self.received != self.size {
            Err(PipelineError::CollectiveIncomplete)
        } else if self.defined == 0 {
            Err(PipelineError::UndefinedAverage)
        } else {
            Ok(self.defined)
        }
    }
}

} // verus!
