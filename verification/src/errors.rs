//! Fatal conditions of the pipeline.

use vstd::prelude::*;

verus! {

/// Everything that can go wrong inside the verified core.
///
/// - `InvalidConfiguration`: a world with `size == 0` or a rank outside
///   `[0, size)`; a precondition violation, never a recoverable state.
/// - `UndefinedAverage`: an average was requested over zero contributions
///   (an empty shard locally, or a gather in which no rank had data).
/// - `CollectiveIncomplete`: the coordinator was asked for the global result
///   before one message per rank had arrived.
#[derive(Clone, Copy, Debug, PartialEq, Eq, Structural)]
pub enum PipelineError {
    InvalidConfiguration,
    UndefinedAverage,
    CollectiveIncomplete,
}

} // verus!
