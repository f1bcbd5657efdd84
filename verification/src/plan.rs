//! One rank's plan for a run: its shard size and the chunk layout its local
//! reducer will sum in parallel. The runtime fills a buffer of exactly
//! `local_count` values and sums each `(start, length)` chunk independently;
//! everything the runtime needs to decide is fixed here.

use vstd::prelude::*;
use crate::chunks::chunk_count;
use crate::chunks::chunk_layout;
use crate::chunks::chunk_len;
use crate::chunks::chunk_start;
use crate::partition::local_count;
use crate::partition::shard_len;
use crate::world::WorldView;

verus! {

/// What one rank computes on: the length of its shard and the disjoint,
/// covering `(start, length)` chunks of that shard.
pub struct ShardPlan {
    pub local_count: usize,
    pub chunks: Vec<(usize, usize)>,
}

impl ShardPlan {
    /// The plan matches a dataset of `n` elements, the given world, and the
    /// chunk-count policy `k`: the shard is this rank's share of `n`, and
    /// the chunks are the layout of that shard.
    pub open spec fn matches(self, n: nat, world: WorldView, k: nat) -> bool {
        let len = shard_len(n, world.size as nat, world.rank as nat);
        let kk = chunk_count(len, k);
        &&& self.local_count == len
        &&& self.chunks@.len() == kk
        &&& forall|i: int| 0 <= i < self.chunks@.len() ==> (#[trigger] self.chunks@[i]).0
            == chunk_start(len, kk, i as nat) && self.chunks@[i].1 == chunk_len(len, kk, i as nat)
    }
}

/// Builds this rank's plan for a dataset of `n` elements under the
/// chunk-count policy `k`.
pub fn plan_shard(n: usize, world: &WorldView, k: usize) -> (r: ShardPlan)
    requires
        world.wf(),
        k >= 1,
    ensures
        r.matches(n as nat, *world, k as nat),
{
    let count = local_count(n, world);
    let chunks = chunk_layout(count, k);
    ShardPlan { local_count: count, chunks }
}

} // verus!
