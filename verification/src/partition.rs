//! Splitting a dataset of `n` elements across `size` worker ranks.
//!
//! Every rank receives `n / size` elements; the whole remainder `n % size`
//! goes to the coordinator rank. Summed over all ranks this reproduces `n`
//! exactly: no element is duplicated or dropped.

use vstd::prelude::*;
use vstd::arithmetic::div_mod::lemma_fundamental_div_mod;
use vstd::arithmetic::mul::lemma_mul_inequality;
use vstd::arithmetic::mul::lemma_mul_is_distributive_add_other_way;
use crate::world::WorldView;

verus! {

/// The number of elements assigned to `rank` out of a dataset of `n`
/// elements split across `size` ranks: the even share `n / size`, plus the
/// remainder `n % size` for the coordinator rank alone.
pub open spec fn shard_len(n: nat, size: nat, rank: nat) -> nat
    recommends
        size >= 1,
        rank < size,
{
    if rank == 0 {
        n / size + n % size
    } else {
        n / size
    }
}

/// The total number of elements assigned to ranks `0, 1, ..., upto - 1`.
pub open spec fn sum_shard_lens(n: nat, size: nat, upto: nat) -> nat
    recommends
        size >= 1,
    decreases upto,
{
    if upto == 0 {
        0
    } else {
        sum_shard_lens(n, size, (upto - 1) as nat) + shard_len(n, size, (upto - 1) as nat)
    }
}

/// This rank's shard length, free of overflow: the share never exceeds `n`.
pub fn local_count(n: usize, world: &WorldView) -> (r: usize)
    requires
        world.wf(),
    ensures
        r == shard_len(n as nat, world.size as nat, world.rank as nat),
        r <= n,
{
    let q = n / world.size;
    let m = n % world.size;
    proof {
        lemma_fundamental_div_mod(n as int, world.size as int);
        lemma_mul_inequality(1, world.size as int, q as int);
    }
    if world.rank == 0 {
        q + m
    } else {
        q
    }
}

/// The partial sums of the shard lengths grow by one even share per rank
/// past the coordinator.
proof fn lemma_sum_shard_lens_unrolled(n: nat, size: nat, upto: nat)
    requires
        size >= 1,
        upto >= 1,
    ensures
        sum_shard_lens(n, size, upto) == shard_len(n, size, 0) + (upto - 1) * (n / size),
    decreases upto,
{
    if upto == 1 {
        assert(sum_shard_lens(n, size, 1) == shard_len(n, size, 0)) by {
            reveal_with_fuel(sum_shard_lens, 2);
        }
    } else {
        lemma_sum_shard_lens_unrolled(n, size, (upto - 1) as nat);
        lemma_mul_is_distributive_add_other_way(n as int / size as int, upto - 2, 1);
    }
}

/// Partition coverage: over all ranks `0..size` the shard lengths sum to
/// `n` exactly, and every rank but the coordinator receives exactly the even
/// share `n / size` — the remainder goes to the coordinator alone.
pub proof fn lemma_partition_covers(n: nat, size: nat)
    requires
        size >= 1,
    ensures
        sum_shard_lens(n, size, size) == n,
        forall|rank: nat| 1 <= rank < size ==> #[trigger] shard_len(n, size, rank) == n / size,
{
    lemma_sum_shard_lens_unrolled(n, size, size);
    lemma_mul_is_distributive_add_other_way(n as int / size as int, size - 1, 1);
    lemma_fundamental_div_mod(n as int, size as int);
}

} // verus!
