//! The exact-arithmetic model of the reduction.
//!
//! The runtime sums floating-point values; its rounding is outside this
//! model. What the pipeline's correctness rests on is algebraic and is
//! proved here over mathematical integers: summing a shard chunk by chunk
//! (the parallel local reducer) yields the same total as summing it left to
//! right (the sequential baseline reducer), and the total of a collection of
//! contributions does not depend on the order in which they are folded (the
//! coordinator accepts messages in arrival order).
//!
//! This module also fixes the undefined-average policy: an empty shard has
//! no average, and the pipeline reports that as an explicit error instead of
//! dividing by zero.

use vstd::prelude::*;
use crate::chunks::chunk_count;
use crate::chunks::chunk_len;
use crate::chunks::chunk_start;
use crate::chunks::lemma_chunk_start_le_len;
use crate::chunks::lemma_chunk_step;
use crate::errors::PipelineError;

verus! {

broadcast use vstd::seq_lib::group_to_multiset_ensures;

/// The sequential sum of a sequence: one accumulator, original order. This
/// is the model of the baseline reducer.
pub open spec fn seq_sum(s: Seq<int>) -> int
    decreases s.len(),
{
    if s.len() == 0 {
        0
    } else {
        seq_sum(s.drop_last()) + s.last()
    }
}

/// Chunk `i` of `s` as its own sequence, when `s` is split into `kk` chunks.
pub open spec fn chunk_of(s: Seq<int>, kk: nat, i: nat) -> Seq<int>
    recommends
        1 <= kk <= s.len(),
        i < kk,
{
    s.subrange(
        chunk_start(s.len(), kk, i) as int,
        chunk_start(s.len(), kk, i) + chunk_len(s.len(), kk, i) as int,
    )
}

/// The fold of the per-chunk sums of chunks `0, 1, ..., upto - 1`: the model
/// of the parallel local reducer's merge step.
pub open spec fn chunk_sums_prefix(s: Seq<int>, kk: nat, upto: nat) -> int
    recommends
        1 <= kk <= s.len(),
        upto <= kk,
    decreases upto,
{
    if upto == 0 {
        0
    } else {
        chunk_sums_prefix(s, kk, (upto - 1) as nat) + seq_sum(chunk_of(s, kk, (upto - 1) as nat))
    }
}

/// Summation distributes over concatenation.
proof fn lemma_seq_sum_concat(a: Seq<int>, b: Seq<int>)
    ensures
        seq_sum(a + b) == seq_sum(a) + seq_sum(b),
    decreases b.len(),
{
    if b.len() == 0 {
        assert(a + b =~= a);
    } else {
        lemma_seq_sum_concat(a, b.drop_last());
        assert((a + b).drop_last() =~= a + b.drop_last());
    }
}

/// The first `upto` chunk sums together cover exactly the prefix of the
/// shard up to the start of chunk `upto`.
proof fn lemma_chunk_sums_prefix(s: Seq<int>, kk: nat, upto: nat)
    requires
        1 <= kk <= s.len(),
        upto <= kk,
    ensures
        chunk_sums_prefix(s, kk, upto) == seq_sum(s.take(chunk_start(s.len(), kk, upto) as int)),
    decreases upto,
{
    if upto == 0 {
        assert(s.take(0) =~= Seq::<int>::empty());
    } else {
        let prev = (upto - 1) as nat;
        lemma_chunk_sums_prefix(s, kk, prev);
        lemma_chunk_step(s.len(), kk, prev);
        lemma_chunk_start_le_len(s.len(), kk, upto);
        assert(s.take(chunk_start(s.len(), kk, upto) as int)
            =~= s.take(chunk_start(s.len(), kk, prev) as int) + chunk_of(s, kk, prev));
        lemma_seq_sum_concat(s.take(chunk_start(s.len(), kk, prev) as int), chunk_of(s, kk, prev));
    }
}

/// Reduction equivalence, exactly: folding the per-chunk sums of any chunk
/// layout of a non-empty shard yields the sequential sum of the whole shard.
/// (In the running system the payload is floating point, whose rounding may
/// differ between the two orders; this law is the exact-arithmetic content
/// of that equivalence.)
pub proof fn lemma_chunked_sum_matches_sequential(s: Seq<int>, k: nat)
    requires
        k >= 1,
        s.len() >= 1,
    ensures
        chunk_sums_prefix(s, chunk_count(s.len(), k), chunk_count(s.len(), k)) == seq_sum(s),
{
    let kk = chunk_count(s.len(), k);
    lemma_chunk_sums_prefix(s, kk, kk);
    vstd::arithmetic::div_mod::lemma_fundamental_div_mod(s.len() as int, kk as int);
    assert(s.take(chunk_start(s.len(), kk, kk) as int) =~= s);
}

/// Removing one element removes exactly its contribution from the sum.
proof fn lemma_seq_sum_remove(s: Seq<int>, i: int)
    requires
        0 <= i < s.len(),
    ensures
        seq_sum(s.remove(i)) == seq_sum(s) - s[i],
    decreases s.len(),
{
    if i == s.len() - 1 {
        assert(s.remove(i) =~= s.drop_last());
    } else {
        lemma_seq_sum_remove(s.drop_last(), i);
        assert(s.remove(i).drop_last() =~= s.drop_last().remove(i));
    }
}

/// Collective order independence, exactly: two fold orders of the same
/// collection of contributions (two sequences with equal multisets) have
/// equal sums. This is the algebraic requirement that lets the coordinator
/// accept per-rank results in arrival order rather than rank order.
pub proof fn lemma_sum_order_independent(a: Seq<int>, b: Seq<int>)
    requires
        a.to_multiset() == b.to_multiset(),
    ensures
        seq_sum(a) == seq_sum(b),
    decreases a.len(),
{
    if a.len() == 0 {
        assert(b.to_multiset().len() == 0);
    } else {
        let x = a.last();
        let last = a.len() - 1;
        assert(a.to_multiset().count(x) > 0);
        assert(b.contains(x));
        let j = choose|j: int| 0 <= j < b.len() && b[j] == x;
        assert(a.remove(last).to_multiset() == a.to_multiset().remove(x));
        assert(b.remove(j).to_multiset() == b.to_multiset().remove(x));
        assert(a.remove(last) =~= a.drop_last());
        lemma_sum_order_independent(a.drop_last(), b.remove(j));
        lemma_seq_sum_remove(b, j);
    }
}

/// The denominator of a shard's local average. The undefined-average policy
/// of this pipeline: an empty shard has no average, reported as an explicit
/// `UndefinedAverage` error — never a division by zero — and the collective
/// later excludes such ranks from the global denominator.
pub fn local_divisor(local_count: usize) -> (r: Result<usize, PipelineError>)
    ensures
        local_count >= 1 ==> r == Ok::<usize, PipelineError>(local_count),
        local_count == 0 ==> r == Err::<usize, PipelineError>(PipelineError::UndefinedAverage),
{
    if local_count >= 1 {
        Ok(local_count)
    } else {
        Err(PipelineError::UndefinedAverage)
    }
}

} // verus!
