//! Splitting a shard of `len` elements into a fixed number of chunks for
//! data-parallel reduction.
//!
//! The caller names a chunk-count policy `k` (the pipeline uses 100); the
//! effective chunk count is clamped to `[1, len]` so that no chunk is ever
//! empty, and an empty shard simply has no chunks. Chunks are contiguous,
//! disjoint, and cover the shard exactly: remainder elements go one each to
//! the leading chunks.

use vstd::prelude::*;
use vstd::arithmetic::div_mod::lemma_fundamental_div_mod;
use vstd::arithmetic::div_mod::lemma_div_non_zero;
use vstd::arithmetic::mul::lemma_mul_inequality;
use vstd::arithmetic::mul::lemma_mul_is_distributive_add_other_way;

verus! {

/// How many chunks a shard of `len` elements is actually split into under
/// the chunk-count policy `k`: `k` itself, clamped so that every chunk can
/// hold at least one element. An empty shard has no chunks.
pub open spec fn chunk_count(len: nat, k: nat) -> nat
    recommends
        k >= 1,
{
    if len == 0 {
        0
    } else if k <= len {
        k
    } else {
        len
    }
}

/// The length of chunk `i` when `len` elements are split into `kk` chunks:
/// the even share `len / kk`, plus one remainder element for the leading
/// `len % kk` chunks.
pub open spec fn chunk_len(len: nat, kk: nat, i: nat) -> nat
    recommends
        1 <= kk <= len,
        i < kk,
{
    if i < len % kk {
        len / kk + 1
    } else {
        len / kk
    }
}

/// The start offset of chunk `i`: `i` even shares plus one element for each
/// earlier chunk that absorbed a remainder element. At `i == kk` this is the
/// one-past-the-end offset of the whole shard.
pub open spec fn chunk_start(len: nat, kk: nat, i: nat) -> nat
    recommends
        1 <= kk <= len,
        i <= kk,
{
    if i <= len % kk {
        i * (len / kk) + i
    } else {
        i * (len / kk) + len % kk
    }
}

/// Chunk `i + 1` starts exactly where chunk `i` ends.
pub(crate) proof fn lemma_chunk_step(len: nat, kk: nat, i: nat)
    requires
        1 <= kk <= len,
        i < kk,
    ensures
        chunk_start(len, kk, i + 1) == chunk_start(len, kk, i) + chunk_len(len, kk, i),
{
    lemma_mul_is_distributive_add_other_way(len as int / kk as int, i as int, 1);
}

/// No chunk starts past the end of the shard.
pub(crate) proof fn lemma_chunk_start_le_len(len: nat, kk: nat, i: nat)
    requires
        1 <= kk <= len,
        i <= kk,
    ensures
        chunk_start(len, kk, i) <= len,
{
    lemma_mul_inequality(i as int, kk as int, len as int / kk as int);
    lemma_fundamental_div_mod(len as int, kk as int);
}

/// Chunk coverage: under any chunk-count policy `k >= 1`, a non-empty shard
/// of `len` elements is split into between 1 and `min(k, len)` chunks that
/// are each non-empty, start at offset 0, are contiguous (no gaps, no
/// overlaps), and end exactly at `len`.
pub proof fn lemma_chunk_coverage(len: nat, k: nat)
    requires
        k >= 1,
        len >= 1,
    ensures
        1 <= chunk_count(len, k) <= len,
        chunk_count(len, k) <= k,
        chunk_start(len, chunk_count(len, k), 0) == 0,
        forall|i: nat| i < chunk_count(len, k) ==> #[trigger] chunk_len(len, chunk_count(len, k), i) >= 1,
        forall|i: nat| i < chunk_count(len, k) ==> chunk_start(len, chunk_count(len, k), i + 1)
            == #[trigger] chunk_start(len, chunk_count(len, k), i) + chunk_len(len, chunk_count(len, k), i),
        chunk_start(len, chunk_count(len, k), chunk_count(len, k)) == len,
{
    let kk = chunk_count(len, k);
    lemma_div_non_zero(len as int, kk as int);
    assert forall|i: nat| i < kk implies chunk_start(len, kk, i + 1)
        == #[trigger] chunk_start(len, kk, i) + chunk_len(len, kk, i) by {
        lemma_chunk_step(len, kk, i);
    }
    lemma_fundamental_div_mod(len as int, kk as int);
}

/// The effective chunk count for a shard of `len` elements under the
/// chunk-count policy `k`.
pub fn effective_chunk_count(len: usize, k: usize) -> (r: usize)
    requires
        k >= 1,
    ensures
        r == chunk_count(len as nat, k as nat),
{
    if len == 0 {
        0
    } else if k <= len {
        k
    } else {
        len
    }
}

/// The chunk layout of a shard of `len` elements under the chunk-count
/// policy `k`: one `(start, length)` pair per chunk, in shard order.
pub fn chunk_layout(len: usize, k: usize) -> (r: Vec<(usize, usize)>)
    requires
        k >= 1,
    ensures
        r@.len() == chunk_count(len as nat, k as nat),
        forall|i: int| 0 <= i < r@.len() ==> (#[trigger] r@[i]).0
            == chunk_start(len as nat, chunk_count(len as nat, k as nat), i as nat)
            && r@[i].1 == chunk_len(len as nat, chunk_count(len as nat, k as nat), i as nat),
{
    let mut r: Vec<(usize, usize)> = Vec::new();
    if len == 0 {
        return r;
    }
    let kk = if k <= len { k } else { len };
    let base = len / kk;
    let rem = len % kk;
    let mut start: usize = 0;
    let mut i: usize = 0;
    while i < kk
        invariant
            1 <= kk <= len,
            kk == chunk_count(len as nat, k as nat),
            base == len as nat / kk as nat,
            rem == len as nat % kk as nat,
            i <= kk,
            r@.len() == i,
            start == chunk_start(len as nat, kk as nat, i as nat),
            start <= len,
            forall|j: int| 0 <= j < i ==> (#[trigger] r@[j]).0
                == chunk_start(len as nat, kk as nat, j as nat)
                && r@[j].1 == chunk_len(len as nat, kk as nat, j as nat),
        decreases kk - i,
    {
        proof {
            lemma_chunk_step(len as nat, kk as nat, i as nat);
            lemma_chunk_start_le_len(len as nat, kk as nat, (i + 1) as nat);
        }
        let cl = if i < rem { base + 1 } else { base };
        r.push((start, cl));
        start = start + cl;
        i = i + 1;
    }
    r
}

} // verus!
