//! End-to-end runs of the pipeline with the transport simulated in-process:
//! each rank plans its shard, reduces it, and the coordinator gathers one
//! contribution per rank in arrival order.

use cluster_mean::collective::GatherState;
use cluster_mean::errors::PipelineError;
use cluster_mean::plan::plan_shard;
use cluster_mean::reduce::local_divisor;
use cluster_mean::world::WorldView;

/// One rank's local phase: plan, generate, chunked reduction, local average.
/// Returns `None` when the shard is empty (the undefined-average policy).
fn local_phase(n: usize, rank: usize, size: usize, k: usize, value: f64) -> Option<f64> {
    let world = WorldView::new(rank, size).unwrap();
    let plan = plan_shard(n, &world, k);
    let shard = vec![value; plan.local_count];
    let mut total = 0.0f64;
    for &(start, len) in &plan.chunks {
        let mut chunk_sum = 0.0f64;
        for &v in &shard[start..start + len] {
            chunk_sum += v;
        }
        total += chunk_sum;
    }
    match local_divisor(plan.local_count) {
        Ok(divisor) => Some(total / divisor as f64),
        Err(_) => None,
    }
}

fn run_pipeline(n: usize, size: usize, k: usize, value: f64) -> Result<f64, PipelineError> {
    let coordinator = WorldView::new(0, size).unwrap();
    let mut gather = GatherState::new(&coordinator);
    let mut acc = 0.0f64;
    for rank in 0..size {
        match local_phase(n, rank, size, k, value) {
            Some(avg) => {
                gather.record_arrival(true);
                acc += avg;
            }
            None => gather.record_arrival(false),
        }
    }
    let divisor = gather.global_divisor()?;
    Ok(acc / divisor as f64)
}

#[test]
fn plan_matches_partition_and_layout() {
    let w = WorldView::new(0, 3).unwrap();
    let plan = plan_shard(10, &w, 4);
    assert_eq!(plan.local_count, 4, "coordinator's share of 10 over 3 ranks");
    assert_eq!(plan.chunks, vec![(0, 1), (1, 1), (2, 1), (3, 1)]);
}

#[test]
fn constant_dataset_single_rank_yields_exact_average() {
    // 100 values all equal to 5.0 on one rank: the global average is 5.0
    // exactly, with no rounding slack.
    let result = run_pipeline(100, 1, 100, 5.0).unwrap();
    assert_eq!(result, 5.0);
}

#[test]
fn all_empty_shards_exercise_the_undefined_policy() {
    assert_eq!(run_pipeline(0, 4, 100, 1.0), Err(PipelineError::UndefinedAverage));
}

#[test]
fn empty_shard_rank_does_not_crash_the_pipeline() {
    // One element over two ranks: the non-coordinator rank gets an empty
    // shard, contributes no defined average, and the run still completes.
    let result = run_pipeline(1, 2, 100, 2.5).unwrap();
    assert_eq!(result, 2.5);
}

#[test]
fn constant_dataset_many_ranks_yields_exact_average() {
    let result = run_pipeline(10, 3, 100, 0.5).unwrap();
    assert_eq!(result, 0.5);
}
