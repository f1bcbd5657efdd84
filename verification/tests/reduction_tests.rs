use cluster_mean::chunks::chunk_layout;
use cluster_mean::errors::PipelineError;
use cluster_mean::reduce::local_divisor;
use rand::Rng;
use rayon::iter::IntoParallelRefIterator;
use rayon::iter::ParallelIterator;

fn sequential_sum(values: &[f64]) -> f64 {
    values.iter().sum()
}

fn chunked_parallel_sum(values: &[f64], k: usize) -> f64 {
    chunk_layout(values.len(), k)
        .par_iter()
        .map(|&(start, len)| {
            let mut acc = 0.0f64;
            for &v in &values[start..start + len] {
                acc += v;
            }
            acc
        })
        .sum()
}

#[test]
fn parallel_reduction_matches_sequential_baseline() {
    let mut values = vec![0.0f64; 10_000];
    rand::rng().fill(&mut values[..]);
    let sequential = sequential_sum(&values);
    let parallel = chunked_parallel_sum(&values, 100);
    let relative = ((parallel - sequential) / sequential).abs();
    assert!(relative < 1e-9, "relative difference {relative}");
    let seq_avg = sequential / values.len() as f64;
    let par_avg = parallel / values.len() as f64;
    assert!(((par_avg - seq_avg) / seq_avg).abs() < 1e-9);
}

#[test]
fn parallel_reduction_matches_on_short_shards() {
    for len in 1..=120usize {
        let mut values = vec![0.0f64; len];
        rand::rng().fill(&mut values[..]);
        let sequential = sequential_sum(&values);
        let parallel = chunked_parallel_sum(&values, 100);
        assert!((parallel - sequential).abs() <= 1e-9 * sequential.abs().max(1.0));
    }
}

#[test]
fn empty_shard_average_is_undefined() {
    assert_eq!(local_divisor(0), Err(PipelineError::UndefinedAverage));
    assert_eq!(local_divisor(1), Ok(1));
    assert_eq!(local_divisor(42), Ok(42));
}
