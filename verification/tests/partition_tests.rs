use cluster_mean::errors::PipelineError;
use cluster_mean::partition::local_count;
use cluster_mean::world::WorldView;

fn world(rank: usize, size: usize) -> WorldView {
    WorldView::new(rank, size).unwrap()
}

#[test]
fn ten_elements_over_three_ranks() {
    let counts: Vec<usize> = (0..3).map(|r| local_count(10, &world(r, 3))).collect();
    assert_eq!(counts, vec![4, 3, 3]);
    assert_eq!(counts.iter().sum::<usize>(), 10);
}

#[test]
fn empty_dataset_over_four_ranks() {
    for r in 0..4 {
        assert_eq!(local_count(0, &world(r, 4)), 0);
    }
}

#[test]
fn partition_covers_dataset() {
    for &(n, size) in &[(0usize, 1usize), (1, 1), (1, 7), (13, 4), (100, 1), (999, 8), (1_000_000, 12)] {
        let counts: Vec<usize> = (0..size).map(|r| local_count(n, &world(r, size))).collect();
        assert_eq!(counts.iter().sum::<usize>(), n, "n={n} size={size}");
        for r in 1..size {
            assert_eq!(counts[r], n / size, "non-coordinator rank gets the even share");
        }
        assert_eq!(counts[0], n / size + n % size, "coordinator absorbs the remainder");
    }
}

#[test]
fn invalid_world_is_rejected() {
    assert_eq!(WorldView::new(0, 0), Err(PipelineError::InvalidConfiguration));
    assert_eq!(WorldView::new(3, 3), Err(PipelineError::InvalidConfiguration));
    assert_eq!(WorldView::new(5, 2), Err(PipelineError::InvalidConfiguration));
    let w = WorldView::new(2, 3).unwrap();
    assert_eq!(w.rank, 2);
    assert_eq!(w.size, 3);
    assert!(!w.is_coordinator());
    assert!(world(0, 3).is_coordinator());
}
