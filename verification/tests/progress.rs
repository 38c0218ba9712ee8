use extended_audio::progress::{aggregate_progress, progress_fraction, PROGRESS_SCALE};

#[test]
fn test_progress_fraction_values() {
    assert_eq!(progress_fraction(0, 10), 0);
    assert_eq!(progress_fraction(5, 10), 500_000);
    assert_eq!(progress_fraction(10, 10), PROGRESS_SCALE);
    // A report past the total is clamped to one whole unit.
    assert_eq!(progress_fraction(20, 10), PROGRESS_SCALE);
    // An unknown total reads as no progress.
    assert_eq!(progress_fraction(5, 0), 0);
}

#[test]
fn test_aggregate_progress_values() {
    // Segment 0 of 3 at no sub-progress: the request has not advanced.
    assert_eq!(aggregate_progress(0, 3, 0), 0);
    // Segment 1 of 3 just started: one third of the way, truncated.
    assert_eq!(aggregate_progress(1, 3, 0), 333_333);
    // The last segment finishing reaches exactly one whole unit.
    assert_eq!(aggregate_progress(2, 3, PROGRESS_SCALE), PROGRESS_SCALE);
}

#[test]
fn test_aggregate_progress_is_monotone_over_a_request() {
    let mut last: u64 = 0;
    for segment in 0..4usize {
        for sub in [0, 250_000, 500_000, 750_000, PROGRESS_SCALE] {
            let p = aggregate_progress(segment, 4, sub);
            assert!(p >= last, "progress went backwards: {} after {}", p, last);
            last = p;
        }
    }
    assert_eq!(last, PROGRESS_SCALE);
}
