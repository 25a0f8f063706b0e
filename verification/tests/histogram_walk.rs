use disk_art::histogram::Histogram;

#[test]
fn record_counts_every_value_once() {
    let mut h = Histogram::new();
    for b in [0usize, 3, 3, 1] {
        h.record(b);
    }
    assert_eq!(h.bucket_len(), 4);
    assert_eq!(h.bucket_count(0), 1);
    assert_eq!(h.bucket_count(1), 1);
    assert_eq!(h.bucket_count(2), 0);
    assert_eq!(h.bucket_count(3), 2);
    assert_eq!(h.recorded_count(), 4);
    let sum: usize = (0..h.bucket_len()).map(|i| h.bucket_count(i)).sum();
    assert_eq!(sum, h.recorded_count());
}

#[test]
fn half_mass_stops_at_first_exceeding_bucket() {
    // buckets [4, 3, 2, 5] for size 2: threshold is 2*2*3/2 = 6, and the
    // running mass is 4/2 = 2, then 5, then 7 > 6: stop at bucket 2.
    let mut h = Histogram::new();
    for _ in 0..4 {
        h.record(0);
    }
    for _ in 0..3 {
        h.record(1);
    }
    for _ in 0..2 {
        h.record(2);
    }
    for _ in 0..5 {
        h.record(3);
    }
    let (count, stop) = h.half_mass_stop(2);
    assert_eq!(count, 7);
    assert_eq!(stop, Some(2));
    // the characteristic width derived from the stop is an exact multiple of
    // the bucket width
    let width = stop.unwrap() as f64 * 0.01;
    assert!((width - 0.02).abs() < 1e-12);
}

#[test]
fn all_zero_canvas_scenario_falls_back() {
    // a 2 x 2 canvas has 12 channel values; all zero, they all land in
    // bucket 0, whose halved count 6 equals the threshold 6 without
    // exceeding it, so there is no stopping index
    let mut h = Histogram::new();
    for _ in 0..12 {
        h.record(0);
    }
    let (count, stop) = h.half_mass_stop(2);
    assert_eq!(count, 6);
    assert_eq!(stop, None);
    // the driver then falls back to one bucket width, and every tone-mapped
    // channel takes the tie value: 255 / (1 + exp(0)) rounded away from zero
    let width = 0.01f64;
    let tone = (255.0 / (1.0 + (0.0f64 / width).exp())).round() as u8;
    assert_eq!(tone, 128);
}

#[test]
fn recording_past_the_end_zero_fills_the_gap() {
    let mut h = Histogram::new();
    h.record(5);
    assert_eq!(h.bucket_len(), 6);
    for i in 0..5 {
        assert_eq!(h.bucket_count(i), 0);
    }
    assert_eq!(h.bucket_count(5), 1);
    assert_eq!(h.recorded_count(), 1);
}

#[test]
fn empty_histogram_falls_back() {
    let h = Histogram::new();
    assert_eq!(h.half_mass_stop(3), (0, None));
}
