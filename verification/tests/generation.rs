use disk_art::disk::disk_offsets;
use disk_art::geometry::Transformation;
use rand::rngs::StdRng;
use rand::SeedableRng;

fn clearance(row: usize, col: usize, size: usize) -> usize {
    row.min(col).min(size - 1 - row).min(size - 1 - col)
}

#[test]
fn generated_transformations_respect_invariants() {
    for seed in 0..25u64 {
        for &size in &[1usize, 2, 3, 5, 17, 64] {
            let mut rng = StdRng::seed_from_u64(seed);
            let t = Transformation::generate(size, &mut rng);
            assert!(t.src_row < size && t.src_col < size);
            assert!(t.dst_radius <= t.src_radius);
            assert!(t.src_radius <= clearance(t.src_row, t.src_col, size));
            assert!(t.dst_radius <= t.dst_row && t.dst_row + t.dst_radius < size);
            assert!(t.dst_radius <= t.dst_col && t.dst_col + t.dst_radius < size);
        }
    }
}

#[test]
fn source_disk_lies_inside_grid() {
    let size = 33usize;
    let mut rng = StdRng::seed_from_u64(7);
    for _ in 0..10 {
        let t = Transformation::generate(size, &mut rng);
        for &(dr, dc) in disk_offsets(t.src_radius).iter() {
            let (r, c) = t.source_pixel(size, dr, dc);
            assert!(r < size && c < size);
            assert_eq!(r as i64, t.src_row as i64 + dr);
            assert_eq!(c as i64, t.src_col as i64 + dc);
        }
    }
}

#[test]
fn same_seed_same_transformations() {
    for seed in [0u64, 1, 42, 123456789] {
        let mut a = StdRng::seed_from_u64(seed);
        let mut b = StdRng::seed_from_u64(seed);
        for _ in 0..10 {
            let ta = Transformation::generate(100, &mut a);
            let tb = Transformation::generate(100, &mut b);
            assert_eq!(ta, tb);
        }
    }
}

#[test]
fn unit_canvas_forces_degenerate_transformation() {
    let mut rng = StdRng::seed_from_u64(3);
    let t = Transformation::generate(1, &mut rng);
    let expected = Transformation {
        src_row: 0,
        src_col: 0,
        src_radius: 0,
        dst_row: 0,
        dst_col: 0,
        dst_radius: 0,
    };
    assert_eq!(t, expected);
}

#[test]
fn draws_actually_vary() {
    let mut seen_nonzero_row = false;
    let mut seen_nonzero_radius = false;
    for seed in 0..50u64 {
        let mut rng = StdRng::seed_from_u64(seed);
        let t = Transformation::generate(1000, &mut rng);
        if t.src_row != 0 {
            seen_nonzero_row = true;
        }
        if t.src_radius != 0 {
            seen_nonzero_radius = true;
        }
    }
    assert!(seen_nonzero_row);
    assert!(seen_nonzero_radius);
}
