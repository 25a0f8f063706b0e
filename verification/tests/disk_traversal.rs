use disk_art::disk::disk_offsets;

#[test]
fn radius_zero_has_no_offsets() {
    assert!(disk_offsets(0).is_empty());
}

#[test]
fn radius_one_offsets_exact() {
    assert_eq!(disk_offsets(1), vec![(-1, 0), (0, -1), (0, 0)]);
}

#[test]
fn radius_two_offsets_exact() {
    let expected: Vec<(i64, i64)> = vec![
        (-2, 0),
        (-1, -1),
        (-1, 0),
        (-1, 1),
        (0, -2),
        (0, -1),
        (0, 0),
        (0, 1),
        (1, -1),
        (1, 0),
        (1, 1),
    ];
    assert_eq!(disk_offsets(2), expected);
}

#[test]
fn offsets_match_brute_force_traversal() {
    for radius in 0..8usize {
        let r = radius as i64;
        let mut expected: Vec<(i64, i64)> = Vec::new();
        for dr in -r..r {
            for dc in -r..r {
                if dr * dr + dc * dc <= r * r {
                    expected.push((dr, dc));
                }
            }
        }
        assert_eq!(disk_offsets(radius), expected);
    }
}

#[test]
fn offsets_strictly_sorted() {
    let v = disk_offsets(6);
    for w in v.windows(2) {
        assert!(w[0] < w[1]);
    }
}
