//! The disk traversal: which offsets a transformation application visits,
//! and in what order.

use vstd::prelude::*;

verus! {

/// Membership of the integer offset `(dr, dc)` in the traversal of a disk of
/// the given radius. Each component ranges over `[-radius, radius)` — the
/// upper bound is exclusive, a deliberate asymmetry of the engine that leaves
/// out the rightmost column and bottom row of the bounding square — and the
/// squared distance from the center is at most the squared radius.
pub open spec fn in_disk(dr: int, dc: int, radius: int) -> bool {
    &&& -radius <= dr < radius
    &&& -radius <= dc < radius
    &&& dr * dr + dc * dc <= radius * radius
}

/// Membership stated of an offset pair as the traversal produces it.
pub open spec fn offset_in_disk(o: (i64, i64), radius: int) -> bool {
    in_disk(o.0 as int, o.1 as int, radius)
}

/// Traversal order on offsets: ascending row delta first, then ascending
/// column delta.
pub open spec fn offset_lt(a: (i64, i64), b: (i64, i64)) -> bool {
    a.0 < b.0 || (a.0 == b.0 && a.1 < b.1)
}

/// Radii up to this bound keep every squared distance within `i64`.
pub const RADIUS_LIMIT: usize = 0x3fff_ffff;

/// Every offset of the disk of the given radius, in traversal order: the
/// result is strictly sorted by `offset_lt`, holds only offsets of the disk,
/// and holds every offset of the disk. A radius of zero yields no offsets at
/// all, so such a transformation touches nothing.
#[verifier::loop_isolation(false)]
pub fn disk_offsets(radius: usize) -> (v: Vec<(i64, i64)>)
    requires
        radius <= RADIUS_LIMIT,
    ensures
        forall|k: int| 0 <= k < v@.len() ==> #[trigger] offset_in_disk(v@[k], radius as int),
        forall|k: int, l: int| 0 <= k < l < v@.len() ==> offset_lt(v@[k], v@[l]),
        forall|dr: int, dc: int| #[trigger] in_disk(dr, dc, radius as int)
            ==> v@.contains((dr as i64, dc as i64)),
        radius == 0 ==> v@.len() == 0,
{
    let mut v: Vec<(i64, i64)> = Vec::new();
    if radius == 0 {
        return v;
    }
    let r = radius as i64;
    proof {
        assert(r * r < 0x1000_0000_0000_0000i64) by (nonlinear_arith)
            requires 0 < r <= 0x3fff_ffffi64;
    }
    let rsq = r * r;
    let mut dr: i64 = -r;
    while dr < r
        invariant
            -r <= dr <= r,
            forall|k: int| 0 <= k < v@.len()
                ==> #[trigger] offset_in_disk(v@[k], radius as int) && v@[k].0 < dr,
            forall|k: int, l: int| 0 <= k < l < v@.len() ==> offset_lt(v@[k], v@[l]),
            forall|a: int, b: int| #[trigger] in_disk(a, b, radius as int) && a < dr
                ==> v@.contains((a as i64, b as i64)),
        decreases r - dr,
    {
        let mut dc: i64 = -r;
        while dc < r
            invariant
                -r <= dc <= r,
                forall|k: int| 0 <= k < v@.len()
                    ==> #[trigger] offset_in_disk(v@[k], radius as int)
                        && offset_lt(v@[k], (dr, dc)),
                forall|k: int, l: int| 0 <= k < l < v@.len() ==> offset_lt(v@[k], v@[l]),
                forall|a: int, b: int| #[trigger] in_disk(a, b, radius as int)
                    && (a < dr || (a == dr && b < dc))
                    ==> v@.contains((a as i64, b as i64)),
            decreases r - dc,
        {
            proof {
                assert(0 <= dr * dr <= rsq && 0 <= dc * dc <= rsq) by (nonlinear_arith)
                    requires -r <= dr <= r, -r <= dc <= r, rsq == r * r;
            }
            if dr * dr + dc * dc <= rsq {
                let ghost prior = v@;
                v.push((dr, dc));
                proof {
                    assert forall|k: int, l: int| 0 <= k < l < v@.len()
                        implies offset_lt(v@[k], v@[l]) by {
                        assert(v@[k] == prior[k]);
                        assert(offset_in_disk(prior[k], radius as int)
                            && offset_lt(prior[k], (dr, dc)));
                        if l < v@.len() - 1 {
                            assert(v@[l] == prior[l]);
                        } else {
                            assert(v@[l] == (dr, dc));
                        }
                    }
                    assert forall|a: int, b: int|
                        #[trigger] in_disk(a, b, radius as int)
                            && (a < dr || (a == dr && b < dc + 1))
                        implies v@.contains((a as i64, b as i64)) by {
                        if a < dr || (a == dr && b < dc) {
                            let k = choose|k: int|
                                0 <= k < prior.len() && prior[k] == (a as i64, b as i64);
                            assert(v@[k] == (a as i64, b as i64));
                        } else {
                            assert(v@[v@.len() - 1] == (a as i64, b as i64));
                        }
                    }
                }
            } else {
                proof {
                    assert forall|a: int, b: int|
                        #[trigger] in_disk(a, b, radius as int)
                            && (a < dr || (a == dr && b < dc + 1))
                        implies v@.contains((a as i64, b as i64)) by {
                        if a == dr && b == dc {
                            assert(a * a + b * b <= radius * radius);
                            assert(dr * dr + dc * dc <= rsq);
                        }
                        assert(a < dr || (a == dr && b < dc));
                    }
                }
            }
            dc = dc + 1;
        }
        dr = dr + 1;
    }
    v
}

} // verus!
