//! Transformations: a source disk copied onto a destination disk.
//!
//! A transformation carries the geometric placement of the two disks on a
//! `size x size` canvas. The rotation angle and the additive color offset of
//! the full pipeline are real-valued and live with the caller that performs
//! the resampling; they play no part in the placement invariants stated here.

use vstd::prelude::*;

verus! {

use crate::rng::{gen_range_exclusive, gen_range_inclusive};

/// The largest disk radius centered at `(row, col)` that stays inside a
/// `size x size` grid: the distance to the nearest edge.
pub open spec fn spec_clearance(row: int, col: int, size: int) -> int {
    let a = if row <= col { row } else { col };
    let b = if size - 1 - row <= size - 1 - col { size - 1 - row } else { size - 1 - col };
    if a <= b { a } else { b }
}

/// The geometric part of one transformation.
#[derive(Clone, Copy, PartialEq, Eq, Structural, Debug)]
pub struct Transformation {
    pub src_row: usize,
    pub src_col: usize,
    pub src_radius: usize,
    pub dst_row: usize,
    pub dst_col: usize,
    pub dst_radius: usize,
}

impl Transformation {
    /// Everything the generator establishes: the destination radius never
    /// exceeds the source radius, the source radius never exceeds the
    /// clearance of its center, and the destination disk stays inside the
    /// grid on both axes.
    pub open spec fn wf(self, size: int) -> bool {
        &&& 1 <= size
        &&& self.src_row < size
        &&& self.src_col < size
        &&& self.dst_radius <= self.src_radius
        &&& self.src_radius <= spec_clearance(self.src_row as int, self.src_col as int, size)
        &&& self.dst_radius <= self.dst_row
        &&& self.dst_row + self.dst_radius < size
        &&& self.dst_radius <= self.dst_col
        &&& self.dst_col + self.dst_radius < size
    }

    /// Draw one transformation for a `size x size` canvas: a uniformly random
    /// source center, a source radius bounded by the center's clearance, a
    /// destination radius bounded by the source radius, and a destination
    /// center far enough from every edge for the destination disk to fit.
    /// The six draws happen in exactly this order on the shared generator.
    pub fn generate(size: usize, rng: &mut rand::rngs::StdRng) -> (t: Transformation)
        requires
            1 <= size,
        ensures
            t.wf(size as int),
    {
        let src_row = gen_range_exclusive(rng, 0, size);
        let src_col = gen_range_exclusive(rng, 0, size);
        let a = if src_row <= src_col { src_row } else { src_col };
        let b1 = size - 1 - src_row;
        let b2 = size - 1 - src_col;
        let b = if b1 <= b2 { b1 } else { b2 };
        let clearance = if a <= b { a } else { b };
        let src_radius = gen_range_inclusive(rng, 0, clearance);
        let dst_radius = gen_range_inclusive(rng, 0, src_radius);
        // dst_radius is at most the clearance, which is at most (size-1)/2,
        // so the destination-center range below is never empty.
        let dst_row = gen_range_exclusive(rng, dst_radius, size - dst_radius);
        let dst_col = gen_range_exclusive(rng, dst_radius, size - dst_radius);
        Transformation { src_row, src_col, src_radius, dst_row, dst_col, dst_radius }
    }

    /// The source pixel read for the offset `(dr, dc)`: in bounds whenever
    /// the offset components stay within the source radius, because the
    /// source radius is bounded by the clearance of the source center.
    pub fn source_pixel(&self, size: usize, dr: i64, dc: i64) -> (p: (usize, usize))
        requires
            self.wf(size as int),
            -(self.src_radius as int) <= dr as int <= self.src_radius as int,
            -(self.src_radius as int) <= dc as int <= self.src_radius as int,
        ensures
            p.0 as int == self.src_row + dr,
            p.1 as int == self.src_col + dc,
            p.0 < size,
            p.1 < size,
    {
        let row = if dr >= 0 {
            self.src_row + (dr as usize)
        } else {
            self.src_row - ((-dr) as usize)
        };
        let col = if dc >= 0 {
            self.src_col + (dc as usize)
        } else {
            self.src_col - ((-dc) as usize)
        };
        (row, col)
    }

    /// Both disks of a well-formed transformation lie fully inside the grid:
    /// every offset within the source radius lands on a valid source pixel.
    pub proof fn lemma_src_disk_in_bounds(self, size: int, dr: int, dc: int)
        requires
            self.wf(size),
            -(self.src_radius as int) <= dr <= self.src_radius as int,
            -(self.src_radius as int) <= dc <= self.src_radius as int,
        ensures
            0 <= self.src_row + dr < size,
            0 <= self.src_col + dc < size,
    {
    }

    /// The destination counterpart: every offset within the destination
    /// radius lands on a valid destination pixel.
    pub proof fn lemma_dst_disk_in_bounds(self, size: int, dr: int, dc: int)
        requires
            self.wf(size),
            -(self.dst_radius as int) <= dr <= self.dst_radius as int,
            -(self.dst_radius as int) <= dc <= self.dst_radius as int,
        ensures
            0 <= self.dst_row + dr < size,
            0 <= self.dst_col + dc < size,
    {
    }
}

} // verus!
