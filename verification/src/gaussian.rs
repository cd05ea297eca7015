//! Convolution kernel specs and their normalized weight matrices.
//!
//! A spec carries the window side, the scale parameter, and the radial
//! Gaussian table: the unnormalized Gaussian value for each squared distance
//! from the window center, as single-precision bit patterns. The host edge
//! evaluates the transcendental Gaussian function; everything from there on
//! — assembling the square matrix by squared distance and normalizing by
//! the total — is verified, and the matrix is symmetric by construction,
//! whatever the table holds.

use vstd::prelude::*;
use crate::floatbits::{fadd, fdiv, fadd_bits, fdiv_bits, single_of_u32, single_from_u32};

verus! {

/// The largest supported window side: keeps every squared distance and the
/// window area inside the machine's integer ranges.
pub const MAX_SIDE: usize = 46341;

/// A convolution kernel spec: a square window side (odd, fixed per
/// instance), the Gaussian scale parameter as a single-precision bit
/// pattern, and the radial table of unnormalized Gaussian values indexed by
/// squared distance from the center.
pub struct GaussianBlur {
    pub side: usize,
    pub sigma_bits: u32,
    pub radial: Vec<u32>,
}

/// The center coordinate of a window of the given side.
pub open spec fn spec_center(side: int) -> int {
    (side - 1) / 2
}

/// The squared distance of cell `(i, j)` from the window center.
pub open spec fn spec_d2(side: int, i: int, j: int) -> int {
    let c = spec_center(side);
    (i - c) * (i - c) + (j - c) * (j - c)
}

/// The number of distinct squared distances a window can hold: one more
/// than the largest, which a corner cell attains.
pub open spec fn spec_radial_len(side: int) -> int {
    2 * (spec_center(side) * spec_center(side)) + 1
}

impl GaussianBlur {
    /// A usable spec: an odd window side within machine range, and a radial
    /// table covering every squared distance of the window.
    pub open spec fn wf(&self) -> bool {
        &&& 1 <= self.side <= MAX_SIDE
        &&& self.side % 2 == 1
        &&& self.radial@.len() == spec_radial_len(self.side as int)
    }

    /// Tests well-formedness.
    pub fn is_wf(&self) -> (r: bool)
        ensures
            r == self.wf(),
    {
        if 1 <= self.side && self.side <= MAX_SIDE && self.side % 2 == 1 {
            let len = radial_table_len(self.side);
            self.radial.len() == len
        } else {
            false
        }
    }
}

proof fn lemma_sq_bound(a: int, c: int)
    by (nonlinear_arith)
    requires
        -c <= a <= c,
        0 <= c,
    ensures
        0 <= a * a <= c * c,
{
}

/// The length of the radial table a window of this side needs.
pub fn radial_table_len(side: usize) -> (r: usize)
    requires
        1 <= side <= MAX_SIDE,
    ensures
        r == spec_radial_len(side as int),
{
    let c = (side - 1) / 2;
    proof {
        assert(c <= 23170);
        lemma_sq_bound(c as int, 23170);
    }
    2 * (c * c) + 1
}

/// The squared distance of `(i, j)` from the center, within the radial
/// table's range.
pub fn d2_of(side: usize, i: usize, j: usize) -> (r: usize)
    requires
        1 <= side <= MAX_SIDE,
        side % 2 == 1,
        i < side,
        j < side,
    ensures
        r == spec_d2(side as int, i as int, j as int),
        r < spec_radial_len(side as int),
{
    let c = (side - 1) / 2;
    let di: i64 = i as i64 - c as i64;
    let dj: i64 = j as i64 - c as i64;
    proof {
        assert(c <= 23170);
        assert(side as int - 1 == 2 * c) by {
            assert(side % 2 == 1);
        }
        assert(-(c as int) <= di as int <= c as int);
        assert(-(c as int) <= dj as int <= c as int);
        lemma_sq_bound(di as int, c as int);
        lemma_sq_bound(dj as int, c as int);
        lemma_sq_bound(c as int, 23170);
    }
    let dd: i64 = di * di + dj * dj;
    dd as usize
}

/// The running total of the raw (unnormalized) window values, folded in
/// row-major order over the first `n` cells.
pub open spec fn spec_total_upto(radial: Seq<u32>, side: int, n: int) -> u32
    decreases n,
{
    if n <= 0 {
        single_of_u32(0)
    } else {
        fadd_bits(
            spec_total_upto(radial, side, n - 1),
            radial[spec_d2(side, (n - 1) / side, (n - 1) % side)],
        )
    }
}

/// The total of all raw window values of a kernel spec.
pub open spec fn spec_total(k: GaussianBlur) -> u32 {
    spec_total_upto(k.radial@, k.side as int, k.side as int * k.side as int)
}

/// Weight of cell `(i, j)`: its raw radial value divided by the total.
pub open spec fn spec_weight(k: GaussianBlur, i: int, j: int) -> u32 {
    fdiv_bits(k.radial@[spec_d2(k.side as int, i, j)], spec_total(k))
}

pub(crate) proof fn lemma_rowmajor_decompose(side: int, i: int, j: int)
    by (nonlinear_arith)
    requires
        0 < side,
        0 <= i,
        0 <= j < side,
    ensures
        (i * side + j) / side == i,
        (i * side + j) % side == j,
{
}

fn total_of(k: &GaussianBlur) -> (r: u32)
    requires
        k.wf(),
    ensures
        r == spec_total(*k),
{
    let side = k.side;
    proof {
        assert(side * side <= MAX_SIDE * MAX_SIDE) by (nonlinear_arith)
            requires 1 <= side <= MAX_SIDE;
    }
    let count = side * side;
    let mut acc = single_from_u32(0);
    let mut n: usize = 0;
    while n < count
        invariant
            k.wf(),
            side == k.side,
            count == side * side,
            count <= MAX_SIDE * MAX_SIDE,
            n <= count,
            acc == spec_total_upto(k.radial@, side as int, n as int),
        decreases count - n,
    {
        let i = n / side;
        let j = n % side;
        proof {
            assert(n < side * side);
            assert(i < side) by (nonlinear_arith)
                requires 0 < side, n < side * side, i == n / side;
            assert(j < side);
            lemma_rowmajor_decompose(side as int, i as int, j as int);
            assert(i * side + j == n) by (nonlinear_arith)
                requires 0 < side, i == n as int / side as int, j == n as int % side as int;
        }
        let d2 = d2_of(side, i, j);
        acc = fadd(acc, k.radial[d2]);
        n = n + 1;
    }
    acc
}

/// Computes the normalized `side x side` weight matrix of a kernel spec:
/// each cell is its raw radial value divided by the window total. The
/// matrix is symmetric — cells at mirrored positions share one radial
/// entry and one divisor, whatever values the radial table holds.
pub fn weight_matrix(k: &GaussianBlur) -> (r: Vec<Vec<u32>>)
    requires
        k.wf(),
    ensures
        r@.len() == k.side,
        forall|i: int| 0 <= i < k.side ==> #[trigger] r@[i]@.len() == k.side,
        forall|i: int, j: int|
            0 <= i < k.side && 0 <= j < k.side ==> #[trigger] r@[i]@[j] == spec_weight(*k, i, j),
        forall|i: int, j: int|
            0 <= i < k.side && 0 <= j < k.side ==> #[trigger] r@[i]@[j] == r@[j]@[i],
{
    let side = k.side;
    let total = total_of(k);
    let mut rows: Vec<Vec<u32>> = Vec::new();
    let mut i: usize = 0;
    while i < side
        invariant
            k.wf(),
            side == k.side,
            total == spec_total(*k),
            i <= side,
            rows@.len() == i,
            forall|a: int| 0 <= a < i ==> #[trigger] rows@[a]@.len() == side,
            forall|a: int, b: int|
                0 <= a < i && 0 <= b < side ==> #[trigger] rows@[a]@[b] == spec_weight(*k, a, b),
        decreases side - i,
    {
        let mut row: Vec<u32> = Vec::new();
        let mut j: usize = 0;
        while j < side
            invariant
                k.wf(),
                side == k.side,
                total == spec_total(*k),
                i < side,
                j <= side,
                row@.len() == j,
                forall|b: int|
                    0 <= b < j ==> #[trigger] row@[b] == spec_weight(*k, i as int, b),
            decreases side - j,
        {
            let d2 = d2_of(side, i, j);
            row.push(fdiv(k.radial[d2], total));
            j = j + 1;
        }
        rows.push(row);
        i = i + 1;
    }
    proof {
        assert forall|i: int, j: int|
            0 <= i < k.side && 0 <= j < k.side implies #[trigger] rows@[i]@[j] == rows@[j]@[i] by {
            assert(rows@[i]@[j] == spec_weight(*k, i, j));
            assert(rows@[j]@[i] == spec_weight(*k, j, i));
            assert(spec_d2(k.side as int, i, j) == spec_d2(k.side as int, j, i));
        }
    }
    rows
}

} // verus!
