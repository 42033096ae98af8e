//! Hex-grid geometry helpers. Coordinates are fixed point, in thousandths
//! of a pixel, with the square root of three taken as 1.732; the actual
//! line drawing is the host surface's floating-point presentation work and
//! stays outside this crate.

use vstd::prelude::*;

use vstd::arithmetic::div_mod::lemma_div_nonincreasing;

use crate::scroll::div_trunc;

verus! {

/// Namespace for the hex-grid drawing helpers.
pub struct TechGizmos;

fn div_trunc_exec(n: i64, d: u64) -> (r: i64)
    requires
        1 <= d <= 1_000_000,
        -4_000_000_000_000_000_000 <= n <= 4_000_000_000_000_000_000,
    ensures
        r as int == div_trunc(n as int, d as int),
{
    if n >= 0 {
        let m = n as u64;
        proof {
            lemma_div_nonincreasing(m as int, d as int);
        }
        (m / d) as i64
    } else {
        let m = (-n) as u64;
        proof {
            lemma_div_nonincreasing(m as int, d as int);
        }
        -((m / d) as i64)
    }
}

impl TechGizmos {
    /// Converts axial hex coordinates `(q, r)` to world offsets, both in
    /// thousandths: `x = size * sqrt(3) * (q + r/2)` and
    /// `y = size * 3/2 * r`, with `sqrt(3)` as 1732/1000 and division
    /// rounding toward zero.
    pub fn axial_to_world(q: i32, r: i32, size_milli: i64) -> (p: (i64, i64))
        requires
            0 <= size_milli <= 1_000_000,
            -100_000 <= q <= 100_000,
            -100_000 <= r <= 100_000,
        ensures
            p.0 as int == div_trunc(size_milli * 1732 * (2 * q + r), 2000),
            p.1 as int == div_trunc(size_milli * 3 * r, 2),
    {
        let scaled: i64 = size_milli * 1732;
        let m: i64 = 2 * (q as i64) + (r as i64);
        proof {
            assert(scaled * m <= 4_000_000_000_000_000_000 && scaled * m
                >= -4_000_000_000_000_000_000) by (nonlinear_arith)
                requires 0 <= scaled <= 1_732_000_000 && -300_000 <= m <= 300_000;
        }
        let x = div_trunc_exec(scaled * m, 2000);
        proof {
            assert(size_milli * 1732 * (2 * q + r) == scaled * m) by (nonlinear_arith)
                requires scaled == size_milli * 1732 && m == 2 * q + r;
        }
        let tripled: i64 = size_milli * 3;
        proof {
            assert(tripled * r <= 4_000_000_000_000_000_000 && tripled * r
                >= -4_000_000_000_000_000_000) by (nonlinear_arith)
                requires 0 <= tripled <= 3_000_000 && -100_000 <= r <= 100_000;
        }
        let y = div_trunc_exec(tripled * (r as i64), 2);
        proof {
            assert(size_milli * 3 * r == tripled * r) by (nonlinear_arith)
                requires tripled == size_milli * 3;
        }
        (x, y)
    }
}

} // verus!
