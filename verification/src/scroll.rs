//! The scroll inertia state machine. Wheel input moves a clamped target;
//! the per-frame integrator moves the current offset a fixed fraction of
//! the remaining gap toward the target, so it approaches monotonically and
//! never overshoots, for any positive tick length.
//!
//! Offsets are whole pixels; the rate constant is ten per second, so a
//! tick of `dt` milliseconds closes `min(10 dt, 1000)` thousandths of the
//! gap.

use vstd::prelude::*;

use vstd::arithmetic::div_mod::{lemma_div_is_ordered, lemma_div_pos_is_pos};
use vstd::arithmetic::mul::lemma_mul_inequality;

verus! {

/// `v` forced into `[lo, hi]`.
pub open spec fn spec_clamp(v: int, lo: int, hi: int) -> int {
    if v < lo {
        lo
    } else if v > hi {
        hi
    } else {
        v
    }
}

/// Integer division rounding toward zero, for a positive divisor.
pub open spec fn div_trunc(n: int, d: int) -> int {
    if n >= 0 {
        n / d
    } else {
        -((-n) / d)
    }
}

/// The fraction of the gap one tick closes, in thousandths: ten per
/// second, capped at the whole gap.
pub open spec fn spec_rate(dt_ms: int) -> int {
    if 10 * dt_ms >= 1000 {
        1000
    } else {
        10 * dt_ms
    }
}

/// A scrollable container's offsets: the drawn `current` offset chases the
/// wheel-driven `target`, which is clamped into `[min, max]` whenever it
/// is updated.
#[derive(Clone, Copy, Debug, PartialEq, Eq, Structural)]
pub struct FluentScroll {
    pub current: i64,
    pub target: i64,
    pub min: i64,
    pub max: i64,
}

/// One wheel step moves the target fifty pixels per wheel unit.
pub const WHEEL_STEP: i64 = 50;

impl FluentScroll {
    /// Bounds stay within a billion pixels so every update fits
    /// comfortably in machine arithmetic.
    pub open spec fn wf(self) -> bool {
        &&& -1_000_000_000 <= self.min <= self.max <= 1_000_000_000
        &&& -1_000_000_000 <= self.current <= 1_000_000_000
        &&& -1_000_000_000 <= self.target <= 1_000_000_000
    }

    /// A scroll state at rest at offset zero.
    pub fn new(min: i64, max: i64) -> (r: FluentScroll)
        requires
            -1_000_000_000 <= min <= max <= 1_000_000_000,
        ensures
            r.wf(),
            r == (FluentScroll { current: 0, target: 0, min, max }),
    {
        FluentScroll { current: 0, target: 0, min, max }
    }

    /// The state after one wheel event of `y` units.
    pub open spec fn spec_wheeled(self, y: int) -> FluentScroll {
        FluentScroll {
            target: spec_clamp(self.target + y * 50, self.min as int, self.max as int) as i64,
            ..self
        }
    }

    /// The state after a tick's wheel events, applied in order; each event
    /// clamps from the already-clamped target, never from an unclamped
    /// running sum.
    pub open spec fn spec_wheeled_all(self, ys: Seq<i32>) -> FluentScroll
        decreases ys.len(),
    {
        if ys.len() == 0 {
            self
        } else {
            self.spec_wheeled(ys[0] as int).spec_wheeled_all(ys.drop_first())
        }
    }

    /// Applies one wheel event: fifty pixels per unit, then clamp.
    pub fn wheel(&mut self, y: i32)
        requires
            old(self).wf(),
        ensures
            final(self).wf(),
            *final(self) == old(self).spec_wheeled(y as int),
            old(self).min <= final(self).target <= old(self).max,
    {
        let moved: i64 = self.target + (y as i64) * WHEEL_STEP;
        self.target = if moved < self.min {
            self.min
        } else if moved > self.max {
            self.max
        } else {
            moved
        };
    }

    /// Applies a whole tick's wheel events in arrival order.
    pub fn apply_wheel_events(&mut self, ys: &Vec<i32>)
        requires
            old(self).wf(),
        ensures
            final(self).wf(),
            *final(self) == old(self).spec_wheeled_all(ys@),
            ys@.len() > 0 ==> old(self).min <= final(self).target <= old(self).max,
    {
        let n = ys.len();
        proof {
            assert(ys@.subrange(0, n as int) =~= ys@);
        }
        let mut i: usize = 0;
        while i < n
            invariant
                n == ys@.len(),
                0 <= i <= n,
                self.wf(),
                self.spec_wheeled_all(ys@.subrange(i as int, n as int)) == old(
                    self,
                ).spec_wheeled_all(ys@),
                i > 0 ==> old(self).min <= self.target <= old(self).max,
                self.min == old(self).min && self.max == old(self).max && self.current == old(
                    self,
                ).current,
            decreases n - i,
        {
            proof {
                assert(ys@.subrange(i as int, n as int).drop_first() =~= ys@.subrange(
                    i + 1,
                    n as int,
                ));
                assert(ys@.subrange(i as int, n as int)[0] == ys@[i as int]);
            }
            self.wheel(ys[i]);
            i += 1;
        }
        proof {
            assert(ys@.subrange(n as int, n as int).len() == 0);
        }
    }

    /// The state after one integration step of `dt_ms`.
    pub open spec fn spec_integrated(self, dt_ms: int) -> FluentScroll {
        FluentScroll {
            current: (self.current + div_trunc(
                (self.target - self.current) * spec_rate(dt_ms),
                1000,
            )) as i64,
            ..self
        }
    }

    /// Moves the current offset toward the target by the tick's fraction
    /// of the gap. The offset never overshoots: it stays between its old
    /// value and the target, and a tick of a tenth of a second or more
    /// lands exactly on the target.
    pub fn integrate(&mut self, dt_ms: u64)
        requires
            old(self).wf(),
            dt_ms <= 1_000_000_000,
        ensures
            final(self).wf(),
            *final(self) == old(self).spec_integrated(dt_ms as int),
            final(self).target == old(self).target,
            final(self).min == old(self).min,
            final(self).max == old(self).max,
            old(self).current <= old(self).target ==> old(self).current <= final(self).current
                <= old(self).target,
            old(self).current >= old(self).target ==> old(self).target <= final(self).current
                <= old(self).current,
            dt_ms >= 100 ==> final(self).current == old(self).target,
    {
        let f: u64 = if dt_ms >= 100 {
            1000
        } else {
            10 * dt_ms
        };
        proof {
            assert(f == spec_rate(dt_ms as int));
        }
        if self.target >= self.current {
            let gap: u64 = (self.target - self.current) as u64;
            proof {
                assert(gap * f <= 2_000_000_000 * 1000) by (nonlinear_arith)
                    requires gap <= 2_000_000_000 && f <= 1000;
            }
            let step: u64 = gap * f / 1000;
            proof {
                lemma_mul_inequality(f as int, 1000, gap as int);
                assert(gap * f == f * gap) by (nonlinear_arith);
                assert(gap * 1000 == 1000 * gap) by (nonlinear_arith);
                lemma_div_is_ordered(gap * f, gap * 1000, 1000);
                assert(gap * 1000 / 1000 == gap);
                assert(step <= gap);
                if f > 0 && gap > 0 {
                    lemma_div_pos_is_pos(gap * f, 1000);
                }
                assert(div_trunc((self.target - self.current) * (f as int), 1000)
                    == (gap * f / 1000) as int);
            }
            self.current = self.current + (step as i64);
        } else {
            let gap: u64 = (self.current - self.target) as u64;
            proof {
                assert(gap * f <= 2_000_000_000 * 1000) by (nonlinear_arith)
                    requires gap <= 2_000_000_000 && f <= 1000;
            }
            let step: u64 = gap * f / 1000;
            proof {
                lemma_mul_inequality(f as int, 1000, gap as int);
                assert(gap * f == f * gap) by (nonlinear_arith);
                assert(gap * 1000 == 1000 * gap) by (nonlinear_arith);
                lemma_div_is_ordered(gap * f, gap * 1000, 1000);
                assert(gap * 1000 / 1000 == gap);
                assert(step <= gap);
                assert((gap as int) * (f as int) == -((self.target - self.current) * (f as int)))
                    by (nonlinear_arith)
                    requires gap == self.current - self.target;
                assert(div_trunc((self.target - self.current) * (f as int), 1000)
                    == -((gap * f / 1000) as int));
            }
            self.current = self.current - (step as i64);
        }
        proof {
            if dt_ms >= 100 {
                assert(final(self).current == old(self).target);
            }
        }
    }
}

} // verus!
