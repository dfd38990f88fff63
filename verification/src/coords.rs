use vstd::prelude::*;

verus! {

/// A normalized map coordinate, held exactly as the non-negative rational
/// `num / den` with `den > 0`. The interactive layer folds every coordinate
/// into `[0, 1)` before it reaches the sampling pipeline; values at or above
/// one are still representable so that out-of-range lookups can be answered
/// with the sentinel color rather than rejected.
#[derive(Clone, Copy)]
pub struct Frac {
    pub num: u64,
    pub den: u64,
}

impl Frac {
    /// The denominator is never zero.
    pub open spec fn wf(self) -> bool {
        self.den > 0
    }

    /// The value lies in the unit interval `[0, 1)`.
    pub open spec fn is_unit(self) -> bool {
        self.num < self.den
    }

    /// `floor(self * scale)`: the pixel index selected by this coordinate on
    /// an axis of `scale` pixels.
    pub open spec fn spec_scaled(self, scale: int) -> int {
        (self.num * scale) / (self.den as int)
    }

    pub fn new(num: u64, den: u64) -> (r: Self)
        requires
            den > 0,
        ensures
            r == (Frac { num, den }),
    {
        Frac { num, den }
    }

    /// Whether the coordinate lies in `[0, 1)`.
    pub fn in_unit(&self) -> (r: bool)
        ensures
            r == self.is_unit(),
    {
        self.num < self.den
    }

    /// Scale by a pixel count and truncate, exactly as a normalized
    /// coordinate is turned into a pixel index.
    pub fn scale_trunc(&self, scale: u32) -> (r: usize)
        requires
            self.wf(),
            self.is_unit(),
        ensures
            r == self.spec_scaled(scale as int),
            r <= scale,
            scale > 0 ==> r < scale,
    {
        proof {
            assert((self.num as int) * (scale as int) <= (u64::MAX as int) * (u32::MAX as int))
                by (nonlinear_arith)
                requires
                    self.num <= u64::MAX,
                    scale <= u32::MAX,
            ;
        }
        let wide: u128 = (self.num as u128) * (scale as u128) / (self.den as u128);
        proof {
            let n: int = self.num as int;
            let d: int = self.den as int;
            let s: int = scale as int;
            assert((n * s) / d < s || ((n * s) / d == 0 && s == 0)) by (nonlinear_arith)
                requires
                    0 <= n < d,
                    0 <= s,
            ;
        }
        wide as usize
    }
}

} // verus!
