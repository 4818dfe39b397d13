use vstd::prelude::*;

verus! {

/// Number of raw units that make up one whole unit in the fixed-point scale.
pub const FIXED_ONE: u32 = 256;

/// A non-negative binary fixed-point scalar with 8 fractional bits:
/// `raw` counts 1/256ths of a unit, so `raw == 256` stands for 1.0 and
/// `raw == 2176` stands for 8.5.
///
/// The engine uses this representation for every fractional quantity:
/// blend factors in [0, 1] (`raw <= 256`), per-frame decay magnitudes,
/// hue angles in degrees, and frame rates in frames per second.
#[derive(Clone, Copy, PartialEq, Eq, Structural, Debug)]
pub struct Fixed {
    /// The scaled value, in 1/256ths of a unit.
    pub raw: u32,
}

impl Fixed {
    /// The scalar 0.
    pub fn zero() -> (r: Fixed)
        ensures
            r.raw == 0,
    {
        Fixed { raw: 0 }
    }

    /// The scalar 1, the full-strength value for a blend factor.
    pub fn one() -> (r: Fixed)
        ensures
            r.raw == FIXED_ONE,
    {
        Fixed { raw: 256 }
    }

    /// The scalar `n`, for whole-unit quantities such as integer frame rates.
    pub fn whole(n: u32) -> (r: Fixed)
        requires
            n * 256 <= u32::MAX,
        ensures
            r.raw == n * 256,
    {
        Fixed { raw: n * 256 }
    }

    /// True when the scalar lies in [0, 1], the valid range for a blend
    /// factor, an opacity, or a sensitivity percentage.
    pub open spec fn is_unit_interval(self) -> bool {
        self.raw <= 256
    }
}

} // verus!
