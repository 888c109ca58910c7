//! Signed fixed-point scalars used for all world-space coordinates.

use vstd::prelude::*;

verus! {

/// Number of fractional bits in a world-space coordinate.
pub const FRAC_BITS: u32 = 10;

/// One world unit in raw representation: 2^FRAC_BITS.
pub const FRAC_ONE: i32 = 1024;

/// Largest whole-unit magnitude that is safely representable:
/// 2^(32 - FRAC_BITS - 1). Coordinates kept within ±(UNIT_LIMIT - 1)
/// whole units leave headroom for exact addition and subtraction.
pub const UNIT_LIMIT: i32 = 2097152;

/// Integer part of `raw / FRAC_ONE`, rounded toward zero.
pub open spec fn spec_trunc(raw: int) -> int {
    if raw >= 0 {
        raw / (FRAC_ONE as int)
    } else {
        -((-raw) / (FRAC_ONE as int))
    }
}

/// A fixed-point rational: the represented value is `raw / FRAC_ONE`.
#[derive(Clone, Copy, PartialEq, Eq, Structural, Debug)]
pub struct FixedScalar {
    pub raw: i32,
}

impl FixedScalar {
    /// The fixed-point number with the given raw representation.
    pub fn from_raw(raw: i32) -> (s: FixedScalar)
        ensures
            s.raw == raw,
    {
        FixedScalar { raw }
    }

    /// The fixed-point number equal to `units` whole units.
    pub fn from_int(units: i32) -> (s: FixedScalar)
        requires
            -UNIT_LIMIT <= units < UNIT_LIMIT,
        ensures
            s.raw == units * FRAC_ONE,
    {
        FixedScalar { raw: units * FRAC_ONE }
    }

    /// Exact fixed-point addition.
    pub fn add(self, other: FixedScalar) -> (s: FixedScalar)
        requires
            i32::MIN <= self.raw + other.raw <= i32::MAX,
        ensures
            s.raw == self.raw + other.raw,
    {
        FixedScalar { raw: self.raw + other.raw }
    }

    /// Exact fixed-point subtraction.
    pub fn sub(self, other: FixedScalar) -> (s: FixedScalar)
        requires
            i32::MIN <= self.raw - other.raw <= i32::MAX,
        ensures
            s.raw == self.raw - other.raw,
    {
        FixedScalar { raw: self.raw - other.raw }
    }

    /// Exact multiplication by an integer scalar.
    pub fn scale(self, k: i32) -> (s: FixedScalar)
        requires
            i32::MIN <= self.raw * k <= i32::MAX,
        ensures
            s.raw == self.raw * k,
    {
        FixedScalar { raw: self.raw * k }
    }

    /// Integer part, rounded toward zero.
    pub fn trunc(self) -> (t: i32)
        ensures
            t == spec_trunc(self.raw as int),
            -UNIT_LIMIT <= t <= UNIT_LIMIT,
    {
        proof {
            lemma_trunc_in_unit_range(self.raw as int);
        }
        self.raw / FRAC_ONE
    }
}

/// Any `i32` raw value truncates to at most `UNIT_LIMIT` whole units in
/// magnitude.
pub proof fn lemma_trunc_in_unit_range(raw: int)
    requires
        i32::MIN <= raw <= i32::MAX,
    ensures
        -UNIT_LIMIT <= spec_trunc(raw) <= UNIT_LIMIT,
{
    if raw >= 0 {
        vstd::arithmetic::div_mod::lemma_fundamental_div_mod(raw, FRAC_ONE as int);
        vstd::arithmetic::div_mod::lemma_mod_bound(raw, FRAC_ONE as int);
        vstd::arithmetic::div_mod::lemma_div_pos_is_pos(raw, FRAC_ONE as int);
    } else {
        vstd::arithmetic::div_mod::lemma_fundamental_div_mod(-raw, FRAC_ONE as int);
        vstd::arithmetic::div_mod::lemma_mod_bound(-raw, FRAC_ONE as int);
        vstd::arithmetic::div_mod::lemma_div_pos_is_pos(-raw, FRAC_ONE as int);
    }
}

/// Truncation rounds toward zero: the result has the sign of the input,
/// and the input lies within one whole unit of the result, on the side
/// away from zero.
pub proof fn lemma_trunc_toward_zero(raw: int)
    ensures
        raw >= 0 ==> spec_trunc(raw) >= 0 && FRAC_ONE * spec_trunc(raw) <= raw
            < FRAC_ONE * (spec_trunc(raw) + 1),
        raw <= 0 ==> spec_trunc(raw) <= 0 && FRAC_ONE * (spec_trunc(raw) - 1) < raw
            <= FRAC_ONE * spec_trunc(raw),
{
    if raw >= 0 {
        vstd::arithmetic::div_mod::lemma_fundamental_div_mod(raw, FRAC_ONE as int);
        vstd::arithmetic::div_mod::lemma_mod_bound(raw, FRAC_ONE as int);
        vstd::arithmetic::div_mod::lemma_div_pos_is_pos(raw, FRAC_ONE as int);
    } else {
        vstd::arithmetic::div_mod::lemma_fundamental_div_mod(-raw, FRAC_ONE as int);
        vstd::arithmetic::div_mod::lemma_mod_bound(-raw, FRAC_ONE as int);
        vstd::arithmetic::div_mod::lemma_div_pos_is_pos(-raw, FRAC_ONE as int);
    }
}

} // verus!
