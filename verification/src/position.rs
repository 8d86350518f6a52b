//! Receiver positions in the Earth-centred, Earth-fixed frame, and the
//! straight-line distance between two of them.
//!
//! Coordinates are whole millimetres, so that every statement about them is
//! exact.

use vstd::prelude::*;

verus! {

/// Largest magnitude a coordinate may have for distances to be computable
/// in 128-bit arithmetic: 2^62 millimetres.
pub const COORDINATE_LIMIT: i64 = 0x4000_0000_0000_0000;

/// Distances strictly above this many millimetres are reported in kilometres.
pub const KILOMETRE_THRESHOLD_MM: u64 = 1_000_000;

/// A position in the Earth-centred, Earth-fixed frame, in millimetres.
#[derive(Clone, Copy, Debug, PartialEq, Eq, Structural)]
pub struct GeodeticPosition {
    pub x_mm: i64,
    pub y_mm: i64,
    pub z_mm: i64,
}

/// Unit in which a distance is shown.
#[derive(Clone, Copy, Debug, PartialEq, Eq, Structural)]
pub enum LengthUnit {
    Metres,
    Kilometres,
}

/// `|a - b|` as a mathematical integer.
pub open spec fn gap(a: i64, b: i64) -> nat {
    if a >= b {
        (a - b) as nat
    } else {
        (b - a) as nat
    }
}

/// Squared Euclidean distance between two positions, in square millimetres.
pub open spec fn squared_distance(a: GeodeticPosition, b: GeodeticPosition) -> nat {
    gap(a.x_mm, b.x_mm) * gap(a.x_mm, b.x_mm) + gap(a.y_mm, b.y_mm) * gap(a.y_mm, b.y_mm) + gap(
        a.z_mm,
        b.z_mm,
    ) * gap(a.z_mm, b.z_mm)
}

/// `r` is the integer part of the square root of `n`.
pub open spec fn is_floor_sqrt(n: nat, r: nat) -> bool {
    r * r <= n && n < (r + 1) * (r + 1)
}

/// The integer part of the square root is unique.
pub proof fn lemma_floor_sqrt_unique(n: nat, r: nat, s: nat)
    requires
        is_floor_sqrt(n, r),
        is_floor_sqrt(n, s),
    ensures
        r == s,
{
    if r < s {
        assert((r + 1) * (r + 1) <= s * s) by (nonlinear_arith)
            requires
                r + 1 <= s,
        ;
    } else if s < r {
        assert((s + 1) * (s + 1) <= r * r) by (nonlinear_arith)
            requires
                s + 1 <= r,
        ;
    }
}

/// Integer part of the square root of `n`.
pub fn floor_sqrt(n: u128) -> (r: u64)
    ensures
        is_floor_sqrt(n as nat, r as nat),
{
    let mut lo: u128 = 0;
    let mut hi: u128 = 0x1_0000_0000_0000_0000;
    assert(n < hi * hi) by (nonlinear_arith)
        requires
            hi == 0x1_0000_0000_0000_0000u128,
            n <= u128::MAX,
    ;
    while hi - lo > 1
        invariant
            lo < hi <= 0x1_0000_0000_0000_0000u128,
            lo * lo <= n,
            n < hi * hi,
        decreases hi - lo,
    {
        let mid: u128 = lo + (hi - lo) / 2;
        assert(mid * mid <= 0xffff_ffff_ffff_ffffu128 * 0xffff_ffff_ffff_ffffu128)
            by (nonlinear_arith)
            requires
                mid <= 0xffff_ffff_ffff_ffffu128,
        ;
        if mid * mid <= n {
            lo = mid;
        } else {
            hi = mid;
        }
    }
    let r: u64 = lo as u64;
    r
}

impl GeodeticPosition {
    /// Every coordinate lies within `COORDINATE_LIMIT` of the origin.
    pub open spec fn in_range(self) -> bool {
        &&& -COORDINATE_LIMIT <= self.x_mm <= COORDINATE_LIMIT
        &&& -COORDINATE_LIMIT <= self.y_mm <= COORDINATE_LIMIT
        &&& -COORDINATE_LIMIT <= self.z_mm <= COORDINATE_LIMIT
    }

    /// The position with the given coordinates, if each lies within
    /// `COORDINATE_LIMIT` of the origin.
    pub fn new(x_mm: i64, y_mm: i64, z_mm: i64) -> (p: Option<GeodeticPosition>)
        ensures
            p == if (GeodeticPosition { x_mm, y_mm, z_mm }).in_range() {
                Some(GeodeticPosition { x_mm, y_mm, z_mm })
            } else {
                None
            },
    {
        let p = GeodeticPosition { x_mm, y_mm, z_mm };
        if p.is_in_range() {
            Some(p)
        } else {
            None
        }
    }

    /// Whether every coordinate lies within `COORDINATE_LIMIT` of the origin.
    pub fn is_in_range(&self) -> (b: bool)
        ensures
            b == self.in_range(),
    {
        -COORDINATE_LIMIT <= self.x_mm && self.x_mm <= COORDINATE_LIMIT && -COORDINATE_LIMIT
            <= self.y_mm && self.y_mm <= COORDINATE_LIMIT && -COORDINATE_LIMIT <= self.z_mm
            && self.z_mm <= COORDINATE_LIMIT
    }

    /// Squared distance to `other`, in square millimetres.
    pub fn squared_distance_to(&self, other: &GeodeticPosition) -> (d: u128)
        requires
            self.in_range(),
            other.in_range(),
        ensures
            d == squared_distance(*self, *other),
    {
        let dx: u128 = axis_gap(self.x_mm, other.x_mm);
        let dy: u128 = axis_gap(self.y_mm, other.y_mm);
        let dz: u128 = axis_gap(self.z_mm, other.z_mm);
        assert(dx * dx <= 0x8000_0000_0000_0000u128 * 0x8000_0000_0000_0000u128)
            by (nonlinear_arith)
            requires
                dx <= 0x8000_0000_0000_0000u128,
        ;
        assert(dy * dy <= 0x8000_0000_0000_0000u128 * 0x8000_0000_0000_0000u128)
            by (nonlinear_arith)
            requires
                dy <= 0x8000_0000_0000_0000u128,
        ;
        assert(dz * dz <= 0x8000_0000_0000_0000u128 * 0x8000_0000_0000_0000u128)
            by (nonlinear_arith)
            requires
                dz <= 0x8000_0000_0000_0000u128,
        ;
        dx * dx + dy * dy + dz * dz
    }

    /// Straight-line distance to `other` in millimetres, rounded down.
    pub fn baseline_to(&self, other: &GeodeticPosition) -> (d: u64)
        requires
            self.in_range(),
            other.in_range(),
        ensures
            is_floor_sqrt(squared_distance(*self, *other), d as nat),
    {
        floor_sqrt(self.squared_distance_to(other))
    }
}

/// `|a - b|` for two coordinates.
fn axis_gap(a: i64, b: i64) -> (g: u128)
    requires
        -COORDINATE_LIMIT <= a <= COORDINATE_LIMIT,
        -COORDINATE_LIMIT <= b <= COORDINATE_LIMIT,
    ensures
        g == gap(a, b),
        g <= 0x8000_0000_0000_0000u128,
{
    let wide_a: i128 = a as i128;
    let wide_b: i128 = b as i128;
    if wide_a >= wide_b {
        (wide_a - wide_b) as u128
    } else {
        (wide_b - wide_a) as u128
    }
}

/// Unit in which a baseline of `baseline_mm` millimetres is shown:
/// kilometres strictly above one kilometre, metres otherwise.
pub fn display_unit(baseline_mm: u64) -> (u: LengthUnit)
    ensures
        u == if baseline_mm > KILOMETRE_THRESHOLD_MM {
            LengthUnit::Kilometres
        } else {
            LengthUnit::Metres
        },
{
    if baseline_mm > KILOMETRE_THRESHOLD_MM {
        LengthUnit::Kilometres
    } else {
        LengthUnit::Metres
    }
}

} // verus!
