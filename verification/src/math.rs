use vstd::prelude::*;

verus! {

/// Number of fixed-point units per 1.0.
///
/// Spatial quantities (positions, offsets, axis values, time deltas) use
/// signed 16.16 fixed-point integers, so that all arithmetic on them is exact
/// and checked. The host converts floating-point quantities at the boundary.
pub const FP_ONE: i64 = 65536;

/// Largest magnitude accepted by the clamped fixed-point operations below.
pub const FP_RANGE: i64 = 0x4000_0000;

/// `x` clamped into `[-FP_RANGE, FP_RANGE]`.
pub open spec fn spec_clamp_fp(x: int) -> int {
    if x > FP_RANGE {
        FP_RANGE as int
    } else if x < -FP_RANGE {
        -FP_RANGE as int
    } else {
        x
    }
}

/// `x + y` saturated at the `i64` range.
pub open spec fn spec_sat_add(x: int, y: int) -> int {
    if x + y > i64::MAX {
        i64::MAX as int
    } else if x + y < i64::MIN {
        i64::MIN as int
    } else {
        x + y
    }
}

/// The fixed-point product of the clamped operands: both are first brought
/// into `[-FP_RANGE, FP_RANGE]`, then multiplied and rescaled by `FP_ONE`,
/// truncating toward zero.
pub open spec fn spec_mul_fp(x: int, y: int) -> int {
    let p = spec_clamp_fp(x) * spec_clamp_fp(y);
    if p >= 0 {
        p / (FP_ONE as int)
    } else {
        -((-p) / (FP_ONE as int))
    }
}

/// Clamps a fixed-point value into the range accepted by [`mul_fp`].
pub fn clamp_fp(x: i64) -> (r: i64)
    ensures
        r == spec_clamp_fp(x as int),
{
    if x > FP_RANGE {
        FP_RANGE
    } else if x < -FP_RANGE {
        -FP_RANGE
    } else {
        x
    }
}

/// Saturating addition of two fixed-point values.
pub fn sat_add(x: i64, y: i64) -> (r: i64)
    ensures
        r == spec_sat_add(x as int, y as int),
{
    let s: i128 = x as i128 + y as i128;
    if s > i64::MAX as i128 {
        i64::MAX
    } else if s < i64::MIN as i128 {
        i64::MIN
    } else {
        s as i64
    }
}

/// Fixed-point multiplication with clamped operands (total: no overflow is
/// possible after clamping).
pub fn mul_fp(x: i64, y: i64) -> (r: i64)
    ensures
        r == spec_mul_fp(x as int, y as int),
{
    let a = clamp_fp(x);
    let b = clamp_fp(y);
    let negative = (a < 0) != (b < 0);
    let ma: u64 = if a < 0 {
        (-a) as u64
    } else {
        a as u64
    };
    let mb: u64 = if b < 0 {
        (-b) as u64
    } else {
        b as u64
    };
    proof {
        assert(ma * mb <= 0x4000_0000 * 0x4000_0000) by (nonlinear_arith)
            requires
                ma <= 0x4000_0000,
                mb <= 0x4000_0000,
        ;
        if negative {
            assert((a as int) * (b as int) == -((ma as int) * (mb as int))) by (nonlinear_arith)
                requires
                    ma == if a < 0 { -(a as int) } else { a as int },
                    mb == if b < 0 { -(b as int) } else { b as int },
                    (a < 0) != (b < 0),
            ;
        } else {
            assert((a as int) * (b as int) == (ma as int) * (mb as int)) by (nonlinear_arith)
                requires
                    ma == if a < 0 { -(a as int) } else { a as int },
                    mb == if b < 0 { -(b as int) } else { b as int },
                    (a < 0) == (b < 0),
            ;
        }
    }
    let q: u64 = (ma * mb) / (FP_ONE as u64);
    if negative {
        -(q as i64)
    } else {
        q as i64
    }
}

/// A three-component fixed-point vector.
#[derive(Clone, Copy, Debug, PartialEq, Eq, Structural)]
pub struct Vec3 {
    pub x: i64,
    pub y: i64,
    pub z: i64,
}

/// A two-component fixed-point vector.
#[derive(Clone, Copy, Debug, PartialEq, Eq, Structural)]
pub struct Vec2 {
    pub x: i64,
    pub y: i64,
}

/// One mesh vertex: a position and a texture coordinate.
#[derive(Clone, Copy, Debug, PartialEq, Eq, Structural)]
pub struct Vertex {
    pub position_coordinates: Vec3,
    pub texture_coordinates: Vec2,
}

/// Component-wise saturating vector addition.
pub open spec fn spec_vec3_add(a: Vec3, b: Vec3) -> Vec3 {
    Vec3 {
        x: spec_sat_add(a.x as int, b.x as int) as i64,
        y: spec_sat_add(a.y as int, b.y as int) as i64,
        z: spec_sat_add(a.z as int, b.z as int) as i64,
    }
}

impl Vec3 {
    /// The origin vector.
    pub fn zero() -> (v: Vec3)
        ensures
            v == (Vec3 { x: 0, y: 0, z: 0 }),
    {
        Vec3 { x: 0, y: 0, z: 0 }
    }

    /// Component-wise saturating addition.
    pub fn add_sat(self, other: Vec3) -> (r: Vec3)
        ensures
            r == spec_vec3_add(self, other),
    {
        Vec3 {
            x: sat_add(self.x, other.x),
            y: sat_add(self.y, other.y),
            z: sat_add(self.z, other.z),
        }
    }
}

} // verus!
