//! Fixed-point vector math.
//!
//! World positions and directions are integer vectors in milli-units
//! (1000 = one world unit). Every coordinate the core works with stays within
//! [`COORD_LIMIT`], which keeps squared distances inside `i64`.

use vstd::prelude::*;
use vstd::arithmetic::mul::*;

verus! {

/// Largest coordinate magnitude the core accepts, in milli-units.
pub const COORD_LIMIT: i64 = 100_000_000;

/// Largest simulated-clock reading the core accepts, in milliseconds.
pub const TIME_LIMIT: i64 = 1_000_000_000_000;

/// A position or direction in milli-units.
#[derive(Clone, Copy, Debug, PartialEq, Eq, Structural)]
pub struct Vec3 {
    pub x: i64,
    pub y: i64,
    pub z: i64,
}

pub open spec fn sq(v: int) -> int {
    v * v
}

/// All coordinates within the world bound.
pub open spec fn in_world(v: Vec3) -> bool {
    -COORD_LIMIT <= v.x <= COORD_LIMIT
        && -COORD_LIMIT <= v.y <= COORD_LIMIT
        && -COORD_LIMIT <= v.z <= COORD_LIMIT
}

/// All coordinates within twice the world bound — what a difference of two
/// in-world points can span.
pub open spec fn in_span(v: Vec3) -> bool {
    -2 * COORD_LIMIT <= v.x <= 2 * COORD_LIMIT
        && -2 * COORD_LIMIT <= v.y <= 2 * COORD_LIMIT
        && -2 * COORD_LIMIT <= v.z <= 2 * COORD_LIMIT
}

/// Squared distance between two points, in squared milli-units.
pub open spec fn spec_sqr_dist(a: Vec3, b: Vec3) -> int {
    sq(a.x - b.x) + sq(a.y - b.y) + sq(a.z - b.z)
}

/// Squared length of a vector.
pub open spec fn spec_sqr_len(v: Vec3) -> int {
    spec_sqr_dist(v, Vec3 { x: 0, y: 0, z: 0 })
}

/// Floor of the square root of a natural number.
pub open spec fn sqrt_floor(n: nat) -> nat
    decreases n,
{
    if n == 0 {
        0
    } else {
        let r = sqrt_floor((n - 1) as nat);
        if (r + 1) * (r + 1) <= n {
            r + 1
        } else {
            r
        }
    }
}

/// `sqrt_floor` is the unique natural `r` with `r * r <= n < (r + 1) * (r + 1)`.
pub proof fn lemma_sqrt_floor(n: nat)
    ensures
        sqrt_floor(n) * sqrt_floor(n) <= n,
        n < (sqrt_floor(n) + 1) * (sqrt_floor(n) + 1),
    decreases n,
{
    if n == 0 {
        assert(sqrt_floor(n) == 0);
        assert((sqrt_floor(n) + 1) * (sqrt_floor(n) + 1) == 1) by (nonlinear_arith)
            requires sqrt_floor(n) == 0;
    } else {
        lemma_sqrt_floor((n - 1) as nat);
        let r = sqrt_floor((n - 1) as nat);
        assert(r * r <= n - 1 && n - 1 < (r + 1) * (r + 1));
        if (r + 1) * (r + 1) <= n {
            assert(sqrt_floor(n) == r + 1);
            assert(n <= (r + 1) * (r + 1));
            assert(n < ((r + 1) + 1) * ((r + 1) + 1)) by (nonlinear_arith)
                requires
                    0 <= r,
                    n <= (r + 1) * (r + 1);
        } else {
            assert(sqrt_floor(n) == r);
            assert(n < (sqrt_floor(n) + 1) * (sqrt_floor(n) + 1));
        }
    }
}

/// Squaring is monotone on naturals, so the square-root characterization
/// pins the root down.
pub proof fn lemma_sqrt_unique(n: nat, r: nat)
    requires
        r * r <= n,
        n < (r + 1) * (r + 1),
    ensures
        r == sqrt_floor(n),
{
    let s = sqrt_floor(n);
    lemma_sqrt_floor(n);
    if r < s {
        lemma_mul_le_upper(r + 1, s);
        assert(false);
    }
    if s < r {
        lemma_mul_le_upper(s + 1, r);
        assert(false);
    }
}

/// `a <= b` implies `a * a <= b * b` for naturals.
proof fn lemma_mul_le_upper(a: nat, b: nat)
    requires
        a <= b,
    ensures
        a * a <= b * b,
{
    lemma_mul_upper_bound(a as int, b as int, a as int, b as int);
}

impl Vec3 {
    /// The zero vector.
    pub fn zero() -> (r: Vec3)
        ensures
            r == (Vec3 { x: 0, y: 0, z: 0 }),
    {
        Vec3 { x: 0, y: 0, z: 0 }
    }

    /// Component-wise difference.
    pub fn sub(self, other: Vec3) -> (r: Vec3)
        requires
            in_world(self),
            in_world(other),
        ensures
            r.x == self.x - other.x,
            r.y == self.y - other.y,
            r.z == self.z - other.z,
    {
        Vec3 { x: self.x - other.x, y: self.y - other.y, z: self.z - other.z }
    }

    /// Component-wise sum.
    pub fn add(self, other: Vec3) -> (r: Vec3)
        requires
            in_world(self),
            in_world(other),
        ensures
            r.x == self.x + other.x,
            r.y == self.y + other.y,
            r.z == self.z + other.z,
    {
        Vec3 { x: self.x + other.x, y: self.y + other.y, z: self.z + other.z }
    }
}

/// Squared distance between two points within span bounds.
pub fn sqr_dist(a: Vec3, b: Vec3) -> (r: i64)
    requires
        in_span(a),
        in_span(b),
    ensures
        r == spec_sqr_dist(a, b),
        0 <= r <= 480_000_000_000_000_000,
{
    proof {
        lemma_sq_bound(a.x - b.x);
        lemma_sq_bound(a.y - b.y);
        lemma_sq_bound(a.z - b.z);
    }
    let dx = a.x - b.x;
    let dy = a.y - b.y;
    let dz = a.z - b.z;
    dx * dx + dy * dy + dz * dz
}

/// A coordinate difference of two in-span points squares to at most
/// `(4 * COORD_LIMIT)^2`, and every square is non-negative.
proof fn lemma_sq_bound(d: int)
    requires
        -4 * COORD_LIMIT <= d <= 4 * COORD_LIMIT,
    ensures
        0 <= sq(d) <= 160_000_000_000_000_000,
{
    assert(0 <= d * d && d * d <= 160_000_000_000_000_000) by (nonlinear_arith)
        requires -400_000_000 <= d && d <= 400_000_000;
}

/// Floor of the integer square root, by binary search.
pub fn isqrt(n: u64) -> (r: u64)
    requires
        n < 0x4000_0000_0000_0000,
    ensures
        r == sqrt_floor(n as nat),
        r * r <= n < (r + 1) * (r + 1),
{
    let mut lo: u64 = 0;
    let mut hi: u64 = 0x7FFF_FFFF;
    while lo < hi
        invariant
            lo <= hi <= 0x7FFF_FFFF,
            lo * lo <= n,
            n < (hi + 1) * (hi + 1),
        decreases hi - lo,
    {
        let mid = lo + (hi - lo + 1) / 2;
        proof {
            assert(mid * mid < 0x4000_0000_0000_0000) by (nonlinear_arith)
                requires 0 <= mid <= 0x7FFF_FFFF;
        }
        if mid * mid <= n {
            lo = mid;
        } else {
            hi = mid - 1;
        }
    }
    proof {
        lemma_sqrt_unique(n as nat, lo as nat);
    }
    lo
}

/// Truncating scaled division with the sign carried separately:
/// `|v| * num / den`, negated when `v` is negative.
pub open spec fn spec_scale_div(v: int, num: int, den: int) -> int {
    if v >= 0 {
        v * num / den
    } else {
        -((-v) * num / den)
    }
}

/// Computes `spec_scale_div` on machine integers.
pub fn scale_div(v: i64, num: u64, den: u64) -> (r: i64)
    requires
        0 < den,
        -0x100_0000_0000 <= v <= 0x100_0000_0000,
        num <= 0x10_0000,
    ensures
        r == spec_scale_div(v as int, num as int, den as int),
{
    proof {
        let a: int = if v >= 0 { v as int } else { -v as int };
        lemma_mul_upper_bound(a, 0x100_0000_0000, num as int, 0x10_0000);
        lemma_mul_nonnegative(a, num as int);
        vstd::arithmetic::div_mod::lemma_div_nonincreasing(a * num, den as int);
        vstd::arithmetic::div_mod::lemma_div_pos_is_pos(a * num, den as int);
    }
    if v >= 0 {
        let m: u64 = (v as u64) * num;
        (m / den) as i64
    } else {
        let m: u64 = ((-v) as u64) * num;
        -((m / den) as i64)
    }
}

/// The magnitude of `spec_scale_div` never exceeds `|v| * num / den` bounds:
/// if `|v| <= den` then `|spec_scale_div(v, num, den)| <= num`.
pub proof fn lemma_scale_div_bound(v: int, num: int, den: int)
    requires
        0 < den,
        0 <= num,
        -den <= v <= den,
    ensures
        -num <= spec_scale_div(v, num, den) <= num,
{
    if v >= 0 {
        lemma_mul_inequality(v, den, num);
        vstd::arithmetic::div_mod::lemma_div_multiples_vanish(num, den);
        vstd::arithmetic::div_mod::lemma_div_is_ordered(v * num, den * num, den);
        vstd::arithmetic::div_mod::lemma_div_pos_is_pos(v * num, den);
        lemma_mul_nonnegative(v, num);
    } else {
        lemma_mul_inequality(-v, den, num);
        vstd::arithmetic::div_mod::lemma_div_multiples_vanish(num, den);
        vstd::arithmetic::div_mod::lemma_div_is_ordered(-v * num, den * num, den);
        vstd::arithmetic::div_mod::lemma_div_pos_is_pos(-v * num, den);
        lemma_mul_nonnegative(-v, num);
    }
}

/// Scaling by `num / den` with `num <= den` moves a value toward zero:
/// the result lies between zero and `v`.
pub proof fn lemma_scale_div_shrinks(v: int, num: int, den: int)
    requires
        0 < den,
        0 <= num <= den,
    ensures
        v >= 0 ==> 0 <= spec_scale_div(v, num, den) <= v,
        v < 0 ==> v <= spec_scale_div(v, num, den) <= 0,
{
    if v >= 0 {
        lemma_mul_inequality(num, den, v);
        assert(num * v == v * num && den * v == v * den) by (nonlinear_arith);
        vstd::arithmetic::div_mod::lemma_div_multiples_vanish(v, den);
        vstd::arithmetic::div_mod::lemma_div_is_ordered(v * num, den * v, den);
        vstd::arithmetic::div_mod::lemma_div_pos_is_pos(v * num, den);
        lemma_mul_nonnegative(v, num);
    } else {
        lemma_mul_inequality(num, den, -v);
        assert(num * (-v) == (-v) * num && den * (-v) == (-v) * den) by (nonlinear_arith);
        vstd::arithmetic::div_mod::lemma_div_multiples_vanish(-v, den);
        vstd::arithmetic::div_mod::lemma_div_is_ordered((-v) * num, den * (-v), den);
        vstd::arithmetic::div_mod::lemma_div_pos_is_pos((-v) * num, den);
        lemma_mul_nonnegative(-v, num);
    }
}

/// The milli-normalized form of a non-zero vector: each component scaled by
/// `1000 / |v|`, so the result has length close to 1000 milli-units.
pub open spec fn spec_normalize_milli(v: Vec3) -> Vec3 {
    let len = sqrt_floor(spec_sqr_len(v) as nat) as int;
    Vec3 {
        x: spec_scale_div(v.x as int, 1000, len) as i64,
        y: spec_scale_div(v.y as int, 1000, len) as i64,
        z: spec_scale_div(v.z as int, 1000, len) as i64,
    }
}

/// Milli-normalizes `v`: `None` exactly when `v` is the zero vector
/// (the stationary case), otherwise the direction of `v` with length
/// about 1000 milli-units and every component in [-1000, 1000].
pub fn normalize_milli(v: Vec3) -> (r: Option<Vec3>)
    requires
        in_span(v),
    ensures
        r is None <==> spec_sqr_len(v) == 0,
        r matches Some(d) ==> d == spec_normalize_milli(v) && norm_bounded(d),
{
    let n = sqr_dist(v, Vec3::zero());
    if n == 0 {
        None
    } else {
        let len = isqrt(n as u64);
        proof {
            assert(sq(v.x as int) >= 0 && sq(v.y as int) >= 0 && sq(v.z as int) >= 0)
                by (nonlinear_arith);
            lemma_component_le_root(v.x as int, n as int, len as int);
            lemma_component_le_root(v.y as int, n as int, len as int);
            lemma_component_le_root(v.z as int, n as int, len as int);
            lemma_scale_div_bound(v.x as int, 1000, len as int);
            lemma_scale_div_bound(v.y as int, 1000, len as int);
            lemma_scale_div_bound(v.z as int, 1000, len as int);
        }
        Some(Vec3 {
            x: scale_div(v.x, 1000, len),
            y: scale_div(v.y, 1000, len),
            z: scale_div(v.z, 1000, len),
        })
    }
}

/// Every component within [-1000, 1000] milli-units.
pub open spec fn norm_bounded(d: Vec3) -> bool {
    -1000 <= d.x <= 1000 && -1000 <= d.y <= 1000 && -1000 <= d.z <= 1000
}

/// If `v*v` is one term of a sum of squares equal to `n` and
/// `len = sqrt_floor(n)`, then `|v| <= len`.
proof fn lemma_component_le_root(v: int, n: int, len: int)
    requires
        0 <= len,
        sq(v) <= n,
        n < (len + 1) * (len + 1),
    ensures
        -len <= v <= len,
{
    assert(-len <= v && v <= len) by (nonlinear_arith)
        requires
            0 <= len,
            v * v <= n,
            n < (len + 1) * (len + 1);
}

} // verus!
