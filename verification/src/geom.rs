//! Fixed-point plane geometry.
//!
//! Positions and offsets are integer vectors measured in milli-pixels.
//! Unit-length directions are carried at a fixed scale of `DIR_SCALE`
//! per unit, so normalising and scaling stay in integer arithmetic.
use vstd::prelude::*;

verus! {

/// Fixed-point scale of a unit direction vector: a vector of length one
/// pixel-unit is stored with magnitude `DIR_SCALE`.
pub const DIR_SCALE: i64 = 1000;

/// Half-width of the playable coordinate range, in milli-pixels. Keeping
/// every position inside this box keeps all squared lengths inside `u64`.
pub const COORD_LIMIT: i64 = 1_000_000_000;

/// A plane vector in milli-pixels (or, for directions, in `DIR_SCALE`ths).
#[derive(Clone, Copy, Debug, PartialEq, Eq, Structural)]
pub struct Vec2 {
    pub x: i64,
    pub y: i64,
}

/// The zero vector.
pub open spec fn spec_zero() -> Vec2 {
    Vec2 { x: 0, y: 0 }
}

/// Squared Euclidean length, as a mathematical integer.
pub open spec fn norm2(v: Vec2) -> int {
    v.x * v.x + v.y * v.y
}

/// Both coordinates lie inside the playable box.
pub open spec fn in_world(v: Vec2) -> bool {
    -COORD_LIMIT <= v.x <= COORD_LIMIT && -COORD_LIMIT <= v.y <= COORD_LIMIT
}

/// `a` scaled by the ratio `num / den`, rounding toward zero.
pub open spec fn scaled_toward_zero(a: int, num: int, den: int) -> int {
    if a >= 0 {
        (a * num) / den
    } else {
        -(((-a) * num) / den)
    }
}

/// Floor of the square root of a natural number.
pub open spec fn sqrt_floor(n: nat) -> nat
    decreases n,
{
    if n == 0 {
        0
    } else {
        let s = sqrt_floor((n - 1) as nat);
        if (s + 1) * (s + 1) <= n {
            s + 1
        } else {
            s
        }
    }
}

/// Whether `r` is the floor of the square root of `n`.
pub open spec fn is_sqrt_floor(n: int, r: int) -> bool {
    &&& 0 <= r
    &&& r * r <= n
    &&& (r + 1) * (r + 1) > n
}

/// `sqrt_floor` really is the floor of the square root.
pub proof fn lemma_sqrt_floor(n: nat)
    ensures
        is_sqrt_floor(n as int, sqrt_floor(n) as int),
    decreases n,
{
    let r = sqrt_floor(n) as int;
    if n == 0 {
        assert(sqrt_floor(0) == 0);
        assert(is_sqrt_floor(0, 0)) by (nonlinear_arith);
    } else {
        lemma_sqrt_floor((n - 1) as nat);
        let s = sqrt_floor((n - 1) as nat) as int;
        assert(sqrt_floor(n) == if (sqrt_floor((n - 1) as nat) + 1) * (sqrt_floor((n - 1) as nat)
            + 1) <= n {
            sqrt_floor((n - 1) as nat) + 1
        } else {
            sqrt_floor((n - 1) as nat)
        });
        assert(is_sqrt_floor(n - 1, s));
        if (s + 1) * (s + 1) <= n {
            assert(r == s + 1);
            assert(is_sqrt_floor(n as int, s + 1)) by (nonlinear_arith)
                requires
                    is_sqrt_floor(n - 1, s),
                    (s + 1) * (s + 1) <= n,
            ;
        } else {
            assert(r == s);
            assert(is_sqrt_floor(n as int, s)) by (nonlinear_arith)
                requires
                    is_sqrt_floor(n - 1, s),
                    (s + 1) * (s + 1) > n,
            ;
        }
    }
}

/// Any two integers that bracket the same square agree: the floor of a
/// square root is unique.
pub proof fn lemma_sqrt_floor_unique(n: int, a: int, b: int)
    requires
        is_sqrt_floor(n, a),
        is_sqrt_floor(n, b),
    ensures
        a == b,
{
    if a < b {
        assert((a + 1) * (a + 1) <= b * b) by (nonlinear_arith)
            requires 0 <= a && a + 1 <= b,
        ;
    }
    if b < a {
        assert((b + 1) * (b + 1) <= a * a) by (nonlinear_arith)
            requires 0 <= b && b + 1 <= a,
        ;
    }
}

/// A non-negative integer whose square is at most `n` is at most
/// `sqrt_floor(n)`.
pub proof fn lemma_sqrt_floor_dominates(n: nat, a: int)
    requires
        0 <= a,
        a * a <= n,
    ensures
        a <= sqrt_floor(n),
{
    lemma_sqrt_floor(n);
    if a > sqrt_floor(n) {
        assert((sqrt_floor(n) as int + 1) * (sqrt_floor(n) as int + 1) <= a * a)
            by (nonlinear_arith)
            requires sqrt_floor(n) as int + 1 <= a && sqrt_floor(n) >= 0,
        ;
    }
}

/// Floor of the square root of `n`, by binary search.
pub fn isqrt64(n: u64) -> (r: u64)
    ensures
        r == sqrt_floor(n as nat),
{
    let mut lo: u64 = 0;
    let mut hi: u64 = 0x1_0000_0000;
    proof {
        assert((0x1_0000_0000int) * (0x1_0000_0000int) > u64::MAX as int);
    }
    while lo + 1 < hi
        invariant
            lo < hi <= 0x1_0000_0000,
            (lo as int) * (lo as int) <= n as int,
            (hi as int) * (hi as int) > n as int,
        decreases hi - lo,
    {
        let mid = lo + (hi - lo) / 2;
        assert(lo < mid < hi);
        assert((mid as int) * (mid as int) <= u64::MAX as int) by (nonlinear_arith)
            requires mid < 0x1_0000_0000u64,
        ;
        if mid * mid <= n {
            lo = mid;
        } else {
            hi = mid;
        }
    }
    proof {
        lemma_sqrt_floor(n as nat);
        lemma_sqrt_floor_unique(n as int, lo as int, sqrt_floor(n as nat) as int);
    }
    lo
}

/// Magnitude of `a`, as a mathematical integer.
pub open spec fn abs1(a: int) -> int {
    if a >= 0 { a } else { -a }
}

/// `a * num / den`, rounding toward zero.
pub fn mul_div_toward_zero(a: i64, num: u64, den: u64) -> (r: i64)
    requires
        den > 0,
        a > i64::MIN,
        abs1(a as int) * num <= i64::MAX,
    ensures
        r == scaled_toward_zero(a as int, num as int, den as int),
        abs1(r as int) <= abs1(a as int) * num / den as int,
{
    let mag: u64 = if a >= 0 { a as u64 } else { (-a) as u64 };
    let scaled: u64 = (mag * num) / den;
    proof {
        assert(scaled <= mag * num) by (nonlinear_arith)
            requires den >= 1 && scaled == (mag as int) * (num as int) / (den as int) && mag * num >= 0,
        ;
    }
    if a >= 0 {
        scaled as i64
    } else {
        -(scaled as i64)
    }
}

/// Scaling a non-negative value by a fraction at most one never grows it.
pub proof fn lemma_mul_div_le(a: int, b: int, c: int)
    requires
        0 <= a,
        0 <= b <= c,
        0 < c,
    ensures
        0 <= (a * b) / c <= a,
{
    vstd::arithmetic::mul::lemma_mul_inequality(b, c, a);
    assert(b * a == a * b) by (nonlinear_arith);
    assert(c * a == a * c) by (nonlinear_arith);
    vstd::arithmetic::div_mod::lemma_div_is_ordered(a * b, a * c, c);
    vstd::arithmetic::div_mod::lemma_div_multiples_vanish(a, c);
    assert(c * a == a * c) by (nonlinear_arith);
    vstd::arithmetic::div_mod::lemma_div_pos_is_pos(a * b, c);
    assert(a * b >= 0) by (nonlinear_arith)
        requires 0 <= a && 0 <= b,
    ;
}

/// A value of smaller magnitude has a smaller square.
pub proof fn lemma_abs_square_le(a: int, b: int)
    requires
        abs1(a) <= abs1(b),
    ensures
        a * a <= b * b,
{
    assert(a * a <= b * b) by (nonlinear_arith)
        requires abs1(a) <= abs1(b),
    ;
}

/// The magnitude of each coordinate is bounded by the vector's length.
pub proof fn lemma_coord_le_length(v: Vec2)
    ensures
        abs1(v.x as int) <= sqrt_floor(norm2(v) as nat),
        abs1(v.y as int) <= sqrt_floor(norm2(v) as nat),
        norm2(v) >= 0,
{
    assert(v.x * v.x >= 0 && v.y * v.y >= 0) by (nonlinear_arith);
    assert(abs1(v.x as int) * abs1(v.x as int) <= norm2(v)) by (nonlinear_arith);
    assert(abs1(v.y as int) * abs1(v.y as int) <= norm2(v)) by (nonlinear_arith);
    lemma_sqrt_floor_dominates(norm2(v) as nat, abs1(v.x as int));
    lemma_sqrt_floor_dominates(norm2(v) as nat, abs1(v.y as int));
}

/// `v` normalised to a fixed-point unit vector of scale `DIR_SCALE`,
/// rounding each coordinate toward zero; the zero vector stays zero.
pub open spec fn spec_normalize(v: Vec2) -> Vec2 {
    if v == spec_zero() {
        v
    } else {
        let l = sqrt_floor(norm2(v) as nat) as int;
        Vec2 {
            x: scaled_toward_zero(v.x as int, DIR_SCALE as int, l) as i64,
            y: scaled_toward_zero(v.y as int, DIR_SCALE as int, l) as i64,
        }
    }
}

/// Squared Euclidean distance between two points.
pub open spec fn dist2(a: Vec2, b: Vec2) -> int {
    (a.x - b.x) * (a.x - b.x) + (a.y - b.y) * (a.y - b.y)
}

/// Squared distances are never negative.
pub proof fn lemma_dist2_nonneg(a: Vec2, b: Vec2)
    ensures
        dist2(a, b) >= 0,
{
    assert((a.x - b.x) * (a.x - b.x) >= 0) by (nonlinear_arith);
    assert((a.y - b.y) * (a.y - b.y) >= 0) by (nonlinear_arith);
}

impl Vec2 {
    /// True exactly when both coordinates are zero.
    pub fn is_zero(&self) -> (r: bool)
        ensures
            r == (*self == spec_zero()),
    {
        self.x == 0 && self.y == 0
    }

    /// Componentwise sum.
    pub fn add(self, o: Vec2) -> (r: Vec2)
        requires
            i64::MIN <= self.x + o.x <= i64::MAX,
            i64::MIN <= self.y + o.y <= i64::MAX,
        ensures
            r.x == self.x + o.x,
            r.y == self.y + o.y,
    {
        Vec2 { x: self.x + o.x, y: self.y + o.y }
    }

    /// Componentwise difference.
    pub fn sub(self, o: Vec2) -> (r: Vec2)
        requires
            i64::MIN <= self.x - o.x <= i64::MAX,
            i64::MIN <= self.y - o.y <= i64::MAX,
        ensures
            r.x == self.x - o.x,
            r.y == self.y - o.y,
    {
        Vec2 { x: self.x - o.x, y: self.y - o.y }
    }

    /// Componentwise product with a non-negative scalar.
    pub fn scale(self, k: i64) -> (r: Vec2)
        requires
            k >= 0,
            abs1(self.x as int) * k <= i64::MAX,
            abs1(self.y as int) * k <= i64::MAX,
        ensures
            r.x == self.x * k,
            r.y == self.y * k,
    {
        proof {
            assert(abs1(self.x as int) * k >= 0) by (nonlinear_arith)
                requires k >= 0 && abs1(self.x as int) >= 0,
            ;
            assert(self.x * k <= abs1(self.x as int) * k && -(abs1(self.x as int) * k) <= self.x * k)
                by (nonlinear_arith)
                requires k >= 0,
            ;
            assert(self.y * k <= abs1(self.y as int) * k && -(abs1(self.y as int) * k) <= self.y * k)
                by (nonlinear_arith)
                requires k >= 0,
            ;
        }
        Vec2 { x: self.x * k, y: self.y * k }
    }

    /// Normalises to a fixed-point unit vector of scale `DIR_SCALE`,
    /// mapping the zero vector to itself.
    pub fn normalize_or_zero(self) -> (r: Vec2)
        requires
            abs1(self.x as int) <= 2 * COORD_LIMIT,
            abs1(self.y as int) <= 2 * COORD_LIMIT,
        ensures
            r == spec_normalize(self),
            abs1(r.x as int) <= DIR_SCALE,
            abs1(r.y as int) <= DIR_SCALE,
    {
        if self.x == 0 && self.y == 0 {
            return self;
        }
        let ax: u64 = if self.x >= 0 {
            self.x as u64
        } else {
            (-self.x) as u64
        };
        let ay: u64 = if self.y >= 0 {
            self.y as u64
        } else {
            (-self.y) as u64
        };
        proof {
            assert(ax * ax + ay * ay <= u64::MAX) by (nonlinear_arith)
                requires ax <= 2_000_000_000u64 && ay <= 2_000_000_000u64,
            ;
            assert(ax * ax == self.x * self.x && ay * ay == self.y * self.y) by (nonlinear_arith)
                requires ax == abs1(self.x as int) && ay == abs1(self.y as int),
            ;
        }
        let n2: u64 = ax * ax + ay * ay;
        let l: u64 = isqrt64(n2);
        proof {
            lemma_sqrt_floor(n2 as nat);
            assert(ax >= 1 || ay >= 1);
            assert(ax * ax + ay * ay >= 1) by (nonlinear_arith)
                requires ax >= 1 || ay >= 1,
            ;
            if l == 0 {
                assert(is_sqrt_floor(n2 as int, 0));
                assert(n2 < 1) by (nonlinear_arith)
                    requires (0int + 1) * (0int + 1) > n2 as int,
                ;
                assert(false);
            }
            lemma_coord_le_length(self);
            assert(abs1(self.x as int) * 1000 <= i64::MAX) by (nonlinear_arith)
                requires abs1(self.x as int) <= 2_000_000_000,
            ;
            assert(abs1(self.y as int) * 1000 <= i64::MAX) by (nonlinear_arith)
                requires abs1(self.y as int) <= 2_000_000_000,
            ;
        }
        let rx: i64 = mul_div_toward_zero(self.x, 1000, l);
        let ry: i64 = mul_div_toward_zero(self.y, 1000, l);
        proof {
            lemma_mul_div_le(1000, abs1(self.x as int), l as int);
            lemma_mul_div_le(1000, abs1(self.y as int), l as int);
            assert(abs1(self.x as int) * 1000 == 1000 * abs1(self.x as int)) by (nonlinear_arith);
            assert(abs1(self.y as int) * 1000 == 1000 * abs1(self.y as int)) by (nonlinear_arith);
        }
        Vec2 { x: rx, y: ry }
    }
}

/// A coordinate clamped into the playable box.
pub open spec fn clamp_world_coord(a: int) -> int {
    if a < -COORD_LIMIT {
        -COORD_LIMIT as int
    } else if a > COORD_LIMIT {
        COORD_LIMIT as int
    } else {
        a
    }
}

/// Where a point moving at `vel` milli-pixels per second ends up after
/// `dt` time units, clamped into the playable box.
pub open spec fn spec_advance(pos: Vec2, vel: Vec2, dt: u32) -> Vec2 {
    Vec2 {
        x: clamp_world_coord(
            pos.x + scaled_toward_zero(
                vel.x as int,
                dt as int,
                crate::TIME_UNITS_PER_SECOND as int,
            ),
        ) as i64,
        y: clamp_world_coord(
            pos.y + scaled_toward_zero(
                vel.y as int,
                dt as int,
                crate::TIME_UNITS_PER_SECOND as int,
            ),
        ) as i64,
    }
}

/// Moves `pos` by `vel` milli-pixels per second for `dt` time units,
/// clamped into the playable box.
pub fn advance(pos: Vec2, vel: Vec2, dt: u32) -> (r: Vec2)
    requires
        in_world(pos),
        abs1(vel.x as int) <= 1_000_000,
        abs1(vel.y as int) <= 1_000_000,
        dt <= crate::MAX_TICK_UNITS,
    ensures
        r == spec_advance(pos, vel, dt),
        in_world(r),
{
    proof {
        assert(abs1(vel.x as int) * dt <= i64::MAX) by (nonlinear_arith)
            requires abs1(vel.x as int) <= 1_000_000 && dt <= 2_160_000u32,
        ;
        assert(abs1(vel.y as int) * dt <= i64::MAX) by (nonlinear_arith)
            requires abs1(vel.y as int) <= 1_000_000 && dt <= 2_160_000u32,
        ;
    }
    let mx: i64 = mul_div_toward_zero(vel.x, dt as u64, 600);
    let my: i64 = mul_div_toward_zero(vel.y, dt as u64, 600);
    proof {
        assert(abs1(vel.x as int) * dt <= 1_000_000int * 2_160_000) by (nonlinear_arith)
            requires
                0 <= abs1(vel.x as int) <= 1_000_000,
                dt <= 2_160_000u32,
        ;
        assert(abs1(vel.y as int) * dt <= 1_000_000int * 2_160_000) by (nonlinear_arith)
            requires
                0 <= abs1(vel.y as int) <= 1_000_000,
                dt <= 2_160_000u32,
        ;
        vstd::arithmetic::div_mod::lemma_div_pos_is_pos(abs1(vel.x as int) * dt, 600);
        vstd::arithmetic::div_mod::lemma_div_pos_is_pos(abs1(vel.y as int) * dt, 600);
        vstd::arithmetic::div_mod::lemma_div_nonincreasing(abs1(vel.x as int) * dt, 600);
        vstd::arithmetic::div_mod::lemma_div_nonincreasing(abs1(vel.y as int) * dt, 600);
    }
    let x: i64 = pos.x + mx;
    let y: i64 = pos.y + my;
    let cx: i64 = if x < -COORD_LIMIT {
        -COORD_LIMIT
    } else if x > COORD_LIMIT {
        COORD_LIMIT
    } else {
        x
    };
    let cy: i64 = if y < -COORD_LIMIT {
        -COORD_LIMIT
    } else if y > COORD_LIMIT {
        COORD_LIMIT
    } else {
        y
    };
    Vec2 { x: cx, y: cy }
}

/// Clamps a point into the playable box.
pub fn clamp_to_world(v: Vec2) -> (r: Vec2)
    ensures
        r.x == clamp_world_coord(v.x as int),
        r.y == clamp_world_coord(v.y as int),
        in_world(r),
{
    let cx: i64 = if v.x < -COORD_LIMIT {
        -COORD_LIMIT
    } else if v.x > COORD_LIMIT {
        COORD_LIMIT
    } else {
        v.x
    };
    let cy: i64 = if v.y < -COORD_LIMIT {
        -COORD_LIMIT
    } else if v.y > COORD_LIMIT {
        COORD_LIMIT
    } else {
        v.y
    };
    Vec2 { x: cx, y: cy }
}

/// Squared distance between two in-world points, as a machine integer.
pub fn dist2_u64(a: Vec2, b: Vec2) -> (r: u64)
    requires
        in_world(a),
        in_world(b),
    ensures
        r == dist2(a, b),
{
    let dx: i64 = a.x - b.x;
    let dy: i64 = a.y - b.y;
    let ax: u64 = if dx >= 0 {
        dx as u64
    } else {
        (-dx) as u64
    };
    let ay: u64 = if dy >= 0 {
        dy as u64
    } else {
        (-dy) as u64
    };
    proof {
        assert(ax * ax + ay * ay <= u64::MAX) by (nonlinear_arith)
            requires ax <= 2_000_000_000u64 && ay <= 2_000_000_000u64,
        ;
        assert(ax * ax == dx * dx && ay * ay == dy * dy) by (nonlinear_arith)
            requires ax == abs1(dx as int) && ay == abs1(dy as int),
        ;
    }
    ax * ax + ay * ay
}

/// Where a point moving straight at `target` with step budget `step`
/// ends up: at `target` once the remaining distance fits in the step,
/// otherwise `step` milli-pixels along the line, rounded toward `pos`.
pub open spec fn spec_step_toward(pos: Vec2, target: Vec2, step: u64) -> Vec2 {
    let l = sqrt_floor(dist2(pos, target) as nat) as int;
    if l <= step {
        target
    } else {
        Vec2 {
            x: (pos.x + scaled_toward_zero(target.x - pos.x, step as int, l)) as i64,
            y: (pos.y + scaled_toward_zero(target.y - pos.y, step as int, l)) as i64,
        }
    }
}

/// Moves `pos` straight toward `target` by at most `step` milli-pixels,
/// arriving exactly when the remaining distance fits in the step. The
/// squared distance to `target` never grows.
pub fn step_toward(pos: Vec2, target: Vec2, step: u64) -> (r: Vec2)
    requires
        in_world(pos),
        in_world(target),
        step <= 1_000_000_000,
    ensures
        r == spec_step_toward(pos, target, step),
        in_world(r),
        dist2(r, target) <= dist2(pos, target),
        sqrt_floor(dist2(pos, target) as nat) <= step ==> r == target,
{
    let dx: i64 = target.x - pos.x;
    let dy: i64 = target.y - pos.y;
    let ax: u64 = if dx >= 0 {
        dx as u64
    } else {
        (-dx) as u64
    };
    let ay: u64 = if dy >= 0 {
        dy as u64
    } else {
        (-dy) as u64
    };
    proof {
        assert(ax * ax + ay * ay <= u64::MAX) by (nonlinear_arith)
            requires ax <= 2_000_000_000u64 && ay <= 2_000_000_000u64,
        ;
        assert(ax * ax == dx * dx && ay * ay == dy * dy) by (nonlinear_arith)
            requires ax == abs1(dx as int) && ay == abs1(dy as int),
        ;
    }
    let n2: u64 = ax * ax + ay * ay;
    let l: u64 = isqrt64(n2);
    proof {
        lemma_sqrt_floor(n2 as nat);
        lemma_dist2_nonneg(pos, target);
        assert((pos.x - target.x) * (pos.x - target.x) == dx * dx && (pos.y - target.y) * (pos.y
            - target.y) == dy * dy) by (nonlinear_arith)
            requires dx == target.x - pos.x && dy == target.y - pos.y,
        ;
        assert(n2 as int == dist2(pos, target));
    }
    if l <= step {
        proof {
            assert((target.x - target.x) * (target.x - target.x) == 0) by (nonlinear_arith);
            assert((target.y - target.y) * (target.y - target.y) == 0) by (nonlinear_arith);
            assert(dist2(target, target) == 0);
        }
        target
    } else {
        proof {
            assert(abs1(dx as int) * step <= i64::MAX) by (nonlinear_arith)
                requires abs1(dx as int) <= 2_000_000_000 && step <= 1_000_000_000u64,
            ;
            assert(abs1(dy as int) * step <= i64::MAX) by (nonlinear_arith)
                requires abs1(dy as int) <= 2_000_000_000 && step <= 1_000_000_000u64,
            ;
        }
        let mx: i64 = mul_div_toward_zero(dx, step, l);
        let my: i64 = mul_div_toward_zero(dy, step, l);
        proof {
            lemma_mul_div_le(abs1(dx as int), step as int, l as int);
            lemma_mul_div_le(abs1(dy as int), step as int, l as int);
        }
        let rx: i64 = pos.x + mx;
        let ry: i64 = pos.y + my;
        let r = Vec2 { x: rx, y: ry };
        proof {
            assert(abs1((rx - target.x) as int) <= abs1(dx as int));
            assert(abs1((ry - target.y) as int) <= abs1(dy as int));
            lemma_abs_square_le(rx - target.x, dx as int);
            lemma_abs_square_le(ry - target.y, dy as int);
            assert(dx * dx == (pos.x - target.x) * (pos.x - target.x) && dy * dy == (pos.y
                - target.y) * (pos.y - target.y)) by (nonlinear_arith)
                requires dx == target.x - pos.x && dy == target.y - pos.y,
            ;
        }
        r
    }
}

} // verus!
