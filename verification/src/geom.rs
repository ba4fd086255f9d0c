use vstd::prelude::*;

verus! {

/// Milli-units per pixel of window space: all positions, radii and window
/// extents are integers in this fixed-point scale.
pub const UNIT: i64 = 1000;

/// Largest window extent the simulation accepts (milli-units), one million
/// pixels: keeps every squared distance inside `i64`.
pub const MAX_EXTENT: i64 = 1_000_000_000;

/// Largest entity radius (milli-units): the player's, 32 pixels.
pub const MAX_RADIUS: i64 = 32_000;

/// Largest speed handed to movement integration, in pixels per second.
pub const MAX_SPEED: i64 = 1000;

/// Longest frame the simulation accepts, in milliseconds.
pub const MAX_ELAPSED_MS: u64 = 1_000_000;

/// A 2-D point or vector in milli-units.
#[derive(Clone, Copy, PartialEq, Eq, Structural, Debug)]
pub struct Vec2i {
    pub x: i64,
    pub y: i64,
}

/// Window extents in milli-units; spawn bounds and confinement limits
/// are computed from these each frame.
#[derive(Clone, Copy, PartialEq, Eq, Structural, Debug)]
pub struct Window {
    pub width: i64,
    pub height: i64,
}

impl Window {
    /// Roomy enough to confine any entity, small enough for exact arithmetic.
    pub open spec fn wf(self) -> bool {
        &&& 2 * MAX_RADIUS <= self.width <= MAX_EXTENT
        &&& 2 * MAX_RADIUS <= self.height <= MAX_EXTENT
    }
}

/// A coordinate small enough that differences and squares stay exact.
pub open spec fn coord_ok(v: i64) -> bool {
    -MAX_EXTENT <= v <= MAX_EXTENT
}

pub open spec fn pos_ok(p: Vec2i) -> bool {
    coord_ok(p.x) && coord_ok(p.y)
}

/// `v` forced into `[lo, hi]`.
pub open spec fn clamp_spec(v: int, lo: int, hi: int) -> int {
    if v < lo {
        lo
    } else if v > hi {
        hi
    } else {
        v
    }
}

pub fn clamp(v: i64, lo: i64, hi: i64) -> (r: i64)
    requires
        lo <= hi,
    ensures
        r == clamp_spec(v as int, lo as int, hi as int),
        lo <= r <= hi,
{
    if v < lo {
        lo
    } else if v > hi {
        hi
    } else {
        v
    }
}

/// A circle of radius `r` centred at `p` lies wholly inside the window.
pub open spec fn in_bounds(p: Vec2i, r: i64, w: Window) -> bool {
    &&& r <= p.x <= w.width - r
    &&& r <= p.y <= w.height - r
}

/// Where confinement puts the horizontal coordinate of a circle of
/// radius `r` centred at `p`: clamped to `[r, width - r]`.
pub open spec fn confine_x(p: Vec2i, r: i64, w: Window) -> int {
    clamp_spec(p.x as int, r as int, w.width - r)
}

/// The vertical counterpart, clamped to `[r, height - r]`.
pub open spec fn confine_y(p: Vec2i, r: i64, w: Window) -> int {
    clamp_spec(p.y as int, r as int, w.height - r)
}

/// Clamp a position into the window, reporting which axes had to move.
pub fn confine_point(p: Vec2i, r: i64, w: Window) -> (res: (Vec2i, bool, bool))
    requires
        w.wf(),
        0 <= r <= MAX_RADIUS,
    ensures
        res.0.x == confine_x(p, r, w),
        res.0.y == confine_y(p, r, w),
        in_bounds(res.0, r, w),
        res.1 == (p.x < r || p.x > w.width - r),
        res.2 == (p.y < r || p.y > w.height - r),
{
    let x = clamp(p.x, r, w.width - r);
    let y = clamp(p.y, r, w.height - r);
    let cx = p.x < r || p.x > w.width - r;
    let cy = p.y < r || p.y > w.height - r;
    (Vec2i { x, y }, cx, cy)
}

/// Squared Euclidean distance between two points.
pub open spec fn dist_sq(a: Vec2i, b: Vec2i) -> int {
    (a.x - b.x) * (a.x - b.x) + (a.y - b.y) * (a.y - b.y)
}

/// Two circles overlap when their centres are strictly closer than the
/// sum of their radii.
pub open spec fn circles_hit_spec(a: Vec2i, ra: i64, b: Vec2i, rb: i64) -> bool {
    dist_sq(a, b) < (ra + rb) * (ra + rb)
}

pub fn circles_hit(a: Vec2i, ra: i64, b: Vec2i, rb: i64) -> (hit: bool)
    requires
        pos_ok(a),
        pos_ok(b),
        0 <= ra <= MAX_RADIUS,
        0 <= rb <= MAX_RADIUS,
    ensures
        hit == circles_hit_spec(a, ra, b, rb),
{
    let dx: i64 = a.x - b.x;
    let dy: i64 = a.y - b.y;
    assert(dx * dx + dy * dy <= 8_000_000_000_000_000_000) by (nonlinear_arith)
        requires
            -2_000_000_000 <= dx <= 2_000_000_000,
            -2_000_000_000 <= dy <= 2_000_000_000,
    ;
    assert(dx * dx >= 0 && dy * dy >= 0) by (nonlinear_arith);
    let d2: i64 = dx * dx + dy * dy;
    let rr: i64 = ra + rb;
    assert(0 <= rr * rr <= 4_096_000_000) by (nonlinear_arith)
        requires
            0 <= rr <= 64_000,
    ;
    d2 < rr * rr
}

/// Displacement of one axis over one frame: a direction component in
/// milli-units (a unit vector scaled by `UNIT`) times a speed in pixels
/// per second times the elapsed milliseconds, divided back into
/// milli-units.  Division truncates the sub-milli-unit remainder
/// towards zero.
pub open spec fn step_spec(dir: i64, speed: i64, elapsed: u64) -> int {
    if dir >= 0 {
        (dir * speed * elapsed) / 1000
    } else {
        -((-dir) * speed * elapsed / 1000)
    }
}

pub fn axis_step(dir: i64, speed: i64, elapsed: u64) -> (d: i64)
    requires
        -UNIT <= dir <= UNIT,
        0 <= speed <= MAX_SPEED,
        elapsed <= MAX_ELAPSED_MS,
    ensures
        d == step_spec(dir, speed, elapsed),
        -MAX_EXTENT <= d <= MAX_EXTENT,
{
    let mag: u64 = if dir >= 0 {
        dir as u64
    } else {
        (-dir) as u64
    };
    let sp: u64 = speed as u64;
    assert(mag * sp <= 1_000_000) by (nonlinear_arith)
        requires
            0 <= mag <= 1000,
            0 <= sp <= 1000,
    ;
    assert(mag * sp * elapsed <= 1_000_000_000_000) by (nonlinear_arith)
        requires
            0 <= mag * sp <= 1_000_000,
            0 <= elapsed <= 1_000_000,
    ;
    let scaled: u64 = mag * sp * elapsed / 1000;
    proof {
        vstd::arithmetic::div_mod::lemma_div_is_ordered(
            mag * sp * elapsed,
            1_000_000_000_000,
            1000,
        );
        vstd::arithmetic::div_mod::lemma_div_pos_is_pos(mag * sp * elapsed, 1000);
    }
    if dir >= 0 {
        scaled as i64
    } else {
        -(scaled as i64)
    }
}

/// The integer square root: the largest `r` with `r * r <= s`.
pub open spec fn floor_sqrt(s: nat) -> nat
    decreases s,
{
    if s == 0 {
        0
    } else {
        let r = floor_sqrt((s - 1) as nat);
        if (r + 1) * (r + 1) <= s {
            r + 1
        } else {
            r
        }
    }
}

/// `floor_sqrt` really brackets its argument between two squares.
pub proof fn lemma_floor_sqrt_bounds(s: nat)
    ensures
        floor_sqrt(s) * floor_sqrt(s) <= s < (floor_sqrt(s) + 1) * (floor_sqrt(s) + 1),
    decreases s,
{
    reveal_with_fuel(floor_sqrt, 2);
    let f = floor_sqrt(s);
    if s > 0 {
        lemma_floor_sqrt_bounds((s - 1) as nat);
        let p = floor_sqrt((s - 1) as nat);
        if (p + 1) * (p + 1) <= s {
            assert(f == p + 1);
            assert(f * f <= s < (f + 1) * (f + 1)) by (nonlinear_arith)
                requires
                    s >= 1,
                    f == p + 1,
                    (p + 1) * (p + 1) <= s,
                    (p + 1) * (p + 1) > s - 1,
            ;
        } else {
            assert(f == p);
            assert(f * f <= s < (f + 1) * (f + 1)) by (nonlinear_arith)
                requires
                    f == p,
                    p * p <= s - 1,
                    !((p + 1) * (p + 1) <= s),
            ;
        }
    } else {
        assert(f == 0);
        assert(f * f <= s < (f + 1) * (f + 1)) by (nonlinear_arith)
            requires
                f == 0,
                s == 0,
        ;
    }
}

/// Any integer bracketed the same way is the floor square root.
pub proof fn lemma_floor_sqrt_unique(s: nat, r: nat)
    requires
        r * r <= s < (r + 1) * (r + 1),
    ensures
        r == floor_sqrt(s),
{
    lemma_floor_sqrt_bounds(s);
    let f = floor_sqrt(s);
    if r < f {
        assert((r + 1) * (r + 1) <= f * f) by (nonlinear_arith)
            requires
                r + 1 <= f,
        ;
    }
    if f < r {
        assert((f + 1) * (f + 1) <= r * r) by (nonlinear_arith)
            requires
                f + 1 <= r,
        ;
    }
}

/// Integer square root of a small number, by linear search.
pub fn isqrt(s: u64) -> (r: u64)
    requires
        s <= 4_000_000,
    ensures
        r == floor_sqrt(s as nat),
        r * r <= s < (r + 1) * (r + 1),
        r <= 2000,
{
    let mut r: u64 = 0;
    while (r + 1) * (r + 1) <= s
        invariant
            s <= 4_000_000,
            r * r <= s,
            r <= 2000,
            (r + 1) * (r + 1) <= 4_004_001,
        decreases s - r * r,
    {
        proof {
            assert((r + 1) * (r + 1) <= 4_000_000 ==> r + 1 <= 2000) by (nonlinear_arith);
            assert(r * r < (r + 1) * (r + 1)) by (nonlinear_arith);
            assert((r + 2) * (r + 2) <= 4_004_001) by (nonlinear_arith)
                requires
                    r + 1 <= 2000,
            ;
        }
        r = r + 1;
    }
    proof {
        lemma_floor_sqrt_unique(s as nat, r as nat);
    }
    r
}

} // verus!
