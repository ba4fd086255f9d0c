use vstd::prelude::*;

use crate::geom::clamp_spec;
use crate::geom::confine_point;
use crate::geom::floor_sqrt;
use crate::geom::in_bounds;
use crate::geom::isqrt;
use crate::geom::pos_ok;
use crate::geom::step_spec;
use crate::geom::axis_step;
use crate::geom::Vec2i;
use crate::geom::Window;
use crate::geom::MAX_ELAPSED_MS;
use crate::geom::MAX_RADIUS;
use crate::geom::UNIT;
use crate::rng::draw_in_range;

verus! {

/// Entity radii, in milli-units (the player is a 64-pixel circle, an
/// enemy a 40-pixel one, a star a 20-pixel one).
pub const PLAYER_RADIUS: i64 = 32_000;

pub const ENEMY_RADIUS: i64 = 20_000;

pub const STAR_RADIUS: i64 = 10_000;

/// Speeds in pixels per second.
pub const PLAYER_SPEED: i64 = 800;

pub const ENEMY_SPEED: i64 = 200;

/// One diagonal component of a unit vector, in milli-units: moving on a
/// diagonal is as fast as moving on an axis.
pub const DIAG: i64 = 707;

/// The player-controlled entity.
#[derive(Clone, Copy, PartialEq, Eq, Structural, Debug)]
pub struct Player {
    pub pos: Vec2i,
}

impl Player {
    pub open spec fn wf(self) -> bool {
        pos_ok(self.pos)
    }
}

/// A bouncing enemy: a position plus a direction vector whose components
/// are milli-units of a (at most) unit-length vector.
#[derive(Clone, Copy, PartialEq, Eq, Structural, Debug)]
pub struct Enemy {
    pub id: u64,
    pub pos: Vec2i,
    pub dir: Vec2i,
}

impl Enemy {
    pub open spec fn wf(self) -> bool {
        &&& pos_ok(self.pos)
        &&& -UNIT <= self.dir.x <= UNIT
        &&& -UNIT <= self.dir.y <= UNIT
    }
}

/// A collectible star.
#[derive(Clone, Copy, PartialEq, Eq, Structural, Debug)]
pub struct Star {
    pub id: u64,
    pub pos: Vec2i,
}

impl Star {
    pub open spec fn wf(self) -> bool {
        pos_ok(self.pos)
    }
}

/// The horizontal component of the direction drawn from two raw draws in
/// `[0, UNIT)`: the draw vector scaled to unit length (rounded down), or
/// zero when both draws are zero — that degenerate draw is kept as-is.
pub open spec fn norm_dir_x(rx: int, ry: int) -> int {
    if rx == 0 && ry == 0 {
        0
    } else {
        rx * UNIT / (floor_sqrt((rx * rx + ry * ry) as nat) as int)
    }
}

/// The vertical counterpart of `norm_dir_x`.
pub open spec fn norm_dir_y(rx: int, ry: int) -> int {
    if rx == 0 && ry == 0 {
        0
    } else {
        ry * UNIT / (floor_sqrt((rx * rx + ry * ry) as nat) as int)
    }
}

/// Scale a drawn vector to unit length.  Both components come from
/// `[0, UNIT)`, so directions point into the first quadrant; the
/// all-zero draw yields the zero vector.
pub fn direction_from_draws(rx: i64, ry: i64) -> (d: Vec2i)
    requires
        0 <= rx < UNIT,
        0 <= ry < UNIT,
    ensures
        d.x == norm_dir_x(rx as int, ry as int),
        d.y == norm_dir_y(rx as int, ry as int),
        0 <= d.x <= UNIT,
        0 <= d.y <= UNIT,
{
    if rx == 0 && ry == 0 {
        Vec2i { x: 0, y: 0 }
    } else {
        assert(0 <= rx * rx + ry * ry <= 1_996_002) by (nonlinear_arith)
            requires
                0 <= rx <= 999,
                0 <= ry <= 999,
        ;
        assert(rx * rx + ry * ry >= 1) by (nonlinear_arith)
            requires
                0 <= rx,
                0 <= ry,
                rx >= 1 || ry >= 1,
        ;
        let s: u64 = (rx * rx + ry * ry) as u64;
        let len: u64 = isqrt(s);
        proof {
            assert(len >= 1) by (nonlinear_arith)
                requires
                    len * len <= s,
                    s < (len + 1) * (len + 1),
                    s >= 1,
            ;
            assert(rx <= len && ry <= len) by (nonlinear_arith)
                requires
                    0 <= rx,
                    0 <= ry,
                    rx * rx <= s,
                    ry * ry <= s,
                    s < (len + 1) * (len + 1),
            ;
            assert(rx * rx <= s && ry * ry <= s) by (nonlinear_arith)
                requires
                    s == rx * rx + ry * ry,
                    0 <= rx,
                    0 <= ry,
            ;
        }
        let rxu: u64 = rx as u64;
        let ryu: u64 = ry as u64;
        let dx: u64 = rxu * 1000 / len;
        let dy: u64 = ryu * 1000 / len;
        proof {
            assert(rxu * 1000 <= len * 1000 && ryu * 1000 <= len * 1000) by (nonlinear_arith)
                requires
                    rxu <= len,
                    ryu <= len,
            ;
            vstd::arithmetic::div_mod::lemma_div_is_ordered(
                rxu * 1000,
                len * 1000,
                len as int,
            );
            vstd::arithmetic::div_mod::lemma_div_is_ordered(
                ryu * 1000,
                len * 1000,
                len as int,
            );
            vstd::arithmetic::div_mod::lemma_div_by_multiple(1000, len as int);
            assert(len * 1000 == 1000 * len) by (nonlinear_arith);
        }
        Vec2i { x: dx as i64, y: dy as i64 }
    }
}

/// A uniformly random position whose circle of the given radius lies
/// wholly inside the window (inset by the radius on every side).
pub fn random_position(radius: i64, w: Window) -> (p: Vec2i)
    requires
        w.wf(),
        0 < radius <= MAX_RADIUS,
    ensures
        in_bounds(p, radius, w),
        pos_ok(p),
{
    let x = draw_in_range(radius, w.width - radius);
    let y = draw_in_range(radius, w.height - radius);
    Vec2i { x, y }
}

/// A fresh enemy at a random in-bounds position, moving in a random
/// first-quadrant direction.
pub fn new_random_enemy(id: u64, w: Window) -> (e: Enemy)
    requires
        w.wf(),
    ensures
        e.wf(),
        e.id == id,
        in_bounds(e.pos, ENEMY_RADIUS, w),
{
    let pos = random_position(ENEMY_RADIUS, w);
    let rx = draw_in_range(0, UNIT - 1);
    let ry = draw_in_range(0, UNIT - 1);
    let dir = direction_from_draws(rx, ry);
    Enemy { id, pos, dir }
}

/// A fresh star at a random in-bounds position.
pub fn new_random_star(id: u64, w: Window) -> (s: Star)
    requires
        w.wf(),
    ensures
        s.wf(),
        s.id == id,
        in_bounds(s.pos, STAR_RADIUS, w),
{
    let pos = random_position(STAR_RADIUS, w);
    Star { id, pos }
}

/// The discrete eight-way input mapping: one pressed axis key gives a
/// unit vector on that axis, two adjacent ones give the matching
/// diagonal, and every other combination gives no displacement.
pub open spec fn input_dir_spec(left: bool, down: bool, right: bool, up: bool) -> Vec2i {
    if left && !down && !right && !up {
        Vec2i { x: (-UNIT) as i64, y: 0 }
    } else if !left && down && !right && !up {
        Vec2i { x: 0, y: (-UNIT) as i64 }
    } else if !left && !down && right && !up {
        Vec2i { x: UNIT, y: 0 }
    } else if !left && !down && !right && up {
        Vec2i { x: 0, y: UNIT }
    } else if left && down && !right && !up {
        Vec2i { x: (-DIAG) as i64, y: (-DIAG) as i64 }
    } else if left && !down && !right && up {
        Vec2i { x: (-DIAG) as i64, y: DIAG }
    } else if !left && down && right && !up {
        Vec2i { x: DIAG, y: (-DIAG) as i64 }
    } else if !left && !down && right && up {
        Vec2i { x: DIAG, y: DIAG }
    } else {
        Vec2i { x: 0, y: 0 }
    }
}

pub fn input_direction(left: bool, down: bool, right: bool, up: bool) -> (d: Vec2i)
    ensures
        d == input_dir_spec(left, down, right, up),
        -UNIT <= d.x <= UNIT,
        -UNIT <= d.y <= UNIT,
{
    if left && !down && !right && !up {
        Vec2i { x: -UNIT, y: 0 }
    } else if !left && down && !right && !up {
        Vec2i { x: 0, y: -UNIT }
    } else if !left && !down && right && !up {
        Vec2i { x: UNIT, y: 0 }
    } else if !left && !down && !right && up {
        Vec2i { x: 0, y: UNIT }
    } else if left && down && !right && !up {
        Vec2i { x: -DIAG, y: -DIAG }
    } else if left && !down && !right && up {
        Vec2i { x: -DIAG, y: DIAG }
    } else if !left && down && right && !up {
        Vec2i { x: DIAG, y: -DIAG }
    } else if !left && !down && right && up {
        Vec2i { x: DIAG, y: DIAG }
    } else {
        Vec2i { x: 0, y: 0 }
    }
}

/// Where the player ends up after one frame: input displacement applied,
/// then each axis clamped into the window.
pub open spec fn player_x_after(
    p: Player,
    left: bool,
    down: bool,
    right: bool,
    up: bool,
    elapsed: u64,
    w: Window,
) -> int {
    clamp_spec(
        p.pos.x + step_spec(input_dir_spec(left, down, right, up).x, PLAYER_SPEED, elapsed),
        PLAYER_RADIUS as int,
        w.width - PLAYER_RADIUS,
    )
}

pub open spec fn player_y_after(
    p: Player,
    left: bool,
    down: bool,
    right: bool,
    up: bool,
    elapsed: u64,
    w: Window,
) -> int {
    clamp_spec(
        p.pos.y + step_spec(input_dir_spec(left, down, right, up).y, PLAYER_SPEED, elapsed),
        PLAYER_RADIUS as int,
        w.height - PLAYER_RADIUS,
    )
}

/// The player after one frame of input-driven motion and confinement.
pub open spec fn player_after(
    p: Player,
    left: bool,
    down: bool,
    right: bool,
    up: bool,
    elapsed: u64,
    w: Window,
) -> Player {
    Player {
        pos: Vec2i {
            x: player_x_after(p, left, down, right, up, elapsed, w) as i64,
            y: player_y_after(p, left, down, right, up, elapsed, w) as i64,
        },
    }
}

/// Integrate the player's motion for one frame and confine it to the
/// window: a pure clamp, with no further side effect.
pub fn player_step(
    p: &mut Player,
    left: bool,
    down: bool,
    right: bool,
    up: bool,
    elapsed: u64,
    w: Window,
)
    requires
        old(p).wf(),
        w.wf(),
        elapsed <= MAX_ELAPSED_MS,
    ensures
        final(p).pos.x == player_x_after(*old(p), left, down, right, up, elapsed, w),
        final(p).pos.y == player_y_after(*old(p), left, down, right, up, elapsed, w),
        in_bounds(final(p).pos, PLAYER_RADIUS, w),
        final(p).wf(),
        *final(p) == player_after(*old(p), left, down, right, up, elapsed, w),
{
    let d = input_direction(left, down, right, up);
    let sx = axis_step(d.x, PLAYER_SPEED, elapsed);
    let sy = axis_step(d.y, PLAYER_SPEED, elapsed);
    let moved = Vec2i { x: p.pos.x + sx, y: p.pos.y + sy };
    let (confined, _, _) = confine_point(moved, PLAYER_RADIUS, w);
    p.pos = confined;
}

/// Where an enemy's integration puts it, before confinement.
pub open spec fn enemy_moved_x(e: Enemy, elapsed: u64) -> int {
    e.pos.x + step_spec(e.dir.x, ENEMY_SPEED, elapsed)
}

pub open spec fn enemy_moved_y(e: Enemy, elapsed: u64) -> int {
    e.pos.y + step_spec(e.dir.y, ENEMY_SPEED, elapsed)
}

/// Whether confinement has to move the enemy on the horizontal axis this
/// frame, which reflects its horizontal velocity.
pub open spec fn enemy_bounced_x(e: Enemy, elapsed: u64, w: Window) -> bool {
    enemy_moved_x(e, elapsed) < ENEMY_RADIUS || enemy_moved_x(e, elapsed) > w.width - ENEMY_RADIUS
}

pub open spec fn enemy_bounced_y(e: Enemy, elapsed: u64, w: Window) -> bool {
    enemy_moved_y(e, elapsed) < ENEMY_RADIUS || enemy_moved_y(e, elapsed) > w.height
        - ENEMY_RADIUS
}

/// One bounce cue per enemy per frame, even when both axes clamp.
pub open spec fn enemy_bounced(e: Enemy, elapsed: u64, w: Window) -> bool {
    enemy_bounced_x(e, elapsed, w) || enemy_bounced_y(e, elapsed, w)
}

/// The enemy after one frame: moved, confined, and with each clamped
/// axis's velocity component reflected.
pub open spec fn enemy_after_step(e: Enemy, elapsed: u64, w: Window) -> Enemy {
    Enemy {
        id: e.id,
        pos: Vec2i {
            x: clamp_spec(enemy_moved_x(e, elapsed), ENEMY_RADIUS as int, w.width - ENEMY_RADIUS)
                as i64,
            y: clamp_spec(enemy_moved_y(e, elapsed), ENEMY_RADIUS as int, w.height - ENEMY_RADIUS)
                as i64,
        },
        dir: Vec2i {
            x: if enemy_bounced_x(e, elapsed, w) {
                (-e.dir.x) as i64
            } else {
                e.dir.x
            },
            y: if enemy_bounced_y(e, elapsed, w) {
                (-e.dir.y) as i64
            } else {
                e.dir.y
            },
        },
    }
}

/// Integrate one enemy's motion and confine it, reflecting the velocity
/// on every clamped axis; reports whether a bounce cue is owed.
pub fn enemy_step(e: &mut Enemy, elapsed: u64, w: Window) -> (bounced: bool)
    requires
        old(e).wf(),
        w.wf(),
        elapsed <= MAX_ELAPSED_MS,
    ensures
        *final(e) == enemy_after_step(*old(e), elapsed, w),
        bounced == enemy_bounced(*old(e), elapsed, w),
        in_bounds(final(e).pos, ENEMY_RADIUS, w),
        final(e).wf(),
{
    let sx = axis_step(e.dir.x, ENEMY_SPEED, elapsed);
    let sy = axis_step(e.dir.y, ENEMY_SPEED, elapsed);
    let moved = Vec2i { x: e.pos.x + sx, y: e.pos.y + sy };
    let (confined, cx, cy) = confine_point(moved, ENEMY_RADIUS, w);
    e.pos = confined;
    if cx {
        e.dir.x = -e.dir.x;
    }
    if cy {
        e.dir.y = -e.dir.y;
    }
    cx || cy
}

} // verus!
