use star_chase::entities::direction_from_draws;
use star_chase::entities::input_direction;
use star_chase::entities::PLAYER_RADIUS;
use star_chase::entities::STAR_RADIUS;
use star_chase::geom::circles_hit;
use star_chase::geom::confine_point;
use star_chase::geom::isqrt;
use star_chase::geom::UNIT;
use star_chase::phase::paused;
use star_chase::phase::running;
use star_chase::AppState;
use star_chase::GameState;
use star_chase::Score;
use star_chase::SpawnTimer;
use star_chase::Vec2i;
use star_chase::Window;

fn window() -> Window {
    Window { width: 1_280_000, height: 720_000 }
}

#[test]
fn isqrt_brackets_its_argument() {
    assert_eq!(isqrt(0), 0);
    assert_eq!(isqrt(1), 1);
    assert_eq!(isqrt(3), 1);
    assert_eq!(isqrt(4), 2);
    assert_eq!(isqrt(24), 4);
    assert_eq!(isqrt(25), 5);
    assert_eq!(isqrt(1_996_002), 1412);
}

#[test]
fn direction_scales_draws_to_unit_length() {
    // a 3-4-5 triangle scales exactly
    let d = direction_from_draws(3, 4);
    assert_eq!(d.x, 600);
    assert_eq!(d.y, 800);
    let d = direction_from_draws(999, 0);
    assert_eq!(d.x, 1000);
    assert_eq!(d.y, 0);
}

#[test]
fn zero_draw_keeps_the_zero_vector() {
    let d = direction_from_draws(0, 0);
    assert_eq!(d.x, 0);
    assert_eq!(d.y, 0);
}

#[test]
fn collision_is_strictly_less_than_radius_sum() {
    let a = Vec2i { x: 100_000, y: 100_000 };
    // 5 pixels apart, radii 32 + 10 = 42: collected
    let near = Vec2i { x: 105_000, y: 100_000 };
    assert!(circles_hit(a, PLAYER_RADIUS, near, STAR_RADIUS));
    // exactly 42 pixels apart: not collected (strict)
    let edge = Vec2i { x: 142_000, y: 100_000 };
    assert!(!circles_hit(a, PLAYER_RADIUS, edge, STAR_RADIUS));
    let just_in = Vec2i { x: 141_999, y: 100_000 };
    assert!(circles_hit(a, PLAYER_RADIUS, just_in, STAR_RADIUS));
}

#[test]
fn confinement_clamps_both_axes() {
    let w = window();
    let (p, cx, cy) = confine_point(Vec2i { x: -5_000, y: 800_000 }, 20_000, w);
    assert_eq!(p.x, 20_000);
    assert_eq!(p.y, 700_000);
    assert!(cx);
    assert!(cy);
    let (q, qx, qy) = confine_point(Vec2i { x: 400_000, y: 300_000 }, 20_000, w);
    assert_eq!(q.x, 400_000);
    assert_eq!(q.y, 300_000);
    assert!(!qx);
    assert!(!qy);
}

#[test]
fn spawn_timer_fires_on_the_third_second() {
    let mut t = SpawnTimer::new(3000);
    t.tick(1000);
    assert!(!t.due());
    t.tick(1000);
    assert!(!t.due());
    t.tick(1000);
    assert!(t.due());
    let fired = t.consume_if_due();
    assert!(fired);
    // accumulated exactly the interval: remaining time resets to zero
    assert_eq!(t.accum_ms, 0);
    assert!(!t.due());
    t.tick(1000);
    assert!(!t.due());
}

#[test]
fn spawn_timer_overshoot_carries_forward() {
    let mut t = SpawnTimer::new(3000);
    t.tick(3200);
    assert!(t.due());
    assert!(t.consume_if_due());
    assert_eq!(t.accum_ms, 200);
    assert!(!t.consume_if_due());
}

#[test]
fn score_counts_and_resets() {
    let mut s = Score::new();
    assert_eq!(s.value(), 0);
    s.increment();
    s.increment();
    assert_eq!(s.value(), 2);
    s.reset();
    assert_eq!(s.value(), 0);
}

#[test]
fn running_needs_game_and_not_paused() {
    assert!(running(&GameState::Running, &AppState::Game));
    assert!(!running(&GameState::Paused, &AppState::Game));
    assert!(!running(&GameState::Running, &AppState::MainMenu));
    assert!(paused(&GameState::Paused, &AppState::Game));
    assert!(!paused(&GameState::Paused, &AppState::GameOver));
}

#[test]
fn eight_way_input_mapping() {
    let left = input_direction(true, false, false, false);
    assert_eq!((left.x, left.y), (-UNIT, 0));
    let up = input_direction(false, false, false, true);
    assert_eq!((up.x, up.y), (0, UNIT));
    let diag = input_direction(true, false, false, true);
    assert_eq!((diag.x, diag.y), (-707, 707));
    // opposing keys cancel out
    let none = input_direction(true, false, true, false);
    assert_eq!((none.x, none.y), (0, 0));
}
