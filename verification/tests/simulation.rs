use star_chase::entities::ENEMY_RADIUS;
use star_chase::entities::PLAYER_RADIUS;
use star_chase::entities::STAR_RADIUS;
use star_chase::world::ENEMY_SPAWN_MS;
use star_chase::world::STAR_SPAWN_MS;
use star_chase::AppState;
use star_chase::Enemy;
use star_chase::FrameInput;
use star_chase::GameState;
use star_chase::GameWorld;
use star_chase::Player;
use star_chase::Request;
use star_chase::Score;
use star_chase::SpawnTimer;
use star_chase::Star;
use star_chase::Vec2i;
use star_chase::Window;

fn window() -> Window {
    Window { width: 1_280_000, height: 720_000 }
}

fn idle_input() -> FrameInput {
    FrameInput { request: None, left: false, down: false, right: false, up: false }
}

fn running_world(player: Option<Player>, enemies: Vec<Enemy>, stars: Vec<Star>) -> GameWorld {
    let next_id = (enemies.len() + stars.len() + 1) as u64;
    GameWorld {
        app_state: AppState::Game,
        game_state: GameState::Running,
        score: Score { value: 0 },
        player,
        enemies,
        stars,
        enemy_timer: SpawnTimer { accum_ms: 0, interval_ms: ENEMY_SPAWN_MS },
        star_timer: SpawnTimer { accum_ms: 0, interval_ms: STAR_SPAWN_MS },
        game_over_pending: false,
        next_id,
    }
}

fn in_window(p: Vec2i, radius: i64, w: Window) -> bool {
    radius <= p.x && p.x <= w.width - radius && radius <= p.y && p.y <= w.height - radius
}

#[test]
fn entering_game_spawns_the_full_session() {
    let w = window();
    let mut world = GameWorld::new();
    world.score.value = 7; // a stale score from an earlier session
    let quit = world.apply_request(Request::Play, w);
    assert!(!quit);
    assert_eq!(world.app_state, AppState::Game);
    assert_eq!(world.game_state, GameState::Running);
    assert_eq!(world.score.value, 0);
    assert_eq!(world.enemies.len(), 4);
    assert_eq!(world.stars.len(), 10);
    assert!(world.player.is_some());
    let p = world.player.unwrap();
    assert_eq!(p.pos.x, w.width / 2);
    assert_eq!(p.pos.y, w.height / 2);
    for e in &world.enemies {
        assert!(in_window(e.pos, ENEMY_RADIUS, w));
        assert!(e.dir.x.abs() <= 1000 && e.dir.y.abs() <= 1000);
    }
    for s in &world.stars {
        assert!(in_window(s.pos, STAR_RADIUS, w));
    }
    assert_eq!(world.enemy_timer.accum_ms, 0);
    assert_eq!(world.star_timer.accum_ms, 0);
}

#[test]
fn entering_game_from_game_over_restarts() {
    let w = window();
    let mut world = GameWorld::new();
    world.app_state = AppState::GameOver;
    world.score.value = 5;
    world.apply_request(Request::Restart, w);
    assert_eq!(world.app_state, AppState::Game);
    assert_eq!(world.score.value, 0);
    assert_eq!(world.enemies.len(), 4);
    assert_eq!(world.stars.len(), 10);
    assert!(world.player.is_some());
}

#[test]
fn leaving_game_despawns_everything() {
    let w = window();
    let mut world = GameWorld::new();
    world.apply_request(Request::Play, w);
    world.apply_request(Request::MainMenu, w);
    assert_eq!(world.app_state, AppState::MainMenu);
    assert_eq!(world.enemies.len(), 0);
    assert_eq!(world.stars.len(), 0);
    assert!(world.player.is_none());
}

#[test]
fn requesting_the_current_phase_is_a_no_op() {
    let w = window();
    let mut world = GameWorld::new();
    world.apply_request(Request::Play, w);
    let enemies_before: Vec<Enemy> = world.enemies.clone();
    let stars_before: Vec<Star> = world.stars.clone();
    let score_before = world.score.value;
    // Play while already playing: no entity churn, no respawn
    world.apply_request(Request::Play, w);
    assert_eq!(world.app_state, AppState::Game);
    assert_eq!(world.enemies, enemies_before);
    assert_eq!(world.stars, stars_before);
    assert_eq!(world.score.value, score_before);
    // an invalid request outside its phase changes nothing either
    let mut menu = GameWorld::new();
    menu.apply_request(Request::TogglePause, w);
    assert_eq!(menu.app_state, AppState::MainMenu);
    assert_eq!(menu.game_state, GameState::Running);
}

#[test]
fn pause_gates_the_simulation() {
    let w = window();
    let mut world = GameWorld::new();
    world.apply_request(Request::Play, w);
    world.apply_request(Request::TogglePause, w);
    assert_eq!(world.game_state, GameState::Paused);
    let before_player = world.player;
    let before_timer = world.enemy_timer;
    let mut input = idle_input();
    input.right = true;
    world.step_frame(input, 16, w);
    // paused: nothing moved, timers stood still
    assert_eq!(world.player, before_player);
    assert_eq!(world.enemy_timer, before_timer);
    world.apply_request(Request::Resume, w);
    assert_eq!(world.game_state, GameState::Running);
}

#[test]
fn leaving_game_is_honored_while_paused() {
    let w = window();
    let mut world = GameWorld::new();
    world.apply_request(Request::Play, w);
    world.apply_request(Request::TogglePause, w);
    world.apply_request(Request::MainMenu, w);
    assert_eq!(world.app_state, AppState::MainMenu);
    assert_eq!(world.enemies.len(), 0);
    assert_eq!(world.stars.len(), 0);
    assert!(world.player.is_none());
    // entering the game again resets the run phase to running
    world.apply_request(Request::Play, w);
    assert_eq!(world.game_state, GameState::Running);
}

#[test]
fn collecting_a_star_scores_one_and_removes_it() {
    // player at (100,100) radius 32, star at (105,100) radius 10:
    // distance 5 < 42, so the star is collected and the score goes 0 to 1
    let player = Player { pos: Vec2i { x: 100_000, y: 100_000 } };
    let near = Star { id: 1, pos: Vec2i { x: 105_000, y: 100_000 } };
    let far = Star { id: 2, pos: Vec2i { x: 600_000, y: 600_000 } };
    let mut world = running_world(Some(player), Vec::new(), vec![near, far]);
    let collected = world.collect_stars();
    assert_eq!(collected, 1);
    assert_eq!(world.score.value, 1);
    assert_eq!(world.stars.len(), 1);
    assert!(world.stars.iter().all(|s| s.id != 1));
    assert!(world.player.is_some());
}

#[test]
fn several_stars_can_be_collected_in_one_frame() {
    let player = Player { pos: Vec2i { x: 100_000, y: 100_000 } };
    let a = Star { id: 1, pos: Vec2i { x: 105_000, y: 100_000 } };
    let b = Star { id: 2, pos: Vec2i { x: 100_000, y: 110_000 } };
    let mut world = running_world(Some(player), Vec::new(), vec![a, b]);
    let collected = world.collect_stars();
    assert_eq!(collected, 2);
    assert_eq!(world.score.value, 2);
    assert_eq!(world.stars.len(), 0);
}

#[test]
fn enemy_hit_raises_game_over_exactly_once() {
    // two enemies in range: the player is destroyed once, one game-over
    // event fires, and the phase is game-over after consumption
    let player = Player { pos: Vec2i { x: 100_000, y: 100_000 } };
    let e1 = Enemy { id: 1, pos: Vec2i { x: 110_000, y: 100_000 }, dir: Vec2i { x: 0, y: 0 } };
    let e2 = Enemy { id: 2, pos: Vec2i { x: 100_000, y: 110_000 }, dir: Vec2i { x: 0, y: 0 } };
    let mut world = running_world(Some(player), vec![e1, e2], Vec::new());
    let ev = world.step_frame(idle_input(), 16, window());
    assert!(ev.hit_cue);
    assert!(ev.game_over);
    assert_eq!(world.app_state, AppState::GameOver);
    assert!(world.player.is_none());
    assert_eq!(world.enemies.len(), 0);
    assert_eq!(world.stars.len(), 0);
}

#[test]
fn player_movement_integrates_and_clamps() {
    let w = window();
    let player = Player { pos: Vec2i { x: 100_000, y: 100_000 } };
    let mut world = running_world(Some(player), Vec::new(), Vec::new());
    // one 16 ms frame moving left: 800 px/s * 0.016 s = 12.8 px
    let mut input = idle_input();
    input.left = true;
    world.step_frame(input, 16, w);
    assert_eq!(world.player.unwrap().pos.x, 87_200);
    assert_eq!(world.player.unwrap().pos.y, 100_000);
    // a very long frame pins the player to the left wall: pure clamp
    world.step_frame(input, 10_000, w);
    let pos = world.player.unwrap().pos;
    assert_eq!(pos.x, PLAYER_RADIUS);
    assert!(in_window(pos, PLAYER_RADIUS, w));
}

#[test]
fn diagonal_movement_uses_the_normalized_diagonal() {
    let w = window();
    let player = Player { pos: Vec2i { x: 100_000, y: 100_000 } };
    let mut world = running_world(Some(player), Vec::new(), Vec::new());
    let mut input = idle_input();
    input.left = true;
    input.up = true;
    world.step_frame(input, 16, w);
    // 707 * 800 * 16 / 1000 = 9049 milli-units on each axis
    assert_eq!(world.player.unwrap().pos.x, 100_000 - 9049);
    assert_eq!(world.player.unwrap().pos.y, 100_000 + 9049);
}

#[test]
fn enemy_clamps_at_the_wall_and_reflects() {
    // enemy 5 px short of the right wall, radius 20, moving right:
    // confinement clamps x to width - 20 px and flips the x direction
    let w = window();
    let e = Enemy {
        id: 1,
        pos: Vec2i { x: w.width - 5_000, y: 300_000 },
        dir: Vec2i { x: 500, y: 0 },
    };
    let mut world = running_world(
        Some(Player { pos: Vec2i { x: 640_000, y: 600_000 } }),
        vec![e],
        Vec::new(),
    );
    let bounces = world.move_enemies(1000, w);
    assert_eq!(bounces, 1);
    let after = world.enemies[0];
    assert_eq!(after.pos.x, w.width - ENEMY_RADIUS);
    assert_eq!(after.dir.x, -500);
    assert_eq!(after.dir.y, 0);
    assert!(in_window(after.pos, ENEMY_RADIUS, w));
}

#[test]
fn one_bounce_cue_even_when_both_axes_clamp() {
    let w = window();
    let e = Enemy {
        id: 1,
        pos: Vec2i { x: w.width - 1_000, y: w.height - 1_000 },
        dir: Vec2i { x: 707, y: 707 },
    };
    let mut world = running_world(
        Some(Player { pos: Vec2i { x: 100_000, y: 100_000 } }),
        vec![e],
        Vec::new(),
    );
    let bounces = world.move_enemies(1000, w);
    assert_eq!(bounces, 1);
    assert_eq!(world.enemies[0].dir.x, -707);
    assert_eq!(world.enemies[0].dir.y, -707);
}

#[test]
fn spawn_timers_add_entities_over_time() {
    let w = window();
    // no player this frame: spawning is unaffected, and nothing newly
    // spawned can be collected before the assertions run
    let mut world = running_world(None, Vec::new(), Vec::new());
    world.enemy_timer.accum_ms = 2_900;
    world.star_timer.accum_ms = 900;
    world.step_frame(idle_input(), 200, w);
    assert_eq!(world.enemies.len(), 1);
    assert_eq!(world.stars.len(), 1);
    // overshoot carries forward: 3100 - 3000 and 1100 - 1000
    assert_eq!(world.enemy_timer.accum_ms, 100);
    assert_eq!(world.star_timer.accum_ms, 100);
    assert!(in_window(world.enemies[0].pos, ENEMY_RADIUS, w));
    assert!(in_window(world.stars[0].pos, STAR_RADIUS, w));
}

#[test]
fn quit_request_reports_and_changes_nothing() {
    let w = window();
    let mut world = GameWorld::new();
    let mut input = idle_input();
    input.request = Some(Request::Quit);
    let ev = world.step_frame(input, 16, w);
    assert!(ev.quit);
    assert_eq!(world.app_state, AppState::MainMenu);
    assert_eq!(world.enemies.len(), 0);
}

#[test]
fn game_over_then_menu_then_play_again() {
    let w = window();
    let player = Player { pos: Vec2i { x: 100_000, y: 100_000 } };
    let e = Enemy { id: 1, pos: Vec2i { x: 110_000, y: 100_000 }, dir: Vec2i { x: 0, y: 0 } };
    let mut world = running_world(Some(player), vec![e], Vec::new());
    world.step_frame(idle_input(), 16, w);
    assert_eq!(world.app_state, AppState::GameOver);
    let mut input = idle_input();
    input.request = Some(Request::MainMenu);
    world.step_frame(input, 16, w);
    assert_eq!(world.app_state, AppState::MainMenu);
    input.request = Some(Request::Play);
    world.step_frame(input, 16, w);
    assert_eq!(world.app_state, AppState::Game);
    assert_eq!(world.enemies.len(), 4);
    assert_eq!(world.stars.len(), 10);
    assert_eq!(world.score.value, 0);
}
