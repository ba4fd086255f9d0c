use vstd::prelude::*;

use crate::entities::enemy_after_step;
use crate::entities::enemy_bounced;
use crate::entities::new_random_enemy;
use crate::entities::new_random_star;
use crate::entities::player_step;
use crate::entities::player_after;
use crate::entities::player_x_after;
use crate::entities::player_y_after;
use crate::entities::Enemy;
use crate::entities::Player;
use crate::entities::Star;
use crate::entities::ENEMY_RADIUS;
use crate::entities::PLAYER_RADIUS;
use crate::entities::STAR_RADIUS;
use crate::entities::enemy_step;
use crate::geom::circles_hit;
use crate::geom::circles_hit_spec;
use crate::geom::in_bounds;
use crate::geom::Vec2i;
use crate::geom::Window;
use crate::geom::MAX_ELAPSED_MS;
use crate::phase::app_state_after;
use crate::phase::game_state_after;
use crate::phase::AppState;
use crate::phase::GameState;
use crate::phase::Request;
use crate::score::Score;
use crate::timer::SpawnTimer;

verus! {

/// How many enemies and stars a fresh game starts with.
pub const ENEMY_COUNT: usize = 4;

pub const STAR_COUNT: usize = 10;

/// Spawn intervals, in milliseconds.
pub const ENEMY_SPAWN_MS: u64 = 3000;

pub const STAR_SPAWN_MS: u64 = 1000;

/// The whole simulation state: the two phase axes, the session score,
/// the live entities, the two spawn timers, and the not-yet-consumed
/// game-over event.
pub struct GameWorld {
    pub app_state: AppState,
    pub game_state: GameState,
    pub score: Score,
    pub player: Option<Player>,
    pub enemies: Vec<Enemy>,
    pub stars: Vec<Star>,
    pub enemy_timer: SpawnTimer,
    pub star_timer: SpawnTimer,
    /// A collision raised the game-over event and the state machine has
    /// not consumed it yet.
    pub game_over_pending: bool,
    /// The next entity id to hand out; every live id is below it.
    pub next_id: u64,
}

impl GameWorld {
    /// Every live entity has sane coordinates and direction components.
    pub open spec fn entities_wf(self) -> bool {
        &&& forall|i: int| 0 <= i < self.enemies@.len() ==> (#[trigger] self.enemies@[i]).wf()
        &&& forall|i: int| 0 <= i < self.stars@.len() ==> (#[trigger] self.stars@[i]).wf()
        &&& (self.player is Some ==> self.player.unwrap().wf())
    }

    /// Entity ids are unique and below the id counter.
    pub open spec fn ids_wf(self) -> bool {
        &&& forall|i: int|
            0 <= i < self.enemies@.len() ==> (#[trigger] self.enemies@[i]).id < self.next_id
        &&& forall|i: int|
            0 <= i < self.stars@.len() ==> (#[trigger] self.stars@[i]).id < self.next_id
        &&& forall|i: int, j: int|
            #![trigger self.enemies@[i], self.enemies@[j]]
            0 <= i < j < self.enemies@.len() ==> self.enemies@[i].id != self.enemies@[j].id
        &&& forall|i: int, j: int|
            #![trigger self.stars@[i], self.stars@[j]]
            0 <= i < j < self.stars@.len() ==> self.stars@[i].id != self.stars@[j].id
    }

    pub open spec fn wf(self) -> bool {
        &&& self.entities_wf()
        &&& self.ids_wf()
        &&& self.enemy_timer.wf()
        &&& self.star_timer.wf()
        &&& (self.player is Some ==> self.app_state == AppState::Game)
    }

    /// The process starts on the main menu with nothing alive.
    pub fn new() -> (world: GameWorld)
        ensures
            world.wf(),
            world.app_state == AppState::MainMenu,
            world.game_state == GameState::Running,
            world.score.value == 0,
            world.player is None,
            world.enemies@.len() == 0,
            world.stars@.len() == 0,
            world.enemy_timer.interval_ms == ENEMY_SPAWN_MS,
            world.star_timer.interval_ms == STAR_SPAWN_MS,
            world.enemy_timer.accum_ms == 0,
            world.star_timer.accum_ms == 0,
            !world.game_over_pending,
            world.next_id == 0,
    {
        GameWorld {
            app_state: AppState::MainMenu,
            game_state: GameState::Running,
            score: Score::new(),
            player: None,
            enemies: Vec::new(),
            stars: Vec::new(),
            enemy_timer: SpawnTimer::new(ENEMY_SPAWN_MS),
            star_timer: SpawnTimer::new(STAR_SPAWN_MS),
            game_over_pending: false,
            next_id: 0,
        }
    }

    /// Start a fresh game session: reset the score and the run phase,
    /// place the player at the window's centre, spawn the opening batch
    /// of enemies and stars, and rewind both spawn timers.
    #[verifier::loop_isolation(false)]
    pub fn enter_game(&mut self, w: Window)
        requires
            old(self).wf(),
            w.wf(),
            old(self).next_id + ENEMY_COUNT + STAR_COUNT <= u64::MAX,
        ensures
            final(self).wf(),
            final(self).app_state == AppState::Game,
            final(self).game_state == GameState::Running,
            final(self).score.value == 0,
            final(self).player is Some,
            final(self).player.unwrap().pos.x == w.width / 2,
            final(self).player.unwrap().pos.y == w.height / 2,
            in_bounds(final(self).player.unwrap().pos, PLAYER_RADIUS, w),
            final(self).enemies@.len() == ENEMY_COUNT,
            final(self).stars@.len() == STAR_COUNT,
            forall|i: int|
                0 <= i < final(self).enemies@.len() ==> in_bounds(
                    (#[trigger] final(self).enemies@[i]).pos,
                    ENEMY_RADIUS,
                    w,
                ),
            forall|i: int|
                0 <= i < final(self).stars@.len() ==> in_bounds(
                    (#[trigger] final(self).stars@[i]).pos,
                    STAR_RADIUS,
                    w,
                ),
            final(self).enemy_timer.accum_ms == 0,
            final(self).star_timer.accum_ms == 0,
            final(self).enemy_timer.interval_ms == old(self).enemy_timer.interval_ms,
            final(self).star_timer.interval_ms == old(self).star_timer.interval_ms,
            !final(self).game_over_pending,
            final(self).next_id == old(self).next_id + ENEMY_COUNT + STAR_COUNT,
    {
        self.app_state = AppState::Game;
        self.game_state = GameState::Running;
        self.score.reset();
        self.game_over_pending = false;
        self.enemy_timer.reset();
        self.star_timer.reset();

        let half_w = w.width / 2;
        let half_h = w.height / 2;
        self.player = Some(Player { pos: Vec2i { x: half_w, y: half_h } });

        self.enemies = Vec::new();
        let base = self.next_id;
        let mut i: usize = 0;
        while i < ENEMY_COUNT
            invariant
                w.wf(),
                self.app_state == AppState::Game,
                self.game_state == GameState::Running,
                self.score.value == 0,
                !self.game_over_pending,
                self.player is Some,
                self.player.unwrap().pos.x == w.width / 2,
                self.player.unwrap().pos.y == w.height / 2,
                self.enemy_timer.accum_ms == 0,
                self.star_timer.accum_ms == 0,
                self.enemy_timer.interval_ms == old(self).enemy_timer.interval_ms,
                self.star_timer.interval_ms == old(self).star_timer.interval_ms,
                self.enemy_timer.wf(),
                self.star_timer.wf(),
                i <= ENEMY_COUNT,
                self.next_id == base + i,
                base + ENEMY_COUNT + STAR_COUNT <= u64::MAX,
                self.enemies@.len() == i,
                forall|j: int| 0 <= j < i ==> (#[trigger] self.enemies@[j]).wf(),
                forall|j: int| 0 <= j < i ==> (#[trigger] self.enemies@[j]).id == base + j,
                forall|j: int|
                    0 <= j < i ==> in_bounds((#[trigger] self.enemies@[j]).pos, ENEMY_RADIUS, w),
            decreases ENEMY_COUNT - i,
        {
            let e = new_random_enemy(self.next_id, w);
            self.enemies.push(e);
            self.next_id = self.next_id + 1;
            i = i + 1;
        }

        self.stars = Vec::new();
        let star_base = self.next_id;
        let mut k: usize = 0;
        while k < STAR_COUNT
            invariant
                w.wf(),
                self.app_state == AppState::Game,
                self.game_state == GameState::Running,
                self.score.value == 0,
                !self.game_over_pending,
                self.player is Some,
                self.player.unwrap().pos.x == w.width / 2,
                self.player.unwrap().pos.y == w.height / 2,
                self.enemy_timer.accum_ms == 0,
                self.star_timer.accum_ms == 0,
                self.enemy_timer.interval_ms == old(self).enemy_timer.interval_ms,
                self.star_timer.interval_ms == old(self).star_timer.interval_ms,
                self.enemy_timer.wf(),
                self.star_timer.wf(),
                self.enemies@.len() == ENEMY_COUNT,
                forall|j: int| 0 <= j < ENEMY_COUNT ==> (#[trigger] self.enemies@[j]).wf(),
                forall|j: int|
                    0 <= j < ENEMY_COUNT ==> (#[trigger] self.enemies@[j]).id == base + j,
                forall|j: int|
                    0 <= j < ENEMY_COUNT ==> in_bounds(
                        (#[trigger] self.enemies@[j]).pos,
                        ENEMY_RADIUS,
                        w,
                    ),
                star_base == base + ENEMY_COUNT,
                k <= STAR_COUNT,
                self.next_id == star_base + k,
                star_base + STAR_COUNT <= u64::MAX,
                self.stars@.len() == k,
                forall|j: int| 0 <= j < k ==> (#[trigger] self.stars@[j]).wf(),
                forall|j: int| 0 <= j < k ==> (#[trigger] self.stars@[j]).id == star_base + j,
                forall|j: int|
                    0 <= j < k ==> in_bounds((#[trigger] self.stars@[j]).pos, STAR_RADIUS, w),
            decreases STAR_COUNT - k,
        {
            let s = new_random_star(self.next_id, w);
            self.stars.push(s);
            self.next_id = self.next_id + 1;
            k = k + 1;
        }
    }

    /// Honour one externally triggered intent against the run-state
    /// machine: requests for the already-active phase, and requests
    /// invalid in the current phase, change nothing at all; entering the
    /// game spawns the session, leaving it despawns every gameplay
    /// entity.
    pub fn apply_request(&mut self, req: Request, w: Window) -> (quit: bool)
        requires
            old(self).wf(),
            w.wf(),
            old(self).next_id + ENEMY_COUNT + STAR_COUNT <= u64::MAX,
        ensures
            final(self).wf(),
            quit == (req == Request::Quit),
            final(self).app_state == app_state_after(req, old(self).app_state),
            final(self).game_state == game_state_after(
                req,
                old(self).app_state,
                old(self).game_state,
            ),
            // requesting the current phase, or an invalid transition, is a no-op
            (final(self).app_state == old(self).app_state && final(self).game_state == old(
                self,
            ).game_state) ==> *final(self) == *old(self),
            // entering the game spawns the full session
            (old(self).app_state != AppState::Game && final(self).app_state == AppState::Game)
                ==> {
                &&& final(self).enemies@.len() == ENEMY_COUNT
                &&& final(self).stars@.len() == STAR_COUNT
                &&& final(self).player is Some
                &&& final(self).player.unwrap().pos.x == w.width / 2
                &&& final(self).player.unwrap().pos.y == w.height / 2
                &&& final(self).score.value == 0
                &&& final(self).enemy_timer.accum_ms == 0
                &&& final(self).star_timer.accum_ms == 0
                &&& !final(self).game_over_pending
                &&& final(self).next_id == old(self).next_id + ENEMY_COUNT + STAR_COUNT
            },
            // leaving the game despawns every gameplay entity, nothing else
            (old(self).app_state == AppState::Game && final(self).app_state != AppState::Game)
                ==> {
                &&& final(self).enemies@.len() == 0
                &&& final(self).stars@.len() == 0
                &&& final(self).player is None
                &&& final(self).score == old(self).score
                &&& final(self).enemy_timer == old(self).enemy_timer
                &&& final(self).star_timer == old(self).star_timer
                &&& final(self).game_over_pending == old(self).game_over_pending
                &&& final(self).next_id == old(self).next_id
            },
            // without a session boundary crossing, nothing but the phases moves
            (!(old(self).app_state != AppState::Game && final(self).app_state == AppState::Game)
                && !(old(self).app_state == AppState::Game && final(self).app_state
                != AppState::Game)) ==> {
                &&& final(self).enemies == old(self).enemies
                &&& final(self).stars == old(self).stars
                &&& final(self).player == old(self).player
                &&& final(self).score == old(self).score
                &&& final(self).enemy_timer == old(self).enemy_timer
                &&& final(self).star_timer == old(self).star_timer
                &&& final(self).game_over_pending == old(self).game_over_pending
                &&& final(self).next_id == old(self).next_id
            },
    {
        match req {
            Request::Play => {
                if self.app_state != AppState::Game {
                    self.enter_game(w);
                }
                false
            },
            Request::Restart => {
                if self.app_state == AppState::GameOver {
                    self.enter_game(w);
                }
                false
            },
            Request::MainMenu => {
                if self.app_state == AppState::Game || self.app_state == AppState::GameOver {
                    if self.app_state == AppState::Game {
                        self.enemies = Vec::new();
                        self.stars = Vec::new();
                        self.player = None;
                    }
                    self.app_state = AppState::MainMenu;
                }
                false
            },
            Request::Quit => true,
            Request::TogglePause => {
                if self.app_state == AppState::Game {
                    if self.game_state == GameState::Running {
                        self.game_state = GameState::Paused;
                    } else {
                        self.game_state = GameState::Running;
                    }
                }
                false
            },
            Request::Resume => {
                if self.app_state == AppState::Game && self.game_state == GameState::Paused {
                    self.game_state = GameState::Running;
                }
                false
            },
        }
    }

    /// Gameplay systems run this frame only in this state.
    pub open spec fn is_running(self) -> bool {
        self.game_state == GameState::Running && self.app_state == AppState::Game
    }

    /// Advance both spawn timers by the frame's elapsed time; stands
    /// still outside the running state.
    pub fn tick_timers(&mut self, elapsed: u64)
        requires
            old(self).wf(),
            old(self).enemy_timer.accum_ms + elapsed <= u64::MAX,
            old(self).star_timer.accum_ms + elapsed <= u64::MAX,
        ensures
            final(self).wf(),
            !old(self).is_running() ==> *final(self) == *old(self),
            old(self).is_running() ==> {
                &&& final(self).enemy_timer.accum_ms == old(self).enemy_timer.accum_ms + elapsed
                &&& final(self).star_timer.accum_ms == old(self).star_timer.accum_ms + elapsed
                &&& final(self).enemy_timer.interval_ms == old(self).enemy_timer.interval_ms
                &&& final(self).star_timer.interval_ms == old(self).star_timer.interval_ms
            },
            final(self).app_state == old(self).app_state,
            final(self).game_state == old(self).game_state,
            final(self).score == old(self).score,
            final(self).player == old(self).player,
            final(self).enemies == old(self).enemies,
            final(self).stars == old(self).stars,
            final(self).game_over_pending == old(self).game_over_pending,
            final(self).next_id == old(self).next_id,
    {
        let run = self.game_state == GameState::Running && self.app_state == AppState::Game;
        if run {
            self.enemy_timer.tick(elapsed);
            self.star_timer.tick(elapsed);
        }
    }

    /// Spawn one enemy when the enemy timer owes a firing: consume the
    /// firing (overshoot carries forward) and place a fresh enemy at a
    /// random in-bounds position.  Stands still outside the running
    /// state.
    pub fn spawn_enemy_if_due(&mut self, w: Window)
        requires
            old(self).wf(),
            w.wf(),
            old(self).next_id < u64::MAX,
        ensures
            final(self).wf(),
            final(self).app_state == old(self).app_state,
            final(self).game_state == old(self).game_state,
            final(self).score == old(self).score,
            final(self).player == old(self).player,
            final(self).stars == old(self).stars,
            final(self).star_timer == old(self).star_timer,
            final(self).game_over_pending == old(self).game_over_pending,
            !old(self).is_running() ==> *final(self) == *old(self),
            old(self).is_running() && old(self).enemy_timer.accum_ms >= old(
                self,
            ).enemy_timer.interval_ms ==> {
                &&& final(self).enemy_timer.accum_ms == old(self).enemy_timer.accum_ms - old(
                    self,
                ).enemy_timer.interval_ms
                &&& final(self).enemy_timer.interval_ms == old(self).enemy_timer.interval_ms
                &&& final(self).enemies@.len() == old(self).enemies@.len() + 1
                &&& final(self).enemies@.subrange(0, old(self).enemies@.len() as int) == old(
                    self,
                ).enemies@
                &&& final(self).enemies@.last().id == old(self).next_id
                &&& in_bounds(final(self).enemies@.last().pos, ENEMY_RADIUS, w)
                &&& final(self).next_id == old(self).next_id + 1
            },
            old(self).is_running() && old(self).enemy_timer.accum_ms < old(
                self,
            ).enemy_timer.interval_ms ==> {
                &&& final(self).enemy_timer == old(self).enemy_timer
                &&& final(self).enemies == old(self).enemies
                &&& final(self).next_id == old(self).next_id
            },
    {
        let run = self.game_state == GameState::Running && self.app_state == AppState::Game;
        if run {
            let fired = self.enemy_timer.consume_if_due();
            if fired {
                let e = new_random_enemy(self.next_id, w);
                self.enemies.push(e);
                self.next_id = self.next_id + 1;
                proof {
                    assert(self.enemies@.subrange(0, old(self).enemies@.len() as int)
                        =~= old(self).enemies@);
                }
            }
        }
    }

    /// Spawn one star when the star timer owes a firing; the star-timer
    /// counterpart of `spawn_enemy_if_due`.
    pub fn spawn_star_if_due(&mut self, w: Window)
        requires
            old(self).wf(),
            w.wf(),
            old(self).next_id < u64::MAX,
        ensures
            final(self).wf(),
            final(self).app_state == old(self).app_state,
            final(self).game_state == old(self).game_state,
            final(self).score == old(self).score,
            final(self).player == old(self).player,
            final(self).enemies == old(self).enemies,
            final(self).enemy_timer == old(self).enemy_timer,
            final(self).game_over_pending == old(self).game_over_pending,
            !old(self).is_running() ==> *final(self) == *old(self),
            old(self).is_running() && old(self).star_timer.accum_ms >= old(
                self,
            ).star_timer.interval_ms ==> {
                &&& final(self).star_timer.accum_ms == old(self).star_timer.accum_ms - old(
                    self,
                ).star_timer.interval_ms
                &&& final(self).star_timer.interval_ms == old(self).star_timer.interval_ms
                &&& final(self).stars@.len() == old(self).stars@.len() + 1
                &&& final(self).stars@.subrange(0, old(self).stars@.len() as int) == old(
                    self,
                ).stars@
                &&& final(self).stars@.last().id == old(self).next_id
                &&& in_bounds(final(self).stars@.last().pos, STAR_RADIUS, w)
                &&& final(self).next_id == old(self).next_id + 1
            },
            old(self).is_running() && old(self).star_timer.accum_ms < old(
                self,
            ).star_timer.interval_ms ==> {
                &&& final(self).star_timer == old(self).star_timer
                &&& final(self).stars == old(self).stars
                &&& final(self).next_id == old(self).next_id
            },
    {
        let run = self.game_state == GameState::Running && self.app_state == AppState::Game;
        if run {
            let fired = self.star_timer.consume_if_due();
            if fired {
                let s = new_random_star(self.next_id, w);
                self.stars.push(s);
                self.next_id = self.next_id + 1;
                proof {
                    assert(self.stars@.subrange(0, old(self).stars@.len() as int)
                        =~= old(self).stars@);
                }
            }
        }
    }

    /// Integrate the player's eight-way input motion for one frame and
    /// confine it to the window; a pure clamp, no side effect.  Stands
    /// still outside the running state or when no player exists.
    pub fn move_player(
        &mut self,
        left: bool,
        down: bool,
        right: bool,
        up: bool,
        elapsed: u64,
        w: Window,
    )
        requires
            old(self).wf(),
            w.wf(),
            elapsed <= MAX_ELAPSED_MS,
        ensures
            final(self).wf(),
            final(self).app_state == old(self).app_state,
            final(self).game_state == old(self).game_state,
            final(self).score == old(self).score,
            final(self).enemies == old(self).enemies,
            final(self).stars == old(self).stars,
            final(self).enemy_timer == old(self).enemy_timer,
            final(self).star_timer == old(self).star_timer,
            final(self).game_over_pending == old(self).game_over_pending,
            final(self).next_id == old(self).next_id,
            (old(self).is_running() && old(self).player is Some) ==> {
                &&& final(self).player is Some
                &&& final(self).player.unwrap().pos.x == player_x_after(
                    old(self).player.unwrap(),
                    left,
                    down,
                    right,
                    up,
                    elapsed,
                    w,
                )
                &&& final(self).player.unwrap().pos.y == player_y_after(
                    old(self).player.unwrap(),
                    left,
                    down,
                    right,
                    up,
                    elapsed,
                    w,
                )
                &&& in_bounds(final(self).player.unwrap().pos, PLAYER_RADIUS, w)
                &&& final(self).player == Some(
                    player_after(old(self).player.unwrap(), left, down, right, up, elapsed, w),
                )
            },
            !(old(self).is_running() && old(self).player is Some) ==> final(self).player == old(
                self,
            ).player,
    {
        let run = self.game_state == GameState::Running && self.app_state == AppState::Game;
        if run {
            match self.player {
                Some(p) => {
                    let mut moved = p;
                    player_step(&mut moved, left, down, right, up, elapsed, w);
                    self.player = Some(moved);
                },
                None => {},
            }
        }
    }

    /// Integrate every enemy's motion, confine each to the window and
    /// reflect the velocity on every clamped axis; returns how many
    /// bounce cues are owed, one per bouncing enemy.  Stands still
    /// outside the running state.
    #[verifier::loop_isolation(false)]
    pub fn move_enemies(&mut self, elapsed: u64, w: Window) -> (bounces: usize)
        requires
            old(self).wf(),
            w.wf(),
            elapsed <= MAX_ELAPSED_MS,
        ensures
            final(self).wf(),
            final(self).app_state == old(self).app_state,
            final(self).game_state == old(self).game_state,
            final(self).score == old(self).score,
            final(self).player == old(self).player,
            final(self).stars == old(self).stars,
            final(self).enemy_timer == old(self).enemy_timer,
            final(self).star_timer == old(self).star_timer,
            final(self).game_over_pending == old(self).game_over_pending,
            final(self).next_id == old(self).next_id,
            !old(self).is_running() ==> final(self).enemies == old(self).enemies && bounces == 0,
            old(self).is_running() ==> {
                &&& final(self).enemies@.len() == old(self).enemies@.len()
                &&& forall|i: int|
                    0 <= i < old(self).enemies@.len() ==> final(self).enemies@[i]
                        == enemy_after_step(#[trigger] old(self).enemies@[i], elapsed, w)
                &&& forall|i: int|
                    0 <= i < final(self).enemies@.len() ==> in_bounds(
                        (#[trigger] final(self).enemies@[i]).pos,
                        ENEMY_RADIUS,
                        w,
                    )
                &&& bounces == count_bounced(old(self).enemies@, elapsed, w)
            },
    {
        let run = self.game_state == GameState::Running && self.app_state == AppState::Game;
        if !run {
            return 0;
        }
        let n = self.enemies.len();
        let mut bounces: usize = 0;
        let mut i: usize = 0;
        while i < n
            invariant
                old(self).is_running(),
                n == old(self).enemies@.len(),
                i <= n,
                bounces <= i,
                self.app_state == old(self).app_state,
                self.game_state == old(self).game_state,
                self.score == old(self).score,
                self.player == old(self).player,
                self.stars == old(self).stars,
                self.enemy_timer == old(self).enemy_timer,
                self.star_timer == old(self).star_timer,
                self.game_over_pending == old(self).game_over_pending,
                self.next_id == old(self).next_id,
                self.enemies@.len() == n,
                forall|j: int|
                    0 <= j < i ==> self.enemies@[j] == enemy_after_step(
                        #[trigger] old(self).enemies@[j],
                        elapsed,
                        w,
                    ),
                forall|j: int|
                    0 <= j < i ==> in_bounds((#[trigger] self.enemies@[j]).pos, ENEMY_RADIUS, w),
                forall|j: int| 0 <= j < i ==> (#[trigger] self.enemies@[j]).wf(),
                forall|j: int| i <= j < n ==> self.enemies@[j] == old(self).enemies@[j],
                bounces == count_bounced(old(self).enemies@.take(i as int), elapsed, w),
            decreases n - i,
        {
            let mut e = self.enemies[i];
            let bounced = enemy_step(&mut e, elapsed, w);
            self.enemies.set(i, e);
            if bounced {
                bounces = bounces + 1;
            }
            proof {
                let pfx = old(self).enemies@.take(i as int + 1);
                assert(pfx.drop_last() =~= old(self).enemies@.take(i as int));
                assert(pfx.last() == old(self).enemies@[i as int]);
            }
            i = i + 1;
        }
        proof {
            assert(old(self).enemies@.take(n as int) =~= old(self).enemies@);
            assert forall|a: int| 0 <= a < self.enemies@.len() implies (#[trigger] self.enemies@[a]).id
                == old(self).enemies@[a].id by {
                assert(self.enemies@[a] == enemy_after_step(old(self).enemies@[a], elapsed, w));
            }
            assert forall|a: int, b: int|
                #![trigger self.enemies@[a], self.enemies@[b]]
                0 <= a < b < self.enemies@.len() implies self.enemies@[a].id
                != self.enemies@[b].id by {
                assert(self.enemies@[a].id == old(self).enemies@[a].id);
                assert(self.enemies@[b].id == old(self).enemies@[b].id);
                assert(old(self).enemies@[a].id != old(self).enemies@[b].id);
            }
        }
        bounces
    }

    /// Collect every star the player currently touches: each one is
    /// destroyed, the score goes up by one per star, and one collection
    /// cue per star is owed.  Several stars can be collected in one
    /// frame.  Stands still outside the running state or when no player
    /// exists.
    #[verifier::loop_isolation(false)]
    pub fn collect_stars(&mut self) -> (collected: usize)
        requires
            old(self).wf(),
            old(self).score.value + old(self).stars@.len() <= u32::MAX,
        ensures
            final(self).wf(),
            final(self).app_state == old(self).app_state,
            final(self).game_state == old(self).game_state,
            final(self).player == old(self).player,
            final(self).enemies == old(self).enemies,
            final(self).enemy_timer == old(self).enemy_timer,
            final(self).star_timer == old(self).star_timer,
            final(self).game_over_pending == old(self).game_over_pending,
            final(self).next_id == old(self).next_id,
            (old(self).is_running() && old(self).player is Some) ==> {
                &&& final(self).stars@ == surviving_stars(
                    old(self).player.unwrap(),
                    old(self).stars@,
                )
                &&& collected == count_collected(old(self).player.unwrap(), old(self).stars@)
                &&& collected + final(self).stars@.len() == old(self).stars@.len()
                &&& final(self).score.value == old(self).score.value + collected
            },
            !(old(self).is_running() && old(self).player is Some) ==> final(self).stars == old(
                self,
            ).stars && final(self).score == old(self).score && collected == 0,
    {
        let run = self.game_state == GameState::Running && self.app_state == AppState::Game;
        if !run {
            return 0;
        }
        let p = match self.player {
            Some(p) => p,
            None => {
                return 0;
            },
        };
        let n = self.stars.len();
        let mut kept: Vec<Star> = Vec::new();
        let mut collected: usize = 0;
        let mut i: usize = 0;
        while i < n
            invariant
                old(self).is_running(),
                old(self).player is Some,
                p == old(self).player.unwrap(),
                n == old(self).stars@.len(),
                i <= n,
                *self == *old(self),
                kept@ == surviving_stars(p, old(self).stars@.take(i as int)),
                collected == count_collected(p, old(self).stars@.take(i as int)),
                collected + kept@.len() == i,
            decreases n - i,
        {
            let s = self.stars[i];
            if circles_hit(p.pos, PLAYER_RADIUS, s.pos, STAR_RADIUS) {
                collected = collected + 1;
            } else {
                kept.push(s);
            }
            proof {
                let pfx = old(self).stars@.take(i as int + 1);
                assert(pfx.drop_last() =~= old(self).stars@.take(i as int));
                assert(pfx.last() == old(self).stars@[i as int]);
            }
            i = i + 1;
        }
        proof {
            assert(old(self).stars@.take(n as int) =~= old(self).stars@);
            lemma_surviving_stars_sound(p, old(self).stars@);
            lemma_surviving_ids_unique(p, old(self).stars@);
            assert forall|j: int| 0 <= j < kept@.len() implies (#[trigger] kept@[j]).wf()
                && kept@[j].id < self.next_id by {
                let k = choose|k: int|
                    0 <= k < old(self).stars@.len() && old(self).stars@[k] == kept@[j];
                assert(old(self).stars@[k].wf());
            }
        }
        self.stars = kept;
        self.score.value = self.score.value + (collected as u32);
        collected
    }

    /// Check the player against every enemy: on the first contact the
    /// player is destroyed, one hit cue is owed, and the game-over event
    /// is raised exactly once, however many enemies are in range.
    /// Stands still outside the running state or when no player exists.
    #[verifier::loop_isolation(false)]
    pub fn check_enemy_collisions(&mut self) -> (hit: bool)
        requires
            old(self).wf(),
        ensures
            final(self).wf(),
            final(self).app_state == old(self).app_state,
            final(self).game_state == old(self).game_state,
            final(self).score == old(self).score,
            final(self).enemies == old(self).enemies,
            final(self).stars == old(self).stars,
            final(self).enemy_timer == old(self).enemy_timer,
            final(self).star_timer == old(self).star_timer,
            final(self).next_id == old(self).next_id,
            (old(self).is_running() && old(self).player is Some) ==> hit == any_enemy_hits(
                old(self).player.unwrap(),
                old(self).enemies@,
            ),
            !(old(self).is_running() && old(self).player is Some) ==> !hit,
            hit ==> final(self).player is None && final(self).game_over_pending,
            !hit ==> final(self).player == old(self).player && final(self).game_over_pending
                == old(self).game_over_pending,
    {
        let run = self.game_state == GameState::Running && self.app_state == AppState::Game;
        if !run {
            return false;
        }
        let p = match self.player {
            Some(p) => p,
            None => {
                return false;
            },
        };
        let n = self.enemies.len();
        let mut i: usize = 0;
        while i < n
            invariant
                old(self).is_running(),
                old(self).player is Some,
                p == old(self).player.unwrap(),
                n == old(self).enemies@.len(),
                i <= n,
                *self == *old(self),
                forall|j: int|
                    0 <= j < i ==> !enemy_hits_player(p, #[trigger] old(self).enemies@[j]),
            decreases n - i,
        {
            let e = self.enemies[i];
            if circles_hit(p.pos, PLAYER_RADIUS, e.pos, ENEMY_RADIUS) {
                self.player = None;
                self.game_over_pending = true;
                return true;
            }
            i = i + 1;
        }
        false
    }

    /// Consume a pending game-over event: the application phase moves
    /// from play to the game-over screen and every gameplay entity is
    /// despawned.  Without a pending event (or outside play) nothing
    /// changes.
    pub fn consume_game_over(&mut self) -> (transitioned: bool)
        requires
            old(self).wf(),
        ensures
            final(self).wf(),
            transitioned == (old(self).game_over_pending && old(self).app_state
                == AppState::Game),
            !transitioned ==> *final(self) == *old(self),
            transitioned ==> {
                &&& final(self).app_state == AppState::GameOver
                &&& final(self).game_state == old(self).game_state
                &&& final(self).score == old(self).score
                &&& final(self).player is None
                &&& final(self).enemies@.len() == 0
                &&& final(self).stars@.len() == 0
                &&& final(self).enemy_timer == old(self).enemy_timer
                &&& final(self).star_timer == old(self).star_timer
                &&& !final(self).game_over_pending
                &&& final(self).next_id == old(self).next_id
            },
    {
        if self.game_over_pending && self.app_state == AppState::Game {
            self.app_state = AppState::GameOver;
            self.game_over_pending = false;
            self.enemies = Vec::new();
            self.stars = Vec::new();
            self.player = None;
            true
        } else {
            false
        }
    }
}

/// One star's collection test: the player touches it when their centres
/// are strictly closer than the sum of their radii.
pub open spec fn star_collected_by(p: Player, s: Star) -> bool {
    circles_hit_spec(p.pos, PLAYER_RADIUS, s.pos, STAR_RADIUS)
}

/// One enemy's collision test against the player.
pub open spec fn enemy_hits_player(p: Player, e: Enemy) -> bool {
    circles_hit_spec(p.pos, PLAYER_RADIUS, e.pos, ENEMY_RADIUS)
}

/// Whether any enemy of the sequence touches the player.
pub open spec fn any_enemy_hits(p: Player, s: Seq<Enemy>) -> bool {
    exists|i: int| 0 <= i < s.len() && enemy_hits_player(p, #[trigger] s[i])
}

/// The stars that survive one collision pass, in their original order.
pub open spec fn surviving_stars(p: Player, s: Seq<Star>) -> Seq<Star>
    decreases s.len(),
{
    if s.len() == 0 {
        Seq::empty()
    } else {
        let rest = surviving_stars(p, s.drop_last());
        if star_collected_by(p, s.last()) {
            rest
        } else {
            rest.push(s.last())
        }
    }
}

/// How many stars of the sequence the player touches.
pub open spec fn count_collected(p: Player, s: Seq<Star>) -> nat
    decreases s.len(),
{
    if s.len() == 0 {
        0
    } else {
        count_collected(p, s.drop_last()) + if star_collected_by(p, s.last()) {
            1nat
        } else {
            0nat
        }
    }
}

/// How many enemies of the sequence bounce off a boundary this frame.
pub open spec fn count_bounced(s: Seq<Enemy>, elapsed: u64, w: Window) -> nat
    decreases s.len(),
{
    if s.len() == 0 {
        0
    } else {
        count_bounced(s.drop_last(), elapsed, w) + if enemy_bounced(s.last(), elapsed, w) {
            1nat
        } else {
            0nat
        }
    }
}

/// Every survivor of a collision pass is an untouched star of the
/// original sequence, and every untouched star survives.
pub proof fn lemma_surviving_stars_sound(p: Player, s: Seq<Star>)
    ensures
        forall|j: int|
            0 <= j < surviving_stars(p, s).len() ==> !star_collected_by(
                p,
                #[trigger] surviving_stars(p, s)[j],
            ) && s.contains(surviving_stars(p, s)[j]),
        forall|i: int|
            0 <= i < s.len() && !star_collected_by(p, #[trigger] s[i]) ==> surviving_stars(
                p,
                s,
            ).contains(s[i]),
        surviving_stars(p, s).len() + count_collected(p, s) == s.len(),
    decreases s.len(),
{
    if s.len() > 0 {
        lemma_surviving_stars_sound(p, s.drop_last());
        assert forall|j: int| 0 <= j < surviving_stars(p, s).len() implies !star_collected_by(
            p,
            #[trigger] surviving_stars(p, s)[j],
        ) && s.contains(surviving_stars(p, s)[j]) by {
            let rest = surviving_stars(p, s.drop_last());
            if j < rest.len() {
                assert(surviving_stars(p, s)[j] == rest[j]);
                let w = choose|k: int|
                    0 <= k < s.drop_last().len() && s.drop_last()[k] == rest[j];
                assert(s[w] == rest[j]);
            } else {
                assert(surviving_stars(p, s)[j] == s.last());
                assert(s[s.len() - 1] == s.last());
            }
        }
        assert forall|i: int|
            0 <= i < s.len() && !star_collected_by(p, #[trigger] s[i]) implies surviving_stars(
            p,
            s,
        ).contains(s[i]) by {
            let rest = surviving_stars(p, s.drop_last());
            if i < s.len() - 1 {
                assert(s.drop_last()[i] == s[i]);
                let w = choose|k: int| 0 <= k < rest.len() && rest[k] == s[i];
                assert(surviving_stars(p, s)[w] == s[i]);
            } else {
                assert(surviving_stars(p, s)[rest.len() as int] == s.last());
            }
        }
    }
}

/// A collision pass keeps star ids unique: the survivors are distinct
/// members of the original sequence.
pub proof fn lemma_surviving_ids_unique(p: Player, s: Seq<Star>)
    requires
        forall|i: int, j: int|
            #![trigger s[i], s[j]]
            0 <= i < j < s.len() ==> s[i].id != s[j].id,
    ensures
        forall|i: int, j: int|
            #![trigger surviving_stars(p, s)[i], surviving_stars(p, s)[j]]
            0 <= i < j < surviving_stars(p, s).len() ==> surviving_stars(p, s)[i].id
                != surviving_stars(p, s)[j].id,
    decreases s.len(),
{
    if s.len() > 0 {
        let prev = s.drop_last();
        assert forall|i: int, j: int|
            #![trigger prev[i], prev[j]]
            0 <= i < j < prev.len() implies prev[i].id != prev[j].id by {
            assert(prev[i] == s[i]);
            assert(prev[j] == s[j]);
        }
        lemma_surviving_ids_unique(p, prev);
        lemma_surviving_stars_sound(p, prev);
        let rest = surviving_stars(p, prev);
        if !star_collected_by(p, s.last()) {
            assert forall|j: int| 0 <= j < rest.len() implies rest[j].id != s.last().id by {
                let k = choose|k: int| 0 <= k < prev.len() && prev[k] == rest[j];
                assert(s[k] == rest[j]);
                assert(s[k].id != s[s.len() - 1].id);
            }
        }
    }
}

/// Once a star in range was collected, no star with its id survives
/// the pass (star ids are unique).
pub proof fn lemma_collected_star_gone(p: Player, s: Seq<Star>, i: int)
    requires
        0 <= i < s.len(),
        star_collected_by(p, s[i]),
        forall|a: int, b: int|
            #![trigger s[a], s[b]]
            0 <= a < b < s.len() ==> s[a].id != s[b].id,
    ensures
        forall|j: int|
            0 <= j < surviving_stars(p, s).len() ==> (#[trigger] surviving_stars(p, s)[j]).id
                != s[i].id,
{
    lemma_surviving_stars_sound(p, s);
    let kept = surviving_stars(p, s);
    assert forall|j: int| 0 <= j < kept.len() implies (#[trigger] kept[j]).id != s[i].id by {
        let k = choose|k: int| 0 <= k < s.len() && s[k] == kept[j];
        if k < i {
            assert(s[k].id != s[i].id);
        } else if i < k {
            assert(s[i].id != s[k].id);
        }
    }
}

/// One frame's worth of input: at most one externally triggered request
/// plus the four held movement keys.
#[derive(Clone, Copy, Debug)]
pub struct FrameInput {
    pub request: Option<Request>,
    pub left: bool,
    pub down: bool,
    pub right: bool,
    pub up: bool,
}

/// What one frame hands back to the outside collaborators: fire-and-
/// forget audio cues, the star-collected events for the score display,
/// the game-over event, and the quit intent.
#[derive(Clone, Copy, PartialEq, Eq, Structural, Debug)]
pub struct FrameEvents {
    /// One enemy-bounce cue per enemy that touched a boundary.
    pub bounce_cues: usize,
    /// One star-collected event (and cue) per star picked up.
    pub collect_cues: usize,
    /// The player was hit this frame.
    pub hit_cue: bool,
    /// The game-over event fired (and was consumed) this frame.
    pub game_over: bool,
    /// The process was asked to exit.
    pub quit: bool,
}

/// The application phase after honouring an optional request.
pub open spec fn req_app_state_after(req: Option<Request>, app: AppState) -> AppState {
    match req {
        Some(r) => app_state_after(r, app),
        None => app,
    }
}

/// The run phase after honouring an optional request.
pub open spec fn req_game_state_after(
    req: Option<Request>,
    app: AppState,
    game: GameState,
) -> GameState {
    match req {
        Some(r) => game_state_after(r, app, game),
        None => game,
    }
}

/// Whether the request starts a fresh game session.
pub open spec fn request_enters_game(req: Option<Request>, app: AppState) -> bool {
    app != AppState::Game && req_app_state_after(req, app) == AppState::Game
}

impl GameWorld {
    /// One full frame, in the fixed deterministic order: transition
    /// requests, timer advance, spawn-if-due, movement and confinement,
    /// star collection, enemy collision, and finally consumption of a
    /// raised game-over event.
    pub fn step_frame(&mut self, input: FrameInput, elapsed: u64, w: Window) -> (ev: FrameEvents)
        requires
            old(self).wf(),
            w.wf(),
            elapsed <= MAX_ELAPSED_MS,
            !old(self).game_over_pending,
            old(self).enemy_timer.accum_ms + elapsed <= u64::MAX,
            old(self).star_timer.accum_ms + elapsed <= u64::MAX,
            old(self).score.value + old(self).stars@.len() + 1 <= u32::MAX,
            old(self).next_id + ENEMY_COUNT + STAR_COUNT + 2 <= u64::MAX,
        ensures
            final(self).wf(),
            ev.quit == (input.request == Some(Request::Quit)),
            ev.game_over == ev.hit_cue,
            final(self).game_state == req_game_state_after(
                input.request,
                old(self).app_state,
                old(self).game_state,
            ),
            !ev.game_over ==> final(self).app_state == req_app_state_after(
                input.request,
                old(self).app_state,
            ),
            ev.game_over ==> {
                &&& final(self).app_state == AppState::GameOver
                &&& final(self).player is None
                &&& final(self).enemies@.len() == 0
                &&& final(self).stars@.len() == 0
            },
            final(self).score.value == (if request_enters_game(input.request, old(self).app_state) {
                0int
            } else {
                old(self).score.value as int
            }) + ev.collect_cues,
            !final(self).game_over_pending,
            (input.request is None && !old(self).is_running()) ==> {
                &&& *final(self) == *old(self)
                &&& ev.bounce_cues == 0
                &&& ev.collect_cues == 0
                &&& !ev.hit_cue
                &&& !ev.game_over
                &&& !ev.quit
            },
            // a plain running frame moves the player exactly as the
            // movement-and-confinement rule says
            (input.request is None && old(self).is_running() && old(self).player is Some
                && !ev.hit_cue) ==> final(self).player == Some(
                player_after(
                    old(self).player.unwrap(),
                    input.left,
                    input.down,
                    input.right,
                    input.up,
                    elapsed,
                    w,
                ),
            ),
            // ... and steps every enemy that was already alive
            (input.request is None && old(self).is_running() && !ev.hit_cue) ==> {
                &&& final(self).enemies@.len() >= old(self).enemies@.len()
                &&& forall|i: int|
                    0 <= i < old(self).enemies@.len() ==> final(self).enemies@[i]
                        == enemy_after_step(#[trigger] old(self).enemies@[i], elapsed, w)
            },
            // while the enemy timer is not due, nothing spawns and the
            // bounce cues count exactly the enemies that hit a wall
            (input.request is None && old(self).is_running() && !ev.hit_cue && old(
                self,
            ).enemy_timer.accum_ms + elapsed < old(self).enemy_timer.interval_ms) ==> {
                &&& final(self).enemies@.len() == old(self).enemies@.len()
                &&& ev.bounce_cues == count_bounced(old(self).enemies@, elapsed, w)
            },
            // while the star timer is not due, collection runs on exactly
            // the old stars against the moved player
            (input.request is None && old(self).is_running() && old(self).player is Some
                && !ev.hit_cue && old(self).star_timer.accum_ms + elapsed < old(
                self,
            ).star_timer.interval_ms) ==> {
                &&& final(self).stars@ == surviving_stars(
                    player_after(
                        old(self).player.unwrap(),
                        input.left,
                        input.down,
                        input.right,
                        input.up,
                        elapsed,
                        w,
                    ),
                    old(self).stars@,
                )
                &&& ev.collect_cues == count_collected(
                    player_after(
                        old(self).player.unwrap(),
                        input.left,
                        input.down,
                        input.right,
                        input.up,
                        elapsed,
                        w,
                    ),
                    old(self).stars@,
                )
            },
    {
        let quit = match input.request {
            Some(r) => self.apply_request(r, w),
            None => false,
        };
        self.tick_timers(elapsed);
        self.spawn_enemy_if_due(w);
        self.spawn_star_if_due(w);
        self.move_player(input.left, input.down, input.right, input.up, elapsed, w);
        let bounces = self.move_enemies(elapsed, w);
        let collected = self.collect_stars();
        let hit = self.check_enemy_collisions();
        let went_over = self.consume_game_over();
        FrameEvents {
            bounce_cues: bounces,
            collect_cues: collected,
            hit_cue: hit,
            game_over: went_over,
            quit,
        }
    }
}

} // verus!
