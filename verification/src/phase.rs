use vstd::prelude::*;

verus! {

/// Top-level application phase: menu, playing, or game-over screen.
#[derive(Clone, Copy, PartialEq, Eq, Structural, Debug)]
pub enum AppState {
    MainMenu,
    Game,
    GameOver,
}

/// Running / paused sub-mode, meaningful only while the application
/// phase is `Game`; reset to `Running` whenever a game is entered.
#[derive(Clone, Copy, PartialEq, Eq, Structural, Debug)]
pub enum GameState {
    Running,
    Paused,
}

impl Default for AppState {
    /// The process starts on the main menu.
    fn default() -> (s: AppState)
        ensures
            s == AppState::MainMenu,
    {
        AppState::MainMenu
    }
}

impl Default for GameState {
    fn default() -> (s: GameState)
        ensures
            s == GameState::Running,
    {
        GameState::Running
    }
}

/// An externally triggered intent, each idempotent against the current
/// state: invalid requests are silently ignored.
#[derive(Clone, Copy, PartialEq, Eq, Structural, Debug)]
pub enum Request {
    /// Start playing (from the menu or the game-over screen).
    Play,
    /// Start a fresh game; honoured only on the game-over screen.
    Restart,
    /// Back to the main menu; honoured from play or game-over.
    MainMenu,
    /// Leave the process; never changes the simulation state.
    Quit,
    /// Flip running/paused; honoured only during play.
    TogglePause,
    /// Back to running; honoured only while paused during play.
    Resume,
}

/// Gameplay systems (spawning, movement, collisions) run only while
/// playing and not paused.
pub fn running(game_state: &GameState, app_state: &AppState) -> (r: bool)
    ensures
        r == (*game_state == GameState::Running && *app_state == AppState::Game),
{
    *game_state == GameState::Running && *app_state == AppState::Game
}

/// A pause submenu is open only while paused during play.
pub fn paused(game_state: &GameState, app_state: &AppState) -> (r: bool)
    ensures
        r == (*game_state == GameState::Paused && *app_state == AppState::Game),
{
    *game_state == GameState::Paused && *app_state == AppState::Game
}

/// The application phase a request leads to.  Requests for the phase
/// already active, and requests invalid in the current phase, change
/// nothing.
pub open spec fn app_state_after(req: Request, app: AppState) -> AppState {
    match req {
        Request::Play => AppState::Game,
        Request::Restart => if app == AppState::GameOver {
            AppState::Game
        } else {
            app
        },
        Request::MainMenu => if app == AppState::Game || app == AppState::GameOver {
            AppState::MainMenu
        } else {
            app
        },
        Request::Quit => app,
        Request::TogglePause => app,
        Request::Resume => app,
    }
}

/// The run phase a request leads to.  Entering the game resets it to
/// `Running`; the pause toggle and resume are honoured only during play.
pub open spec fn game_state_after(req: Request, app: AppState, game: GameState) -> GameState {
    if app_state_after(req, app) == AppState::Game && app != AppState::Game {
        GameState::Running
    } else if app == AppState::Game && req == Request::TogglePause {
        if game == GameState::Running {
            GameState::Paused
        } else {
            GameState::Running
        }
    } else if app == AppState::Game && req == Request::Resume && game == GameState::Paused {
        GameState::Running
    } else {
        game
    }
}

} // verus!
