//! Core simulation of a small arcade game: a player collects stars and
//! dodges bouncing enemies inside a rectangular window, across a
//! menu / play / pause / game-over flow.
//!
//! Coordinates and radii are fixed-point integers in milli-units
//! (1000 units = one pixel of window space), so every position, speed
//! and collision check is exact integer arithmetic.  Randomness enters
//! only through draws reduced to closed integer ranges; everything done
//! with a draw is verified for every value it can take.

pub mod entities;
pub mod geom;
pub mod phase;
pub mod rng;
pub mod score;
pub mod timer;
pub mod world;

pub use entities::Enemy;
pub use entities::Player;
pub use entities::Star;
pub use geom::Vec2i;
pub use geom::Window;
pub use phase::AppState;
pub use phase::GameState;
pub use phase::Request;
pub use score::Score;
pub use timer::SpawnTimer;
pub use world::FrameEvents;
pub use world::FrameInput;
pub use world::GameWorld;
