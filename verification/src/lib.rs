//! Simulation core of a grid-based snake arcade game.
//!
//! The library owns the authoritative game state and advances it one
//! discrete tick at a time from elapsed time and buffered directional
//! input. It covers the snake body and movement rule, wall and self
//! collision, apple placement, the input-direction queue with reversal
//! prevention, and the speed policy that varies the tick interval with
//! the score. Rendering, windowing and the event loop are collaborators
//! that live outside this crate and drive it through plain values.

pub mod collision;
pub mod direction;
pub mod game;
pub mod queue;
pub mod segment;
pub mod spawn;
pub mod speed;

pub use direction::Direction;
pub use direction::check_directions;
pub use game::Game;
pub use game::GameSettings;
pub use queue::InputQueue;
pub use segment::Segment;
