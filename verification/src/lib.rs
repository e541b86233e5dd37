//! Game-logic core of a small "flappy bird" style arcade game.
//!
//! The library models the per-frame update rules — gravity integration,
//! procedural pipe placement, axis-aligned collision tests, the jump
//! impulse, sprite animation, score display and the game-mode state
//! machine — over plain integer world coordinates, and proves each rule
//! against its contract. Rendering, windowing, input polling and the
//! frame scheduler are the host's business and live outside this crate.

pub mod animation;
pub mod bird;
pub mod collision;
pub mod game;
pub mod pipes;
pub mod score;
pub mod state;
pub mod timer;
pub mod world;
