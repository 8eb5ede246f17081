//! Gameplay rules of a small 2D avoidance game: how the held direction keys
//! turn into a movement step, what starting a run asks of the engine, the
//! score kept by the scene controller, and the game's tuning values.
//! The engine bindings and the floating-point motion live outside this crate.
pub mod input;
pub mod scene;
pub mod tuning;
