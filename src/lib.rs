//! Runtime core of a 2D sprite renderer: draw-command queueing, quad assembly,
//! texture-atlas UV mapping with flips, depth layering and GPU state-change
//! planning. The actual GPU calls are made by the embedding application, which
//! executes the operations this library plans.
pub mod linalg;
pub mod texture;
pub mod color;
pub mod draw_command;
pub mod renderer;
pub mod lemmas;
pub mod entities;
pub mod sprites;
pub mod asset_system;
pub mod game;
