//! Core logic for a single-entity 2D canvas game.
//!
//! The library holds everything that can be stated and proved: the
//! keyboard-driven input state and its fixed key table, the fixed-point
//! movement step with normalization and boundary clamping, the generation
//! of render commands, and the frame-scheduler state machine. The hosting
//! layer (DOM setup, event wiring, the actual drawing calls and the
//! animation-frame loop) lives outside and only feeds plain values in and
//! carries render commands out.
//!
//! Coordinates, sizes and speeds are fixed-point integers: one logical
//! unit is `SUBS_PER_UNIT` sub-units, so an 800x600 surface is
//! 800_000 x 600_000 sub-units.

pub mod entity;
pub mod input;
pub mod render;
pub mod scheduler;
pub mod update;

pub use entity::Entity;
pub use input::Dir;
pub use input::InputState;
pub use render::DrawCmd;
pub use render::Rgb;
pub use scheduler::FrameClock;
pub use scheduler::Game;
