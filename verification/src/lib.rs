//! Multi-window session state manager for a windowing framework.
//!
//! The library owns the model of every open window (its flags, size,
//! position and frame timestamps), a current-window selector, an event
//! translator that folds a drained platform event queue into window
//! state, and a frame pacer that decides when a frame wait is over.
//! Platform calls (window creation, rendering, input polling) live
//! outside the library; it is handed plain values and returns plain
//! values.

pub mod events;
pub mod laws;
pub mod ops;
pub mod registry;
pub mod session;
pub mod types;
pub mod window;

pub use types::Color;
