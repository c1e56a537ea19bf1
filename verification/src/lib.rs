//! Interactive volume-control dashboard: the application state machine,
//! the key-to-command dispatcher, the event-loop step function, and the
//! deterministic mapping from state to a rendered frame description.
//!
//! Terminal rendering and raw input capture are external collaborators;
//! this crate holds the logic that decides what happens and what is shown.

pub mod app;
pub mod frame;
pub mod input;
pub mod tabs;
