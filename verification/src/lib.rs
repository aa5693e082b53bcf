//! Presentation loop core of a keyboard-controlled speedcube simulator.
//!
//! The host owns the window, the GPU and the widgets. This crate owns the
//! decisions: which consumer sees an input event and in what order, when a
//! frame is due, what to do when the presentation surface cannot be acquired,
//! which texture backs the content view, and which style profile is in force.
//! Every decision is a function from a state and an observation to a new state
//! and a command for the host, so the host loop only carries the commands out.
//!
//! - [`event`]: the events of the window system.
//! - [`chain`]: the priority chain of consumers, and a pass of an event over it.
//! - [`schedule`]: frame pacing and the measured frame rate.
//! - [`surface`]: the presentation surface and the policy on failed acquisition.
//! - [`texture`]: the texture that carries the content view into the UI layer.
//! - [`theme`]: the style profile.
//! - [`dispatch`]: the control loop that holds the others together.
//! - [`clock`]: the monotonic clock that instants are read from.
//! - [`icon`]: the window icon, decoded from a PNG file.

pub mod chain;
pub mod clock;
pub mod dispatch;
pub mod event;
pub mod icon;
pub mod schedule;
pub mod surface;
pub mod texture;
pub mod theme;
