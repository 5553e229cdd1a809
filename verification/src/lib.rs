//! Core of a minimal windowed GPU application: the surface-lifecycle and
//! frame-loop state machine behind a renderer that clears the screen and
//! draws one fixed six-vertex quad.
//!
//! The platform layer owns the OS window and the live GPU handles; this
//! crate owns every decision made over them: which adapter and pixel format
//! a fresh context selects, what configuration the surface is (re)applied
//! with on resize and on surface loss, and how each lifecycle and redraw
//! event moves the event loop's state and control flow.

pub mod config;
pub mod context;
pub mod frame;
pub mod pipeline;
