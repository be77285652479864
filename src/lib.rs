//! Keeps the screen awake while a camera is in use.
//!
//! The library decides; the program around it watches device nodes and talks
//! to the compositor.

pub mod text;
pub mod activity;
pub mod aggregator;
pub mod discovery;
