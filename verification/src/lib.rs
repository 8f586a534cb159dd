//! Verified core of an interactive window edge-drag resize controller.
//!
//! The library models the subsystem over plain integer coordinates: a
//! classifier that turns a cursor position into a resize direction, a
//! geometry engine that applies a drag delta under aspect-ratio and
//! min/max constraints, a rate limiter for high-report-rate mice, a
//! bounded event queue, and the press/hover/drag state machine that
//! ties them together. The surrounding process (OS mouse hook, window
//! system calls) lives outside the library and exchanges plain values
//! with it.

pub mod bridge;
pub mod classifier;
pub mod controller;
pub mod cursor_icon;
pub mod engine;
pub mod events;
pub mod geometry;
pub mod rate_limiter;
