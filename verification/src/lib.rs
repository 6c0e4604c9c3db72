//! The control core of an engine that a host process drives across a
//! foreign-function boundary.
//!
//! The host submits batches of commands and polls batches of normalized events.
//! This crate holds the rules of that boundary: the lifecycle of the single
//! engine instance and its owner thread, the two-phase exchange of
//! variable-length buffers, the keyed buffer store, the translation of raw
//! platform notifications into the event model, and the dispatch of commands.
//! Windowing, GPU and gamepad collaborators stay outside: what they deliver
//! comes in as plain values, and what they must do goes out as plain values.

pub mod result;
pub mod units;
pub mod events;
pub mod raw;
pub mod convert;
pub mod cmd;
pub mod surface;
pub mod state;
pub mod normalize;
pub mod win;
pub mod dispatch;
pub mod exchange;
pub mod wire;
pub mod tick;
pub mod engine;
pub mod laws;
