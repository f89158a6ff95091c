//! An execution bridge between concurrent callers and a single-thread-affine
//! scripting engine.
//!
//! Callers submit script text through a [`bridge::Bridge`]; a dedicated worker
//! thread owns the one engine instance, executes each submitted script in
//! strict submission order, and answers every accepted command with exactly
//! one [`protocol::Response`]. The decision logic — how an engine outcome is
//! classified, how a reply resolves a call, when the worker stops — lives
//! here, verified; the thread, the engine and the event loop that drive it
//! live outside, in the embedding layer.

pub mod bridge;
pub mod channel;
pub mod laws;
pub mod platform;
pub mod protocol;
pub mod worker;
