//! A bridge between a single-threaded UI message loop and asynchronous
//! command handlers: commands are decoded, buffered in a bounded mailbox,
//! started under a concurrency policy, and answered through exactly one
//! UI-side continuation each.
//!
//! - [`wire`]: the wire command and how a wire string decodes to one.
//! - [`json`]: the JSON documents underneath, handled by `serde_json`.
//! - [`mailbox`]: the bounded first-in, first-out dispatch channel.
//! - [`worker`]: the concurrency policy of the worker runtime.
//! - [`callback`]: the answer that goes back to the UI.
//! - [`model`]: the bridge as a state machine over plain values.
//! - [`bridge`]: the bridge itself, which the hook and the worker drive.
//! - [`laws`]: what holds of every run of a bridge.

pub mod bridge;
pub mod callback;
pub mod json;
pub mod laws;
pub mod mailbox;
pub mod model;
pub mod wire;
pub mod worker;
