//! Capture resource manager for a built-in camera.
//!
//! The library owns the two state machines behind a camera adapter's
//! channels: a lazily started, cached live-view stream session and an
//! on/off disk-recording controller. Both are driven through explicit
//! state transitions so that the launch and termination of the external
//! capture engine (an OS process or a media pipeline) can be performed
//! by the embedding program while every decision — routing, idempotent
//! start/stop, backend fallback, error reporting — is verified here.

pub mod adapter;
pub mod engine;
pub mod errors;
pub mod live;
pub mod pipeline;
pub mod recording;
pub mod values;
