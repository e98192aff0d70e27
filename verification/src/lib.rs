//! Supervision core for a headless streaming-client device.
//!
//! The crate holds the pieces of the client that carry real state-machine
//! logic, each with a verified contract:
//!
//! - [`notifier`]: translates playback events into the JSON-RPC command that
//!   a media-server control surface expects, as a value describing one HTTP
//!   request; the caller performs the actual send.
//! - [`policy`]: the sliding-window rate limiter that bounds automatic
//!   reconnection after unexpected session drops.
//! - [`orchestrator`]: the connection life-cycle state machine that
//!   multiplexes discovery, connect completion, the shutdown signal,
//!   protocol-task completion and playback events, and decides the actions
//!   the surrounding event loop must perform.
//!
//! All I/O (the HTTP post, the session protocol, signal handling) stays
//! outside the crate; the library computes decisions and request values from
//! plain inputs.

pub mod device;
pub mod digits;
pub mod event;
pub mod notifier;
pub mod orchestrator;
pub mod policy;
