//! A verified chunk hand-off protocol for streaming HTTP-style body data.
//!
//! The crate models a producer/consumer hand-off over a single reusable
//! buffer region: a stream core hands out at most one data chunk at a time,
//! and may only produce the next chunk once the previous one has been
//! released by its consumer. The waker type is kept generic, so the state
//! machine can be driven by any executor's resumption handles.

pub mod body;
pub mod data;
pub mod laws;
pub mod state;
