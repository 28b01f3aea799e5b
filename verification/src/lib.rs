//! A command/event bridge between a host runtime and a native window loop.
//!
//! The host enqueues tagged commands (create a window, resize it, run a
//! script, close it); a single loop thread executes them against the native
//! toolkit and reports completion back through one-shot sinks. Native-side
//! callbacks (an in-page message, a close request, a resize) re-enter the
//! same queue, so every window mutation funnels through one serialization
//! point.
//!
//! This crate holds the verified core of that bridge: the envelope types,
//! the window registry, the loop-thread transition function and the native
//! callback adapter. The unverifiable shell — the actual toolkit calls and
//! the host-runtime marshaling — lives outside and drives this core by
//! feeding it events and performing the effects it returns.

pub mod adapter;
pub mod bridge;
pub mod envelope;
mod geometry;
pub mod guarantees;
pub mod registry;

pub use geometry::center_position;
