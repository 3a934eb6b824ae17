//! Native-side command bridge for a desktop application whose interface runs
//! in an embedded web rendering surface.
//!
//! The crate has two halves with a one-directional dependency:
//!
//! * [`registry`] — the command registry: a mapping from command names to
//!   native handlers, with safe registration and invocation.
//! * [`runtime`] — the host runtime lifecycle: a state machine that creates
//!   the native process, attaches the UI surface, routes incoming requests to
//!   the registry while the event loop runs, and tears everything down.
//!
//! The bridge itself is synchronous and in-memory: a request carries a command
//! name and an optional input payload, and the response carries either the
//! command's output or a structured error.

pub mod bridge;
pub mod errors;
pub mod handler;
pub mod registry;
pub mod runtime;
