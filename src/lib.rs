//! Supervision of the engine sidecar: the child process that serves the
//! desktop application's logic over a local port.
//!
//! The library decides; the host performs. Spawning and killing the process,
//! draining its output stream and driving the tray are done by the host
//! around the decisions made here, which are verified.
pub mod error;

pub mod supervisor;
pub mod relay;
pub mod tray;
