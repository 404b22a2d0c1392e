//! Lifecycle management for a bundled backend ("sidecar") process.
//!
//! A desktop shell launches a long-running backend executable alongside
//! itself, keeps exclusive ownership of the child's process handle for the
//! whole run, and continuously drains the child's output so the child never
//! blocks on a full buffer. The decisions of that supervision loop (when to
//! spawn, when to keep waiting, when the run is over) live here as a verified
//! state machine; the host application performs the process and stream
//! operations the machine asks for and reports back what happened.

pub mod laws;
pub mod supervisor;
