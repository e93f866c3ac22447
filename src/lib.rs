//! Supervision of one long-running child process: a slot that tracks at most
//! one handle, and the rules by which the child's event stream is drained.
//!
//! The operating-system work (spawning, killing, waiting for events, writing
//! diagnostics) is done by the host around this library. What is decided here
//! is which handle is tracked, which handle must be killed, which diagnostic
//! each event produces and when draining ends.

mod supervisor;
mod drain;

pub use supervisor::{StartError, Supervisor};
pub use drain::{Diagnostic, DrainReport, Step, StreamEvent, drain_events, handle_event};
