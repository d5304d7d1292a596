//! The core of a durable-execution worker, written without I/O.
//!
//! A partition processor replays an ordered log, fences duplicates and stale
//! leaders, and plans what has to be stored before anything is handed to an
//! actuator. An invocation task drives one service invocation over a
//! bidirectional stream. Both are state machines from events to directives:
//! the caller performs the directives and reports back what happened.

pub mod dedup;
pub mod envelope;
pub mod error;
pub mod history;
pub mod identifiers;
pub mod ingress;
pub mod invocation_task;
pub mod leadership;
pub mod partition;
pub mod processor;
pub mod protocol;
pub mod request;
pub mod status;
pub mod store;
pub mod task;
pub mod task_history;
pub mod transport;
