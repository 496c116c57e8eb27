//! Supervised container lifecycle.
//!
//! A small verified library around one piece of engineering logic: invoking a
//! container-management executable and guaranteeing that a container started
//! for a unit of work is torn down again on every path out of that work.
//!
//! - [`runner`] models a single command invocation: the argument tokens are
//!   handed to the operating system as discrete strings (never joined into a
//!   shell line), and the captured output is interpreted as trimmed UTF-8 text
//!   or rejected with a fatal error.
//! - [`lifecycle`] is the supervision state machine: start a container, run
//!   the unit of work, fetch diagnostics when the work failed, and always
//!   issue exactly one teardown call once the start step has succeeded.

pub mod lifecycle;
pub mod runner;
