//! Bootstrap and command-dispatch layer of a long-running network service.
//!
//! The library models what one process invocation decides: how the effective
//! log verbosity and the configuration file path are resolved from the parsed
//! command line, the pre-flight gate that refuses to enter the run loop
//! unless a configuration file exists at the resolved path, and how the
//! result of the dispatched server start is handled. Every decision is a
//! pure, verified function from plain values to a plan of effects; the thin
//! executable around the library parses arguments, touches the filesystem
//! and the logging sink, and carries the plan out in order.

pub mod invocation;
pub mod level;
pub mod plan;
