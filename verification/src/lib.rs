//! Lifecycle supervisor for a single long-running worker process (the
//! "sidecar"): resolving which interpreter to run, planning the bootstrap of
//! an isolated runtime environment, building the worker invocation from a
//! validated start configuration, relaying its line-oriented output in order,
//! enforcing a single-active-instance invariant, and driving an escalating
//! termination sequence.
//!
//! Everything here is pure decision logic over plain values: the host binary
//! probes the filesystem, spawns processes and delivers signals, and feeds
//! the observed outcomes back into these verified transition functions.

pub mod bootstrap;
pub mod config;
pub mod launcher;
pub mod lifecycle;
pub mod relay;
pub mod resolver;
pub mod supervisor;
pub mod terminator;
pub mod text;
