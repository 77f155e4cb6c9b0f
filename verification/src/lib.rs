//! Orchestration core for timed, stateful experiment blocks.
//!
//! The crate models the lifecycle machinery that runs one experiment block:
//! FIFO signal queues, the sync and async processor loops, the per-tick
//! scheduler (interrupt gesture, edge-triggered keys), the streaming-media
//! decode protocol, and the action tree with its uniform lifecycle contract.
//! Thread plumbing, rendering and file I/O live outside the library; every
//! decision the core makes is a verified function over plain values.

pub mod action;
pub mod assets;
pub mod config;
pub mod error;
pub mod logger;
pub mod processor;
pub mod queue;
pub mod resource;
pub mod scheduler;
pub mod signal;
pub mod task;
pub mod util;
