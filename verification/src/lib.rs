//! Bounded-concurrency bulk document uploader, verified.
//!
//! The heart of the crate is the ingestion pipeline: a producer walks
//! file trees and enqueues paths, workers run a retry state machine
//! against a remote "create document" call, a pacing controller slows
//! the producer down when the remote side signals distress, and a drain
//! loop waits for quiescence before the final tally is printed.
//!
//! Everything that decides or computes lives here with a contract; the
//! shell that does I/O (directory walking, HTTP, threads, sleeping)
//! hands plain values in and takes plain values back.
//!
//! - [`retry`] — the per-item retry state machine and the run counters;
//! - [`engine`] — a whole run, executed sequentially over scripted
//!   attempt outcomes, with its accounting laws;
//! - [`queue`] — the FIFO of work items and the tagged shutdown signal;
//! - [`pace`] — the tick-budget pacing controller and its lower bounds;
//! - [`drain`] — the bounded wait for queue quiescence;
//! - [`ids`] — document id allocation and rendering;
//! - [`numbers`] — hexadecimal and decimal rendering and parsing;
//! - [`report`] — the final tally and its rendered lines;
//! - [`select`] — picking environments, collections and configurations;
//! - [`display`] — decisions behind the overview output;
//! - [`cli`] — the command-line surface as plain data.

pub mod cli;
pub mod display;
pub mod drain;
pub mod engine;
pub mod ids;
pub mod numbers;
pub mod pace;
pub mod queue;
pub mod report;
pub mod retry;
pub mod select;
