//! Lifecycle management and request/response communication for long-running
//! child worker processes.
//!
//! The crate models a generic process supervisor (a state machine over
//! configure / start / stop / poll / spawn events), the line-delimited JSON
//! request/response transport spoken to a persistent speech worker over its
//! standard streams, and the simpler signal-only lifecycle of an HTTP-serving
//! inference worker.  All decisions — when to spawn, when a start must be
//! rejected, what a stop plan contains, how a worker's reply line is
//! interpreted — are verified here; the host application performs the actual
//! process and stream operations and feeds their outcomes back in.

pub mod audio;
pub mod chat;
pub mod emotion;
pub mod errors;
pub mod json;
pub mod llama;
pub mod strutil;
pub mod supervisor;
pub mod transport;
pub mod tts;
