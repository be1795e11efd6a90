//! A multi-session gateway core for interactive agentic CLI children.
//!
//! Sessions are identified by UUID strings. Each session owns a pseudo
//! terminal and a transcript tailer; the core interprets transcript records
//! through a pure state machine and derives the events that are broadcast to
//! subscribers. All I/O lives outside this crate; the logic here is verified.

pub mod actor;
pub mod bootstrap;
pub mod claude;
pub mod json;
pub mod manager;
pub mod session_id;
pub mod shell;
pub mod terminal;
pub mod text;
pub mod transcript;
pub mod ws;
