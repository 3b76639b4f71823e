//! Supervisor core for a desktop application that launches and tears down a
//! single Python web-service child process.
//!
//! The crate holds the decision logic of that supervisor: version-string
//! parsing, interpreter selection, the start/stop state machine, and the
//! dependency-check rules. Everything effectful (spawning, killing, probing
//! the filesystem, running the interpreter) is performed by the embedding
//! application, which feeds the observed results back into these verified
//! transition functions as plain values.

pub mod deps;
pub mod detect;
pub mod supervisor;
pub mod text;
pub mod version;
