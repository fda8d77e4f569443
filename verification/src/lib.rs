//! Verified core of a one-shot tool that binds a CSV or JSON file to a table
//! name and runs one SQL statement against it.
//!
//! The query engine, the decoding of files and the drawing of tables belong to
//! outside collaborators. This library holds what the tool itself decides: how
//! a path is resolved to an ingestion format, which names a session has bound,
//! which error is reported for which failure, how many rows were printed, and
//! in which order the steps of a run follow each other.
//!
//! Work that only a collaborator can do (asking the engine to load a table or
//! to run a statement, writing a batch to the output) is done by whoever
//! drives the library. The library says what is to be done, takes in how it
//! went, and decides what follows.

pub mod cli;
pub mod engine;
pub mod error;
pub mod format;
pub mod path;
pub mod render;
pub mod resolver;
pub mod shell;

pub use cli::CliArgs;
pub use engine::QueryEngine;
pub use error::SqlStreamError;
