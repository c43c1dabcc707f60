//! The NDJSON protocol spoken with the browser bridge child process.
pub mod command;
pub mod event;
pub mod protocol;
pub mod spawn;
