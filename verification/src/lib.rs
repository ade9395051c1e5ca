//! Decisions of an ad-hoc HTTP file server: which address and port it binds,
//! which asset it serves, what it answers to a request and what it logs.
//!
//! The library decides and formats; it opens no file and no socket. Its
//! callers read files, probe ports and run the listener, and hand the
//! outcomes in as plain values.

pub mod access_log;
pub mod address;
pub mod args;
pub mod asset;
pub mod clock;
pub mod config;
pub mod handler;
pub mod http;
pub mod ports;
pub mod seqs;
pub mod startup;
pub mod style;
pub mod substitute;
pub mod text;
