//! Core logic of a command-line client for the CoinPaprika market-data API:
//! credential resolution, request construction and error classification,
//! rendering of results as tables or JSON, the mapping from commands to
//! requests, and the interactive shell's line handling.
//!
//! Nothing here reads or writes: every function takes plain values and
//! returns the request to send or the text to write.

pub mod client;
pub mod commands;
pub mod config;
pub mod dispatch;
pub mod output;
pub mod shell;
pub mod text;
