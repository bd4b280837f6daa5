//! A single-user key-value store driven by one command at a time.
//!
//! The store keeps its entries in memory, reads them from a line-oriented
//! text and writes them back as such. Every command is checked against the
//! entries before it changes anything, and answers with a confirmation or
//! with a warning that may ask the user to confirm.

pub mod actions;
pub mod arguments;
pub mod codec;
pub mod constants;
pub mod controller;
pub mod error_handler;
pub mod extensions;
pub mod failures;
pub mod interface;
pub mod operation;
pub mod reisbase;
pub mod success;
pub mod terminal_communication;
pub mod text;
