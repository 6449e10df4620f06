//! Verified core of the SeggWat command-line client.
pub mod text;
pub mod models;
pub mod error;
pub mod cli;
pub mod client;
pub mod auth;
pub mod commands;
pub mod output;
pub mod tui;
