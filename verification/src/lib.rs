//! Verified core of `pushit`, a command-line tool that sends push
//! notifications through named profiles stored in a user tier and a
//! system tier.

pub mod cli;
pub mod command_laws;
pub mod commands;
pub mod config;
pub mod error;
pub mod laws;
pub mod paths;
pub mod profile;
pub mod service;
pub mod text;
