//! Verified core of a command-line manager for libkrun microVMs: parsing
//! and validation of user input, VM configuration edits, and the plans that
//! the front end carries out against buildah, libkrun and the control socket.

pub mod text;
pub mod shell;
pub mod mac;
pub mod capability;
pub mod strmap;
pub mod decimal;
pub mod pairs;
pub mod config;
pub mod buildah;
pub mod balloon;
pub mod commands;
pub mod utils;
