//! The subcommands: what each decides, apart from the I/O that carries it out.

pub mod balloon;
pub mod changevm;
pub mod create;
pub mod start;
pub mod start_macos;
pub mod list;
