//! Command-line interface module
//!
//! Holds the command-line grammar and the reporting of results; the program prints what
//! the reporters produce.
pub mod args;
pub mod init;
pub mod output;

pub use self::args::{Args, Command};
pub use self::output::Reporter;
