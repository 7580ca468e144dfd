//! Turns short command phrases into macOS system actions and the shell
//! commands that carry them out.

pub mod cli;
pub mod exec;
pub mod intent;
pub mod output;
pub mod text;
