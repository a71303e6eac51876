//! What the command line asks for, turned into run configurations.

pub mod config;
pub mod exec;
pub mod launch;
