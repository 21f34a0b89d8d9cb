//! The concrete worker kinds a coordinator can delegate to.

pub mod coder;
pub mod file_manager;
pub mod shell;
