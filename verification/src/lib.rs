//! Pre-flight validation of the external development tools that the project's
//! tasks run: which binary stands for a tool, whether its version fits, and
//! under which environment it has to be started.

pub mod checks;
pub mod command;
pub mod config;
pub mod error;
pub mod ordered_map;
pub mod pattern;
pub mod probe;
pub mod resolution;
pub mod search_path;
pub mod session;
pub mod text;
pub mod tool;
pub mod validation;
pub mod version;
