//! A path that is meant to be deleted when the scope that owns it ends, and
//! the names that such paths are given.
pub mod naming;
pub mod scoped;

pub use naming::create_temp_path_at_directory;
pub use scoped::{AutoDeletePath, Removal};
