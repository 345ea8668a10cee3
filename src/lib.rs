//! In-memory description of a project tree (directories holding files), the
//! plan that materialises it, and a typed package manifest.

pub mod builder;
pub mod path;
pub mod project;
pub mod rust_tools;

pub use project::{Action, Dir, File, Project};
