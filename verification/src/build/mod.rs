//! Compiling, running and testing a project.
pub mod compiler;
pub mod launch;

pub use compiler::{join_classpath, main_class_from_source};
