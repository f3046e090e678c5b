//! Packaging a built application: fat JARs, native images, jpackage app
//! images and installers.
pub mod jar;
pub mod jpackage;
pub mod nsis;

pub use jar::FatJarEntries;
pub use nsis::generate_nsis_script;
