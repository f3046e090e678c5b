use vstd::prelude::*;

pub mod text;
pub mod checker;
pub mod paths;
pub mod toolchain;
pub mod cache;
pub mod manifest;
pub mod resolver;
pub mod packaging;
pub mod build;
pub mod cli;
pub mod install;
pub mod scaffold;
pub mod engine;
pub mod lockfile;
pub mod checksum;
pub mod manifest_edit;

verus! {
}
