//! The `jolt.toml` manifest as plain values, and what the build reads out of
//! it.
use vstd::prelude::*;

verus! {

/// `[workspace]`: the member directories of a monorepo.
#[derive(Debug)]
pub struct Workspace {
    pub members: Vec<String>,
}

/// `[project]`.
#[derive(Debug)]
pub struct Project {
    pub name: String,
    pub version: String,
    pub java_version: Option<String>,
    pub main_class: Option<String>,
    pub package: Option<String>,
    pub group_id: Option<String>,
}

/// `[graalvm]` (or `[package.graalvm]`).
#[derive(Debug)]
pub struct GraalVmConfig {
    pub enabled: Option<bool>,
    pub args: Option<Vec<String>>,
    pub main_class: Option<String>,
    pub name: Option<String>,
    pub reflection_config: Option<String>,
    pub resources_config: Option<String>,
}

/// `[package.windows]`.
#[derive(Debug)]
pub struct WindowsPackageConfig {
    pub upx: Option<bool>,
    pub upx_args: Option<Vec<String>>,
    pub installer: Option<String>,
    pub add_to_path: Option<bool>,
    pub desktop_shortcut: Option<bool>,
    pub start_menu: Option<bool>,
    pub scope: Option<String>,
    pub license: Option<String>,
}

/// `[package]`; its `type` key is held in `pkg_type`.
#[derive(Debug)]
pub struct PackageConfig {
    pub pkg_type: Option<String>,
    pub name: Option<String>,
    pub main_class: Option<String>,
    pub icon: Option<String>,
    pub vendor: Option<String>,
    pub description: Option<String>,
    pub copyright: Option<String>,
    pub dest: Option<String>,
    pub java_options: Option<Vec<String>>,
    pub windows: Option<WindowsPackageConfig>,
    pub graalvm: Option<GraalVmConfig>,
}

/// The value of one dependency entry: a version string, an inline table
/// (whose string `version` and `path` keys are kept), or anything else.
#[derive(Debug)]
pub enum DependencySpec {
    Version(String),
    Table { version: Option<String>, path: Option<String> },
    Other,
}

/// A whole `jolt.toml`. Dependency tables keep their entries in the order
/// they were read.
#[derive(Debug)]
pub struct JoltManifest {
    pub workspace: Option<Workspace>,
    pub project: Option<Project>,
    pub package: Option<PackageConfig>,
    pub graalvm: Option<GraalVmConfig>,
    pub dependencies: Option<Vec<(String, DependencySpec)>>,
    pub dev_dependencies: Option<Vec<(String, DependencySpec)>>,
}

/// The GraalVM configuration in force: the top-level table, else the one
/// nested in `[package]`.
pub open spec fn graalvm_config_spec(m: JoltManifest) -> Option<GraalVmConfig> {
    match m.graalvm {
        Some(g) => Some(g),
        None => match m.package {
            Some(p) => p.graalvm,
            None => None,
        },
    }
}

/// The version and local path a dependency entry declares.
pub open spec fn dependency_spec_parts(val: DependencySpec) -> (Option<String>, Option<String>) {
    match val {
        DependencySpec::Version(s) => (Some(s), None),
        DependencySpec::Table { version, path } => (version, path),
        DependencySpec::Other => (None, None),
    }
}

/// The local paths of the path dependencies among `deps`, in order.
pub open spec fn local_paths(deps: Seq<(String, DependencySpec)>) -> Seq<String>
    decreases deps.len(),
{
    if deps.len() == 0 {
        Seq::empty()
    } else {
        let rest = local_paths(deps.drop_last());
        match dependency_spec_parts(deps.last().1).1 {
            Some(p) => rest.push(p),
            None => rest,
        }
    }
}

pub fn clone_opt_string(o: &Option<String>) -> (r: Option<String>)
    ensures
        r == *o,
{
    match o {
        Some(s) => Some(s.clone()),
        None => None,
    }
}

impl JoltManifest {
    /// `true` when the manifest declares a multi-module workspace.
    pub fn is_workspace(&self) -> (b: bool)
        ensures
            b == self.workspace is Some,
    {
        self.workspace.is_some()
    }

    /// The GraalVM configuration, at the top level or inside `[package]`.
    pub fn graalvm_config(&self) -> (r: Option<&GraalVmConfig>)
        ensures
            match r {
                Some(g) => graalvm_config_spec(*self) == Some(*g),
                None => graalvm_config_spec(*self) is None,
            },
    {
        match &self.graalvm {
            Some(g) => Some(g),
            None => match &self.package {
                Some(p) => match &p.graalvm {
                    Some(g) => Some(g),
                    None => None,
                },
                None => None,
            },
        }
    }

    /// The version and/or local path that a dependency entry declares.
    pub fn parse_dependency_spec(val: &DependencySpec) -> (r: (Option<String>, Option<String>))
        ensures
            r == dependency_spec_parts(*val),
    {
        match val {
            DependencySpec::Version(s) => (Some(s.clone()), None),
            DependencySpec::Table { version, path } => (
                clone_opt_string(version),
                clone_opt_string(path),
            ),
            DependencySpec::Other => (None, None),
        }
    }

    /// The local paths of the production path dependencies, in order.
    pub fn local_dependency_paths(&self) -> (r: Vec<String>)
        ensures
            r@ == (match self.dependencies {
                Some(d) => local_paths(d@),
                None => Seq::empty(),
            }),
    {
        let mut r: Vec<String> = Vec::new();
        match &self.dependencies {
            None => {},
            Some(deps) => {
                let mut i: usize = 0;
                while i < deps.len()
                    invariant
                        i <= deps@.len(),
                        r@ == local_paths(deps@.take(i as int)),
                    decreases deps.len() - i,
                {
                    assert(deps@.take(i + 1).drop_last() =~= deps@.take(i as int));
                    let (_v, p) = Self::parse_dependency_spec(&deps[i].1);
                    match p {
                        Some(path) => r.push(path),
                        None => {},
                    }
                    i += 1;
                }
                assert(deps@.take(deps@.len() as int) =~= deps@);
            },
        }
        r
    }
}

} // verus!
