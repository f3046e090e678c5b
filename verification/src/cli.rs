//! The command line as plain values: one variant per subcommand, one field
//! per flag or argument. Parsing the arguments is left to the program that
//! uses the library.
use vstd::prelude::*;

verus! {

/// A parsed invocation of `jolt`.
#[derive(Debug)]
pub struct Cli {
    pub command: Commands,
}

/// The subcommands of `jolt` and their options.
#[derive(Debug)]
pub enum Commands {
    /// Creates a new project, module or monorepo workspace.
    Init {
        name: Option<String>,
        template: Option<String>,
        list_templates: bool,
        package: Option<String>,
        group_id: Option<String>,
        workspace: bool,
    },
    /// Adds a `groupId:artifactId[:version[:classifier]]` dependency.
    Add { dependency: String, dev: bool, member: Option<String> },
    /// Searches Maven Central.
    Search { query: String, limit: usize },
    /// Removes a `groupId:artifactId` dependency.
    Remove { dependency: String, member: Option<String> },
    /// Resolves and links the dependencies.
    Install { locked: bool, all: bool, member: Option<String> },
    /// Compiles and packages (plain JAR, fat JAR, launcher or installer).
    Build {
        standalone: bool,
        package: bool,
        installer: bool,
        name: Option<String>,
        upx: bool,
        native: bool,
        download_jdk: bool,
        add_to_path: bool,
        scope: Option<String>,
        all: bool,
        member: Option<String>,
    },
    /// Packages a native launcher or installer; the `--type` flag is
    /// held in `pkg_type`.
    Package {
        pkg_type: Option<String>,
        dest: Option<String>,
        name: Option<String>,
        app_version: Option<String>,
        main_class: Option<String>,
        icon: Option<String>,
        java_options: Option<String>,
        upx: bool,
        no_upx: bool,
        add_to_path: bool,
        scope: Option<String>,
        member: Option<String>,
        verbose: bool,
    },
    /// Compiles and runs, optionally restarting on changes.
    Run { watch: bool, member: Option<String>, download_jdk: bool },
    /// Runs the JUnit 5 tests.
    Test { all: bool, member: Option<String>, download_jdk: bool },
    /// Re-links dependencies and regenerates the IDE configuration.
    Sync { all: bool, member: Option<String> },
    /// Diagnoses the environment and the current project.
    Check,
}

} // verus!
