//! What `jolt init` writes: the project's name, Java package, group id and
//! main class, the template's directories and files, and the workspace
//! skeleton.
use vstd::prelude::*;
use crate::build::compiler::{alphanumeric, is_alphanumeric};
use crate::cache::{group_path, group_path_exec};
use crate::paths::{join_spec, last_segment, path_file_name, path_join, plain_segment};
use crate::text::{chars_eq, chars_of, copy_string, push_str, split_char, split_chars, string_of, trim, trim_chars};
use crate::toolchain::detector::{lowercase_of, to_lowercase};
use crate::scaffold::templates::{
    cli_toml_spec, cli_toml, cli_main_java_spec, cli_main_java, cli_main_test_java_spec, cli_main_test_java, cli_reflect_config_spec, cli_reflect_config, javafx_toml_spec, javafx_toml, javafx_app_java_spec, javafx_app_java, javafx_main_java_spec, javafx_main_java, swing_toml_spec, swing_toml, swing_main_java_spec, swing_main_java, swing_test_java_spec, swing_test_java, web_toml_spec, web_toml, web_main_java_spec, web_main_java, web_test_java_spec, web_test_java, spring_toml_spec, spring_toml, spring_main_java_spec, spring_main_java, spring_test_java_spec, spring_test_java, minimal_toml_spec, minimal_toml, minimal_main_java_spec, minimal_main_java, minimal_test_java_spec, minimal_test_java,
};

pub mod templates;
pub mod ide;

verus! {

/// The project templates.
#[derive(Debug, PartialEq, Eq, Structural)]
pub enum TemplateKind {
    Minimal,
    Cli,
    JavaFx,
    Swing,
    Web,
    Spring,
}

/// The template a (lowercased) name selects; `spring-boot` is another name
/// for `spring`.
pub open spec fn template_kind_spec(t: Seq<char>) -> Option<TemplateKind> {
    if t == "minimal"@ {
        Some(TemplateKind::Minimal)
    } else if t == "cli"@ {
        Some(TemplateKind::Cli)
    } else if t == "javafx"@ {
        Some(TemplateKind::JavaFx)
    } else if t == "swing"@ {
        Some(TemplateKind::Swing)
    } else if t == "web"@ {
        Some(TemplateKind::Web)
    } else if t == "spring"@ || t == "spring-boot"@ {
        Some(TemplateKind::Spring)
    } else {
        None
    }
}

fn str_is(s: &[char], lit: &str) -> (b: bool)
    ensures
        b == (s@ == lit@),
{
    let l = chars_of(lit);
    chars_eq(s, l.as_slice())
}

/// The template named `t`, or the message for an unknown name.
pub fn template_kind(t: &str) -> (r: Result<TemplateKind, String>)
    ensures
        match r {
            Ok(k) => template_kind_spec(t@) == Some(k),
            Err(e) => template_kind_spec(t@) is None && e@ == "Plantilla '"@ + t@
                + "' no reconocida."@,
        },
{
    let c = chars_of(t);
    let s = c.as_slice();
    if str_is(s, "minimal") {
        Ok(TemplateKind::Minimal)
    } else if str_is(s, "cli") {
        Ok(TemplateKind::Cli)
    } else if str_is(s, "javafx") {
        Ok(TemplateKind::JavaFx)
    } else if str_is(s, "swing") {
        Ok(TemplateKind::Swing)
    } else if str_is(s, "web") {
        Ok(TemplateKind::Web)
    } else if str_is(s, "spring") || str_is(s, "spring-boot") {
        Ok(TemplateKind::Spring)
    } else {
        let mut msg = copy_string("Plantilla '");
        push_str(&mut msg, t);
        push_str(&mut msg, "' no reconocida.");
        Err(msg)
    }
}

/// The template asked for, lowercased; `minimal` when none was given.
pub fn normalize_template(template: Option<&str>) -> (r: String)
    ensures
        r@ == match template {
            Some(t) => lowercase_of(t@),
            None => "minimal"@,
        },
{
    match template {
        Some(t) => to_lowercase(t),
        None => copy_string("minimal"),
    }
}

/// The directory to create and the project's name: the path given and its
/// last component as `Path::file_name` reports it (the whole path when it
/// has none), or `app` for both. The last component is a non-empty run of
/// the path's characters; which one depends on the platform's path rules,
/// except for a path without `\\` whose last segment is plain, which gives
/// that segment on every platform.
pub fn resolve_project_location(name: Option<&str>) -> (r: (String, String))
    ensures
        match name {
            Some(n) => {
                &&& r.0@ == n@
                &&& r.1@ == n@ || (r.1@.len() > 0 && exists|i: int|
                    0 <= i && i + r.1@.len() <= n@.len() && #[trigger] n@.subrange(i, i + r.1@.len()) == r.1@)
                &&& !n@.contains('\\') && plain_segment(last_segment(n@)) ==> r.1@ == last_segment(n@)
            },
            None => r.0@ == "app"@ && r.1@ == "app"@,
        },
{
    match name {
        Some(n) => {
            let base = match path_file_name(n) {
                Some(f) => f,
                None => copy_string(n),
            };
            (copy_string(n), base)
        },
        None => (copy_string("app"), copy_string("app")),
    }
}

/// The identifier characters of a name (Unicode letters and digits, `_`).
pub open spec fn ident_chars(s: Seq<char>) -> Seq<char>
    decreases s.len(),
{
    if s.len() == 0 {
        s
    } else {
        let rest = ident_chars(s.drop_last());
        if alphanumeric(s.last()) || s.last() == '_' {
            rest.push(s.last())
        } else {
            rest
        }
    }
}

/// The package proposed for a new project: `org.app.<name>` inside a
/// workspace, else `org.example.<name>`, the name reduced to its
/// identifier characters and lowercased.
pub open spec fn default_package_spec(project_name: Seq<char>, in_workspace: bool) -> Seq<char> {
    (if in_workspace {
        "org.app."@
    } else {
        "org.example."@
    }) + lowercase_of(ident_chars(project_name))
}

pub fn default_package(project_name: &str, in_workspace: bool) -> (r: String)
    ensures
        r@ == default_package_spec(project_name@, in_workspace),
{
    let v = chars_of(project_name);
    let mut kept: Vec<char> = Vec::new();
    let mut i: usize = 0;
    while i < v.len()
        invariant
            i <= v.len(),
            kept@ == ident_chars(v@.take(i as int)),
        decreases v.len() - i,
    {
        assert(v@.take(i + 1).drop_last() =~= v@.take(i as int));
        let c = v[i];
        if is_alphanumeric(c) || c == '_' {
            kept.push(c);
        }
        i += 1;
    }
    assert(v@.take(v.len() as int) =~= v@);
    let ident = string_of(kept.as_slice());
    let lower = to_lowercase(ident.as_str());
    let mut r = if in_workspace {
        copy_string("org.app.")
    } else {
        copy_string("org.example.")
    };
    push_str(&mut r, lower.as_str());
    r
}

/// The package a project is created with: the one given, trimmed, unless
/// that leaves nothing.
pub open spec fn resolved_package(given: Option<Seq<char>>) -> Option<Seq<char>> {
    match given {
        Some(p) => if trim(p).len() == 0 {
            None
        } else {
            Some(trim(p))
        },
        None => None,
    }
}

pub fn resolve_package(given: Option<&str>) -> (r: Option<String>)
    ensures
        match r {
            Some(p) => resolved_package(
                match given {
                    Some(g) => Some(g@),
                    None => None,
                },
            ) == Some(p@),
            None => resolved_package(
                match given {
                    Some(g) => Some(g@),
                    None => None,
                },
            ) is None,
        },
{
    match given {
        Some(g) => {
            let c = chars_of(g);
            let t = trim_chars(c.as_slice());
            if t.len() == 0 {
                None
            } else {
                Some(string_of(t.as_slice()))
            }
        },
        None => None,
    }
}

/// The Maven group id: the one given, else the first two segments of the
/// package (the whole package when it has fewer).
pub open spec fn resolved_group_id(given: Option<Seq<char>>, package: Option<Seq<char>>) -> Option<
    Seq<char>,
> {
    match given {
        Some(g) => Some(g),
        None => match package {
            Some(p) => {
                let parts = split_char(p, '.');
                if parts.len() >= 2 {
                    Some(parts[0] + "."@ + parts[1])
                } else {
                    Some(p)
                }
            },
            None => None,
        },
    }
}

pub fn resolve_group_id(given: Option<&str>, package: Option<&str>) -> (r: Option<String>)
    ensures
        match r {
            Some(g) => resolved_group_id(
                match given {
                    Some(x) => Some(x@),
                    None => None,
                },
                match package {
                    Some(x) => Some(x@),
                    None => None,
                },
            ) == Some(g@),
            None => resolved_group_id(
                match given {
                    Some(x) => Some(x@),
                    None => None,
                },
                match package {
                    Some(x) => Some(x@),
                    None => None,
                },
            ) is None,
        },
{
    match given {
        Some(g) => Some(copy_string(g)),
        None => match package {
            Some(p) => {
                let c = chars_of(p);
                let parts = split_chars(c.as_slice(), '.');
                if parts.len() >= 2 {
                    let mut s = string_of(parts[0].as_slice());
                    push_str(&mut s, ".");
                    let second = string_of(parts[1].as_slice());
                    push_str(&mut s, second.as_str());
                    Some(s)
                } else {
                    Some(copy_string(p))
                }
            },
            None => None,
        },
    }
}

/// `package <pkg>;` followed by a blank line, or nothing.
pub open spec fn package_statement(package: Option<Seq<char>>) -> Seq<char> {
    match package {
        Some(p) => "package "@ + p + ";\n\n"@,
        None => Seq::empty(),
    }
}

/// `<pkg>.Main`, or `Main` without a package.
pub open spec fn main_class_name(package: Option<Seq<char>>) -> Seq<char> {
    match package {
        Some(p) => p + ".Main"@,
        None => "Main"@,
    }
}

/// `<root>/<package as path>`, or `<root>` without a package.
pub open spec fn source_dir(root: Seq<char>, package: Option<Seq<char>>) -> Seq<char> {
    match package {
        Some(p) => join_spec(root, group_path(p)),
        None => root,
    }
}

/// The `[project]` table of a new manifest.
pub open spec fn project_header(
    name: Seq<char>,
    package: Option<Seq<char>>,
    group_id: Option<Seq<char>>,
) -> Seq<char> {
    "[project]\nname = \""@ + name + "\"\nversion = \"0.1.0\"\njava_version = \"21\""@ + (
    match package {
        Some(p) => "\npackage = \""@ + p + "\""@,
        None => Seq::empty(),
    }) + (match group_id {
        Some(g) => "\ngroup_id = \""@ + g + "\""@,
        None => Seq::empty(),
    }) + "\nmain_class = \""@ + main_class_name(package) + "\""@
}

/// The directories a template creates, relative to the project directory.
pub open spec fn template_dirs(kind: TemplateKind, package: Option<Seq<char>>) -> Seq<Seq<char>> {
    let base = seq![
        source_dir("src/main/java"@, package),
        "src/main/resources"@,
        source_dir("src/test/java"@, package),
    ];
    if kind == TemplateKind::Cli {
        base.push("src/main/resources/META-INF/native-image"@)
    } else {
        base
    }
}

/// The files a template writes, as (path relative to the project directory,
/// content), in the order they are written.
pub open spec fn template_files(
    kind: TemplateKind,
    name: Seq<char>,
    package: Option<Seq<char>>,
    group_id: Option<Seq<char>>,
    graalvm: bool,
) -> Seq<(Seq<char>, Seq<char>)> {
    let header = project_header(name, package, group_id);
    let stmt = package_statement(package);
    let main_dir = source_dir("src/main/java"@, package);
    let test_dir = source_dir("src/test/java"@, package);
    match kind {
        TemplateKind::Cli => {
            let reflect = cli_reflect_config_spec(main_class_name(package));
            seq![
                ("jolt.toml"@, cli_toml_spec(header, graalvm, name)),
                (join_spec(main_dir, "Main.java"@), cli_main_java_spec(stmt, name)),
                (join_spec(test_dir, "MainTest.java"@), cli_main_test_java_spec(stmt)),
                ("src/main/resources/reflect-config.json"@, reflect),
                ("src/main/resources/META-INF/native-image/reflect-config.json"@, reflect),
            ]
        },
        TemplateKind::JavaFx => seq![
            ("jolt.toml"@, javafx_toml_spec(header, graalvm, name)),
            (join_spec(main_dir, "App.java"@), javafx_app_java_spec(stmt)),
            (join_spec(main_dir, "Main.java"@), javafx_main_java_spec(stmt)),
        ],
        TemplateKind::Swing => seq![
            ("jolt.toml"@, swing_toml_spec(header, graalvm, name)),
            (join_spec(main_dir, "Main.java"@), swing_main_java_spec(stmt)),
            (join_spec(test_dir, "SwingAppTest.java"@), swing_test_java_spec(stmt)),
        ],
        TemplateKind::Web => seq![
            ("jolt.toml"@, web_toml_spec(header, graalvm, name)),
            (join_spec(main_dir, "Main.java"@), web_main_java_spec(stmt)),
            (join_spec(test_dir, "MainTest.java"@), web_test_java_spec(stmt)),
        ],
        TemplateKind::Spring => seq![
            ("jolt.toml"@, spring_toml_spec(header, graalvm, name)),
            (join_spec(main_dir, "Main.java"@), spring_main_java_spec(stmt)),
            (join_spec(test_dir, "SpringAppTest.java"@), spring_test_java_spec(stmt)),
        ],
        TemplateKind::Minimal => seq![
            ("jolt.toml"@, minimal_toml_spec(header, graalvm, name)),
            (join_spec(main_dir, "Main.java"@), minimal_main_java_spec(stmt)),
            (join_spec(test_dir, "AppTest.java"@), minimal_test_java_spec(stmt)),
        ],
    }
}

/// A new project as `jolt init` lays it out.
pub struct ProjectScaffold {
    pub main_class: String,
    /// Directories to create, relative to the project directory.
    pub directories: Vec<String>,
    /// Files to write: (path relative to the project directory, content).
    pub files: Vec<(String, String)>,
}

pub open spec fn pair_views(v: Seq<(String, String)>) -> Seq<(Seq<char>, Seq<char>)> {
    v.map_values(|p: (String, String)| (p.0@, p.1@))
}

pub open spec fn string_views(v: Seq<String>) -> Seq<Seq<char>> {
    v.map_values(|s: String| s@)
}

pub fn source_dir_exec(root: &str, package: Option<&str>) -> (r: String)
    ensures
        r@ == source_dir(
            root@,
            match package {
                Some(p) => Some(p@),
                None => None,
            },
        ),
{
    match package {
        Some(p) => {
            let rel = group_path_exec(p);
            path_join(root, rel.as_str())
        },
        None => copy_string(root),
    }
}

pub fn project_header_exec(name: &str, package: Option<&str>, group_id: Option<&str>) -> (r: String)
    ensures
        r@ == project_header(
            name@,
            match package {
                Some(p) => Some(p@),
                None => None,
            },
            match group_id {
                Some(g) => Some(g@),
                None => None,
            },
        ),
{
    let mut s = copy_string("[project]\nname = \"");
    push_str(&mut s, name);
    push_str(&mut s, "\"\nversion = \"0.1.0\"\njava_version = \"21\"");
    match package {
        Some(p) => {
            push_str(&mut s, "\npackage = \"");
            push_str(&mut s, p);
            push_str(&mut s, "\"");
        },
        None => {},
    }
    match group_id {
        Some(g) => {
            push_str(&mut s, "\ngroup_id = \"");
            push_str(&mut s, g);
            push_str(&mut s, "\"");
        },
        None => {},
    }
    push_str(&mut s, "\nmain_class = \"");
    match package {
        Some(p) => {
            push_str(&mut s, p);
            push_str(&mut s, ".Main");
        },
        None => push_str(&mut s, "Main"),
    }
    push_str(&mut s, "\"");
    s
}

/// The main class, directories and files of a new project from `kind`.
pub fn scaffold_project(
    kind: &TemplateKind,
    name: &str,
    package: Option<&str>,
    group_id: Option<&str>,
    graalvm: bool,
) -> (r: ProjectScaffold)
    ensures
        r.main_class@ == main_class_name(
            match package {
                Some(p) => Some(p@),
                None => None,
            },
        ),
        string_views(r.directories@) == template_dirs(
            *kind,
            match package {
                Some(p) => Some(p@),
                None => None,
            },
        ),
        pair_views(r.files@) == template_files(
            *kind,
            name@,
            match package {
                Some(p) => Some(p@),
                None => None,
            },
            match group_id {
                Some(g) => Some(g@),
                None => None,
            },
            graalvm,
        ),
{
    let ghost pkg = match package {
        Some(p) => Some(p@),
        None => None,
    };
    let header = project_header_exec(name, package, group_id);
    let stmt = match package {
        Some(p) => {
            let mut s = copy_string("package ");
            push_str(&mut s, p);
            push_str(&mut s, ";\n\n");
            s
        },
        None => String::new(),
    };
    assert(stmt@ == package_statement(pkg));
    let main_class = match package {
        Some(p) => {
            let mut s = copy_string(p);
            push_str(&mut s, ".Main");
            s
        },
        None => copy_string("Main"),
    };
    let main_dir = source_dir_exec("src/main/java", package);
    let test_dir = source_dir_exec("src/test/java", package);
    let mut directories: Vec<String> = Vec::new();
    directories.push(copy_string(main_dir.as_str()));
    directories.push(copy_string("src/main/resources"));
    directories.push(copy_string(test_dir.as_str()));
    if *kind == TemplateKind::Cli {
        directories.push(copy_string("src/main/resources/META-INF/native-image"));
    }
    assert(string_views(directories@) =~= template_dirs(*kind, pkg));
    let mut files: Vec<(String, String)> = Vec::new();
    let h = header.as_str();
    let st = stmt.as_str();
    match kind {
        TemplateKind::Cli => {
            files.push((copy_string("jolt.toml"), cli_toml(h, graalvm, name)));
            files.push((path_join(main_dir.as_str(), "Main.java"), cli_main_java(st, name)));
            files.push((path_join(test_dir.as_str(), "MainTest.java"), cli_main_test_java(st)));
            let reflect = cli_reflect_config(main_class.as_str());
            files.push((copy_string("src/main/resources/reflect-config.json"), copy_string(reflect.as_str())));
            files.push(
                (
                    copy_string("src/main/resources/META-INF/native-image/reflect-config.json"),
                    reflect,
                ),
            );
        },
        TemplateKind::JavaFx => {
            files.push((copy_string("jolt.toml"), javafx_toml(h, graalvm, name)));
            files.push((path_join(main_dir.as_str(), "App.java"), javafx_app_java(st)));
            files.push((path_join(main_dir.as_str(), "Main.java"), javafx_main_java(st)));
        },
        TemplateKind::Swing => {
            files.push((copy_string("jolt.toml"), swing_toml(h, graalvm, name)));
            files.push((path_join(main_dir.as_str(), "Main.java"), swing_main_java(st)));
            files.push((path_join(test_dir.as_str(), "SwingAppTest.java"), swing_test_java(st)));
        },
        TemplateKind::Web => {
            files.push((copy_string("jolt.toml"), web_toml(h, graalvm, name)));
            files.push((path_join(main_dir.as_str(), "Main.java"), web_main_java(st)));
            files.push((path_join(test_dir.as_str(), "MainTest.java"), web_test_java(st)));
        },
        TemplateKind::Spring => {
            files.push((copy_string("jolt.toml"), spring_toml(h, graalvm, name)));
            files.push((path_join(main_dir.as_str(), "Main.java"), spring_main_java(st)));
            files.push((path_join(test_dir.as_str(), "SpringAppTest.java"), spring_test_java(st)));
        },
        TemplateKind::Minimal => {
            files.push((copy_string("jolt.toml"), minimal_toml(h, graalvm, name)));
            files.push((path_join(main_dir.as_str(), "Main.java"), minimal_main_java(st)));
            files.push((path_join(test_dir.as_str(), "AppTest.java"), minimal_test_java(st)));
        },
    }
    assert(pair_views(files@) =~= template_files(
        *kind,
        name@,
        pkg,
        match group_id {
            Some(g) => Some(g@),
            None => None,
        },
        graalvm,
    ));
    ProjectScaffold { main_class, directories, files }
}

/// The manifest of a new, empty workspace.
pub fn workspace_manifest() -> (r: String)
    ensures
        r@ == "[workspace]\nmembers = []\n"@,
{
    copy_string("[workspace]\nmembers = []\n")
}

/// The `.gitignore` written into new workspaces and projects.
pub open spec fn default_gitignore_spec() -> Seq<char> {
    "target/\n.jolt/modules/\n.jolt/dev-modules/\n*.jar\n.classpath\n.project\n.settings/\nbin/\n"@
}

pub fn default_gitignore() -> (r: String)
    ensures
        r@ == default_gitignore_spec(),
{
    copy_string(
        "target/\n.jolt/modules/\n.jolt/dev-modules/\n*.jar\n.classpath\n.project\n.settings/\nbin/\n",
    )
}


/// The templates `jolt init` offers, with their descriptions, in the order
/// they are listed.
pub open spec fn available_templates_spec() -> Seq<(Seq<char>, Seq<char>)> {
    seq![
        ("minimal"@, "Proyecto estandar Java 21 con JUnit 5 integrado"@),
        ("cli"@, "Aplicacion de linea de comandos con Picocli"@),
        ("javafx"@, "Aplicacion con interfaz grafica moderna en JavaFX 21 y CSS"@),
        ("swing"@, "Aplicacion de escritorio Java Swing con Look & Feel moderno (FlatLaf)"@),
        ("web"@, "Microservicio / API REST ligera con Javalin en puerto 7070"@),
        ("spring"@, "Aplicacion web completa con Spring Boot 3.2 y REST Controller"@),
    ]
}

pub fn available_templates() -> (r: Vec<(String, String)>)
    ensures
        pair_views(r@) == available_templates_spec(),
{
    let mut v: Vec<(String, String)> = Vec::new();
    v.push((copy_string("minimal"), copy_string("Proyecto estandar Java 21 con JUnit 5 integrado")));
    v.push((copy_string("cli"), copy_string("Aplicacion de linea de comandos con Picocli")));
    v.push((copy_string("javafx"), copy_string("Aplicacion con interfaz grafica moderna en JavaFX 21 y CSS")));
    v.push((copy_string("swing"), copy_string("Aplicacion de escritorio Java Swing con Look & Feel moderno (FlatLaf)")));
    v.push((copy_string("web"), copy_string("Microservicio / API REST ligera con Javalin en puerto 7070")));
    v.push((copy_string("spring"), copy_string("Aplicacion web completa con Spring Boot 3.2 y REST Controller")));
    assert(pair_views(v@) =~= available_templates_spec());
    v
}

} // verus!
