//! Native packaging with `jpackage` (and NSIS on Windows): which settings
//! apply, the `jpackage` command line, and where the result lands.
use vstd::prelude::*;
use crate::build::compiler::join_with;
use crate::manifest::{clone_opt_string, JoltManifest, PackageConfig, WindowsPackageConfig};
use crate::paths::{join_spec, last_segment, path_file_name, path_join, plain_segment};
use crate::resolver::opt_view;
use crate::text::{
    chars_eq, chars_of, is_digit, push_str, split_char, split_chars, string_of, trim,
    trim_chars, words, words_of,
};
use crate::toolchain::detector::{lowercase_of, to_lowercase};

verus! {

/// What the command line of `jolt package` / `jolt build --package` sets.
#[derive(Debug)]
pub struct PackageOptions {
    pub pkg_type: Option<String>,
    pub dest: Option<String>,
    pub name: Option<String>,
    pub app_version: Option<String>,
    pub main_class: Option<String>,
    pub icon: Option<String>,
    pub java_options: Option<String>,
    pub upx: Option<bool>,
    pub add_to_path: Option<bool>,
    pub scope: Option<String>,
    pub verbose: bool,
}

/// The settings a package is built with.
#[derive(Debug)]
pub struct PackagePlan {
    pub main_class: String,
    pub app_name: String,
    pub version: String,
    pub upx: bool,
    pub add_to_path: bool,
    pub scope: String,
    pub desktop_shortcut: bool,
    pub start_menu: bool,
    pub license_file: Option<String>,
    pub pkg_type: String,
    pub dest_dir: String,
    pub icon_path: Option<String>,
    pub vendor: String,
}

pub open spec fn first_some(a: Option<Seq<char>>, b: Option<Seq<char>>) -> Option<Seq<char>> {
    match a {
        Some(x) => Some(x),
        None => b,
    }
}

pub open spec fn or_default(a: Option<Seq<char>>, d: Seq<char>) -> Seq<char> {
    match a {
        Some(x) => x,
        None => d,
    }
}

pub open spec fn pkg_field(
    m: JoltManifest,
    f: spec_fn(PackageConfig) -> Option<String>,
) -> Option<Seq<char>> {
    match m.package {
        Some(p) => opt_view(f(p)),
        None => None,
    }
}

pub open spec fn win_of(m: JoltManifest) -> Option<WindowsPackageConfig> {
    match m.package {
        Some(p) => p.windows,
        None => None,
    }
}

/// CLI, then `[package]`, then `[project]`, then the detected class, then
/// `Main`.
pub open spec fn main_class_choice(m: JoltManifest, o: PackageOptions, detected: Option<Seq<char>>) -> Seq<
    char,
> {
    or_default(
        first_some(
            opt_view(o.main_class),
            first_some(
                pkg_field(m, |p: PackageConfig| p.main_class),
                first_some(
                    match m.project {
                        Some(p) => opt_view(p.main_class),
                        None => None,
                    },
                    detected,
                ),
            ),
        ),
        "Main"@,
    )
}

/// Characters that cannot stand in a launcher name become `_`.
pub open spec fn sanitize_name(s: Seq<char>) -> Seq<char> {
    s.map_values(|c: char| if c == '/' || c == '\\' || c == ' ' || c == ':' {
        '_'
    } else {
        c
    })
}

/// CLI, then `[package].name`, then the project name, then `app`.
pub open spec fn raw_app_name(m: JoltManifest, o: PackageOptions) -> Seq<char> {
    or_default(
        first_some(
            opt_view(o.name),
            first_some(
                pkg_field(m, |p: PackageConfig| p.name),
                match m.project {
                    Some(p) => Some(p.name@),
                    None => None,
                },
            ),
        ),
        "app"@,
    )
}

/// The launcher name: the raw name, or the last component of it that
/// `Path::file_name` reports (a non-empty run of its characters, chosen by
/// the platform's path rules; for a raw name without `\\` whose last
/// segment is plain, that segment on every platform), sanitized.
pub open spec fn app_name_choice(name: Seq<char>, m: JoltManifest, o: PackageOptions) -> bool {
    let raw = raw_app_name(m, o);
    &&& {
        ||| name == sanitize_name(raw)
        ||| exists|i: int, j: int| 0 <= i < j <= raw.len() && name == #[trigger] sanitize_name(raw.subrange(i, j))
    }
    &&& !raw.contains('\\') && plain_segment(last_segment(raw)) ==> name == sanitize_name(last_segment(raw))
}

/// jpackage accepts only digits and dots: the part before the first `-`,
/// trimmed, with everything else dropped; `1.0.0` when nothing is left.
pub open spec fn version_chars(s: Seq<char>) -> Seq<char>
    decreases s.len(),
{
    if s.len() == 0 {
        Seq::empty()
    } else if is_digit(s.last()) || s.last() == '.' {
        version_chars(s.drop_last()).push(s.last())
    } else {
        version_chars(s.drop_last())
    }
}

pub open spec fn sanitize_version(raw: Seq<char>) -> Seq<char> {
    let cleaned = version_chars(trim(split_char(raw, '-')[0]));
    if cleaned.len() == 0 {
        "1.0.0"@
    } else {
        cleaned
    }
}

pub open spec fn version_choice(m: JoltManifest, o: PackageOptions) -> Seq<char> {
    sanitize_version(
        or_default(
            first_some(
                opt_view(o.app_version),
                match m.project {
                    Some(p) => Some(p.version@),
                    None => None,
                },
            ),
            "1.0.0"@,
        ),
    )
}

/// The package type: lowercased; on Windows `nsis` and `setup` mean the
/// NSIS installer.
pub open spec fn pkg_type_choice(m: JoltManifest, o: PackageOptions, os: Seq<char>) -> Seq<char> {
    let t = lowercase_of(
        or_default(first_some(opt_view(o.pkg_type), pkg_field(m, |p: PackageConfig| p.pkg_type)), "app-image"@),
    );
    if os == "windows"@ && (t == "nsis"@ || t == "setup"@) {
        "nsis"@
    } else {
        t
    }
}

/// The package types each platform supports.
pub open spec fn valid_types(os: Seq<char>) -> Seq<Seq<char>> {
    if os == "windows"@ {
        seq!["msi"@, "app-image"@, "exe"@, "nsis"@, "setup"@]
    } else {
        seq!["app-image"@]
    }
}

pub open spec fn unsupported_type_message(t: Seq<char>, os: Seq<char>) -> Seq<char> {
    "Tipo de paquete '"@ + t + "' no soportado en esta plataforma (\""@ + os
        + "\"). Opciones válidas: "@ + join_with(valid_types(os), ", "@)
}

pub open spec fn opt_bool_or(a: Option<bool>, b: Option<bool>, d: bool) -> bool {
    match a {
        Some(x) => x,
        None => match b {
            Some(y) => y,
            None => d,
        },
    }
}

pub open spec fn win_bool(m: JoltManifest, f: spec_fn(WindowsPackageConfig) -> Option<bool>) -> Option<
    bool,
> {
    match win_of(m) {
        Some(w) => f(w),
        None => None,
    }
}

pub open spec fn win_str(m: JoltManifest, f: spec_fn(WindowsPackageConfig) -> Option<String>) -> Option<
    Seq<char>,
> {
    match win_of(m) {
        Some(w) => opt_view(f(w)),
        None => None,
    }
}

pub open spec fn opt_join(dir: Seq<char>, p: Option<Seq<char>>) -> Option<Seq<char>> {
    match p {
        Some(x) => Some(join_spec(dir, x)),
        None => None,
    }
}

/// Every setting of the plan, as `package_native_app` resolves it.
pub open spec fn plan_matches(
    p: PackagePlan,
    dir: Seq<char>,
    m: JoltManifest,
    o: PackageOptions,
    detected: Option<Seq<char>>,
    os: Seq<char>,
) -> bool {
    &&& p.main_class@ == main_class_choice(m, o, detected)
    &&& app_name_choice(p.app_name@, m, o)
    &&& p.version@ == version_choice(m, o)
    &&& p.upx == opt_bool_or(o.upx, win_bool(m, |w: WindowsPackageConfig| w.upx), false)
    &&& p.add_to_path == opt_bool_or(
        o.add_to_path,
        win_bool(m, |w: WindowsPackageConfig| w.add_to_path),
        false,
    )
    &&& p.scope@ == or_default(
        first_some(opt_view(o.scope), win_str(m, |w: WindowsPackageConfig| w.scope)),
        "per-user"@,
    )
    &&& p.desktop_shortcut == opt_bool_or(
        win_bool(m, |w: WindowsPackageConfig| w.desktop_shortcut),
        None,
        true,
    )
    &&& p.start_menu == opt_bool_or(win_bool(m, |w: WindowsPackageConfig| w.start_menu), None, true)
    &&& opt_view(p.license_file) == opt_join(dir, win_str(m, |w: WindowsPackageConfig| w.license))
    &&& p.pkg_type@ == pkg_type_choice(m, o, os)
    &&& p.dest_dir@ == join_spec(
        dir,
        or_default(first_some(opt_view(o.dest), pkg_field(m, |c: PackageConfig| c.dest)), "dist"@),
    )
    &&& opt_view(p.icon_path) == first_some(
        opt_join(dir, opt_view(o.icon)),
        opt_join(dir, pkg_field(m, |c: PackageConfig| c.icon)),
    )
    &&& p.vendor@ == or_default(pkg_field(m, |c: PackageConfig| c.vendor), "Jolt App"@)
}

fn first_str(a: &Option<String>, b: Option<String>) -> (r: Option<String>)
    ensures
        opt_view(r) == first_some(opt_view(*a), opt_view(b)),
{
    match a {
        Some(x) => Some(x.clone()),
        None => b,
    }
}

fn pkg_str(m: &JoltManifest, f: usize) -> (r: Option<String>)
    requires
        f < 6,
    ensures
        opt_view(r) == (if f == 0 {
            pkg_field(*m, |p: PackageConfig| p.main_class)
        } else if f == 1 {
            pkg_field(*m, |p: PackageConfig| p.name)
        } else if f == 2 {
            pkg_field(*m, |p: PackageConfig| p.pkg_type)
        } else if f == 3 {
            pkg_field(*m, |p: PackageConfig| p.dest)
        } else if f == 4 {
            pkg_field(*m, |p: PackageConfig| p.icon)
        } else {
            pkg_field(*m, |p: PackageConfig| p.vendor)
        }),
{
    match &m.package {
        Some(p) => clone_opt_string(
            if f == 0 {
                &p.main_class
            } else if f == 1 {
                &p.name
            } else if f == 2 {
                &p.pkg_type
            } else if f == 3 {
                &p.dest
            } else if f == 4 {
                &p.icon
            } else {
                &p.vendor
            },
        ),
        None => None,
    }
}

fn sanitize_name_exec(s: &str) -> (r: String)
    ensures
        r@ == sanitize_name(s@),
{
    let v = chars_of(s);
    let mut out: Vec<char> = Vec::new();
    let mut i: usize = 0;
    while i < v.len()
        invariant
            i <= v.len(),
            out@ == sanitize_name(v@.take(i as int)),
        decreases v.len() - i,
    {
        let c = v[i];
        out.push(if c == '/' || c == '\\' || c == ' ' || c == ':' {
            '_'
        } else {
            c
        });
        assert(sanitize_name(v@.take(i + 1)) =~= sanitize_name(v@.take(i as int)).push(
            if c == '/' || c == '\\' || c == ' ' || c == ':' {
                '_'
            } else {
                c
            },
        ));
        i += 1;
    }
    assert(v@.take(v.len() as int) =~= v@);
    string_of(out.as_slice())
}

pub fn sanitize_version_exec(raw: &str) -> (r: String)
    ensures
        r@ == sanitize_version(raw@),
{
    let v = chars_of(raw);
    let parts = split_chars(v.as_slice(), '-');
    let base = trim_chars(parts[0].as_slice());
    let mut cleaned: Vec<char> = Vec::new();
    let mut i: usize = 0;
    while i < base.len()
        invariant
            i <= base@.len(),
            cleaned@ == version_chars(base@.take(i as int)),
        decreases base.len() - i,
    {
        let c = base[i];
        assert(base@.take(i + 1).drop_last() =~= base@.take(i as int));
        if ('0' <= c && c <= '9') || c == '.' {
            cleaned.push(c);
        }
        i += 1;
    }
    assert(base@.take(base@.len() as int) =~= base@);
    if cleaned.len() == 0 {
        "1.0.0".to_owned()
    } else {
        string_of(cleaned.as_slice())
    }
}

fn join_opt(dir: &str, p: Option<String>) -> (r: Option<String>)
    ensures
        opt_view(r) == opt_join(dir@, opt_view(p)),
{
    match p {
        Some(x) => Some(path_join(dir, x.as_str())),
        None => None,
    }
}

fn is_lit(s: &str, l: &str) -> (b: bool)
    ensures
        b == (s@ == l@),
{
    let a = chars_of(s);
    let b = chars_of(l);
    chars_eq(a.as_slice(), b.as_slice())
}

fn choose_main_class(m: &JoltManifest, o: &PackageOptions, detected: Option<String>) -> (r: String)
    ensures
        r@ == main_class_choice(*m, *o, opt_view(detected)),
{
    let proj_main: Option<String> = match &m.project {
        Some(p) => clone_opt_string(&p.main_class),
        None => None,
    };
    let c1 = first_str(&proj_main, detected);
    let c2 = first_str(&pkg_str(m, 0), c1);
    let c3 = first_str(&o.main_class, c2);
    match c3 {
        Some(c) => c,
        None => "Main".to_owned(),
    }
}

fn choose_app_name(m: &JoltManifest, o: &PackageOptions) -> (r: String)
    ensures
        app_name_choice(r@, *m, *o),
{
    let proj_name: Option<String> = match &m.project {
        Some(p) => Some(p.name.clone()),
        None => None,
    };
    let n1 = first_str(&pkg_str(m, 1), proj_name);
    let n2 = first_str(&o.name, n1);
    let raw_name = match n2 {
        Some(n) => n,
        None => "app".to_owned(),
    };
    let ghost raw = raw_name@;
    let base_name = match path_file_name(raw_name.as_str()) {
        Some(f) => f,
        None => raw_name,
    };
    proof {
        if base_name@ != raw {
            let i = choose|i: int| 0 <= i && i + base_name@.len() <= raw.len() && #[trigger] raw.subrange(i, i + base_name@.len()) == base_name@;
            assert(sanitize_name(raw.subrange(i, i + base_name@.len())) == sanitize_name(base_name@));
        }
    }
    sanitize_name_exec(base_name.as_str())
}

fn choose_version(m: &JoltManifest, o: &PackageOptions) -> (r: String)
    ensures
        r@ == version_choice(*m, *o),
{
    let proj_version: Option<String> = match &m.project {
        Some(p) => Some(p.version.clone()),
        None => None,
    };
    let v1 = first_str(&o.app_version, proj_version);
    let raw_version = match v1 {
        Some(v) => v,
        None => "1.0.0".to_owned(),
    };
    sanitize_version_exec(raw_version.as_str())
}

fn choose_pkg_type(m: &JoltManifest, o: &PackageOptions, os: &str) -> (r: String)
    ensures
        r@ == pkg_type_choice(*m, *o, os@),
{
    let t1 = first_str(&o.pkg_type, pkg_str(m, 2));
    let t_raw = match t1 {
        Some(t) => t,
        None => "app-image".to_owned(),
    };
    let lowered = to_lowercase(t_raw.as_str());
    if is_lit(os, "windows") && (is_lit(lowered.as_str(), "nsis") || is_lit(lowered.as_str(), "setup")) {
        "nsis".to_owned()
    } else {
        lowered
    }
}

/// `true` when `os` supports the package type `t`.
pub fn type_supported(t: &str, os: &str) -> (b: bool)
    ensures
        b == valid_types(os@).contains(t@),
{
    let w = is_lit(os, "windows");
    let r = if w {
        is_lit(t, "msi") || is_lit(t, "app-image") || is_lit(t, "exe") || is_lit(t, "nsis")
            || is_lit(t, "setup")
    } else {
        is_lit(t, "app-image")
    };
    proof {
        let v = valid_types(os@);
        if w {
            if t@ == "msi"@ { assert(v[0] == t@); }
            if t@ == "app-image"@ { assert(v[1] == t@); }
            if t@ == "exe"@ { assert(v[2] == t@); }
            if t@ == "nsis"@ { assert(v[3] == t@); }
            if t@ == "setup"@ { assert(v[4] == t@); }
        } else {
            if t@ == "app-image"@ { assert(v[0] == t@); }
        }
    }
    r
}

fn unsupported_message(t: &str, os: &str) -> (e: String)
    ensures
        e@ == unsupported_type_message(t@, os@),
{
    let w = is_lit(os, "windows");
    let mut e = "Tipo de paquete '".to_owned();
    push_str(&mut e, t);
    push_str(&mut e, "' no soportado en esta plataforma (\"");
    push_str(&mut e, os);
    push_str(&mut e, "\"). Opciones válidas: ");
    let ghost pre = e@;
    if w {
        let ghost v = valid_types(os@);
        assert(v.take(1) =~= seq!["msi"@]);
        assert(v.take(2).drop_last() =~= v.take(1));
        assert(v.take(3).drop_last() =~= v.take(2));
        assert(v.take(4).drop_last() =~= v.take(3));
        assert(v.take(5).drop_last() =~= v.take(4));
        assert(v.take(5) =~= v);
        push_str(&mut e, "msi");
        assert(e@ =~= pre + join_with(v.take(1), ", "@));
        push_str(&mut e, ", ");
        push_str(&mut e, "app-image");
        assert(e@ =~= pre + join_with(v.take(2), ", "@));
        push_str(&mut e, ", ");
        push_str(&mut e, "exe");
        assert(e@ =~= pre + join_with(v.take(3), ", "@));
        push_str(&mut e, ", ");
        push_str(&mut e, "nsis");
        assert(e@ =~= pre + join_with(v.take(4), ", "@));
        push_str(&mut e, ", ");
        push_str(&mut e, "setup");
        assert(e@ =~= pre + join_with(v.take(5), ", "@));
    } else {
        push_str(&mut e, "app-image");
    }
    e
}

/// Resolves the settings of a native package from the command line, the
/// manifest and the detected main class, for the platform `os` (the value
/// of `std::env::consts::OS`). A package type the platform does not support
/// is refused with the message naming the supported ones.
pub fn plan_native_package(
    project_dir: &str,
    manifest: &JoltManifest,
    opts: &PackageOptions,
    detected_main_class: Option<String>,
    os: &str,
) -> (r: Result<PackagePlan, String>)
    ensures
        match r {
            Ok(p) => plan_matches(p, project_dir@, *manifest, *opts, opt_view(detected_main_class), os@)
                && valid_types(os@).contains(p.pkg_type@),
            Err(e) => !valid_types(os@).contains(pkg_type_choice(*manifest, *opts, os@)) && e@
                == unsupported_type_message(pkg_type_choice(*manifest, *opts, os@), os@),
        },
{
    let pkg_type = choose_pkg_type(manifest, opts, os);
    if !type_supported(pkg_type.as_str(), os) {
        return Err(unsupported_message(pkg_type.as_str(), os));
    }
    let main_class = choose_main_class(manifest, opts, detected_main_class);
    let app_name = choose_app_name(manifest, opts);
    let version = choose_version(manifest, opts);
    let win: Option<&WindowsPackageConfig> = match &manifest.package {
        Some(p) => match &p.windows {
            Some(w) => Some(w),
            None => None,
        },
        None => None,
    };
    let upx = match opts.upx {
        Some(b) => b,
        None => match win {
            Some(w) => match w.upx {
                Some(b) => b,
                None => false,
            },
            None => false,
        },
    };
    let add_to_path = match opts.add_to_path {
        Some(b) => b,
        None => match win {
            Some(w) => match w.add_to_path {
                Some(b) => b,
                None => false,
            },
            None => false,
        },
    };
    let win_scope: Option<String> = match win {
        Some(w) => clone_opt_string(&w.scope),
        None => None,
    };
    let scope = match first_str(&opts.scope, win_scope) {
        Some(s) => s,
        None => "per-user".to_owned(),
    };
    let desktop_shortcut = match win {
        Some(w) => match w.desktop_shortcut {
            Some(b) => b,
            None => true,
        },
        None => true,
    };
    let start_menu = match win {
        Some(w) => match w.start_menu {
            Some(b) => b,
            None => true,
        },
        None => true,
    };
    let win_license: Option<String> = match win {
        Some(w) => clone_opt_string(&w.license),
        None => None,
    };
    let license_file = join_opt(project_dir, win_license);
    let d1 = first_str(&opts.dest, pkg_str(manifest, 3));
    let dest_rel = match d1 {
        Some(d) => d,
        None => "dist".to_owned(),
    };
    let dest_dir = path_join(project_dir, dest_rel.as_str());
    let cli_icon = join_opt(project_dir, clone_opt_string(&opts.icon));
    let cfg_icon = join_opt(project_dir, pkg_str(manifest, 4));
    let icon_path = first_str(&cli_icon, cfg_icon);
    let vendor = match pkg_str(manifest, 5) {
        Some(v) => v,
        None => "Jolt App".to_owned(),
    };
    Ok(
        PackagePlan {
            main_class,
            app_name,
            version,
            upx,
            add_to_path,
            scope,
            desktop_shortcut,
            start_menu,
            license_file,
            pkg_type,
            dest_dir,
            icon_path,
            vendor,
        },
    )
}

pub open spec fn opt_pair(flag: Seq<char>, o: Option<Seq<char>>) -> Seq<Seq<char>> {
    match o {
        Some(v) => seq![flag, v],
        None => Seq::empty(),
    }
}

/// `--java-options <opt>` for each option, in order.
pub open spec fn java_option_args(opts: Seq<Seq<char>>) -> Seq<Seq<char>>
    decreases opts.len(),
{
    if opts.len() == 0 {
        Seq::empty()
    } else {
        java_option_args(opts.drop_last()) + seq!["--java-options"@, opts.last()]
    }
}

pub open spec fn config_args(pkg: Option<PackageConfig>) -> Seq<Seq<char>> {
    match pkg {
        Some(p) => opt_pair("--vendor"@, opt_view(p.vendor)) + opt_pair(
            "--description"@,
            opt_view(p.description),
        ) + opt_pair("--copyright"@, opt_view(p.copyright)) + match p.java_options {
            Some(v) => java_option_args(crate::build::compiler::views(v@)),
            None => Seq::empty(),
        },
        None => Seq::empty(),
    }
}

/// The `jpackage` command line: the staged `app.jar` and its main class,
/// name, version, destination and type; then vendor, description,
/// copyright and JVM options from `[package]`; the JVM options given on the
/// command line (split at whitespace); the icon when its file exists; and
/// `--verbose` on request.
pub open spec fn jpackage_args_spec(
    input_dir: Seq<char>,
    main_class: Seq<char>,
    app_name: Seq<char>,
    version: Seq<char>,
    dest: Seq<char>,
    pkg_type: Seq<char>,
    pkg: Option<PackageConfig>,
    cli_java_options: Option<Seq<char>>,
    icon: Option<Seq<char>>,
    icon_exists: bool,
    verbose: bool,
) -> Seq<Seq<char>> {
    seq![
        "--input"@,
        input_dir,
        "--main-jar"@,
        "app.jar"@,
        "--main-class"@,
        main_class,
        "--name"@,
        app_name,
        "--app-version"@,
        version,
        "--dest"@,
        dest,
        "--type"@,
        pkg_type,
    ] + config_args(pkg) + match cli_java_options {
        Some(s) => java_option_args(words(s)),
        None => Seq::empty(),
    } + match icon {
        Some(i) => if icon_exists {
            seq!["--icon"@, i]
        } else {
            Seq::empty()
        },
        None => Seq::empty(),
    } + if verbose {
        seq!["--verbose"@]
    } else {
        Seq::empty()
    }
}

/// The jpackage command line starts with the input folder, the main jar
/// and class, the name, the version, the destination and the type, each
/// after its flag; when an icon is given and its file exists, it carries
/// `--icon` immediately followed by that icon path; a verbose run ends
/// with `--verbose`.
pub proof fn lemma_jpackage_args_name_and_icon(
    input_dir: Seq<char>,
    main_class: Seq<char>,
    app_name: Seq<char>,
    version: Seq<char>,
    dest: Seq<char>,
    pkg_type: Seq<char>,
    pkg: Option<PackageConfig>,
    cli_java_options: Option<Seq<char>>,
    icon: Option<Seq<char>>,
    icon_exists: bool,
    verbose: bool,
)
    ensures
        ({
            let args = jpackage_args_spec(
                input_dir,
                main_class,
                app_name,
                version,
                dest,
                pkg_type,
                pkg,
                cli_java_options,
                icon,
                icon_exists,
                verbose,
            );
            &&& args[6] == "--name"@ && args[7] == app_name
            &&& args[4] == "--main-class"@ && args[5] == main_class
            &&& args[0] == "--input"@ && args[1] == input_dir
            &&& args[2] == "--main-jar"@ && args[3] == "app.jar"@
            &&& args[8] == "--app-version"@ && args[9] == version
            &&& args[10] == "--dest"@ && args[11] == dest
            &&& args[12] == "--type"@ && args[13] == pkg_type
            &&& verbose ==> args.last() == "--verbose"@
            &&& icon is Some && icon_exists ==> exists|k: int|
                0 <= k && k + 1 < args.len() && args[k] == "--icon"@ && #[trigger] args[k + 1] == icon->0
        }),
{
    let base = seq![
        "--input"@,
        input_dir,
        "--main-jar"@,
        "app.jar"@,
        "--main-class"@,
        main_class,
        "--name"@,
        app_name,
        "--app-version"@,
        version,
        "--dest"@,
        dest,
        "--type"@,
        pkg_type,
    ];
    let opts = match cli_java_options {
        Some(s) => java_option_args(words(s)),
        None => Seq::empty(),
    };
    let pre = base + config_args(pkg) + opts;
    let tail = if verbose {
        seq!["--verbose"@]
    } else {
        Seq::<Seq<char>>::empty()
    };
    if icon is Some && icon_exists {
        let i = icon->0;
        let args = pre + seq!["--icon"@, i] + tail;
        let k = pre.len() as int;
        assert(args[k] == "--icon"@);
        assert(args[k + 1] == i);
    }
}

pub open spec fn arg_views(v: Seq<String>) -> Seq<Seq<char>> {
    v.map_values(|s: String| s@)
}

fn push_arg(args: &mut Vec<String>, a: String)
    ensures
        arg_views(final(args)@) == arg_views(old(args)@).push(a@),
{
    let ghost before = args@;
    args.push(a);
    assert(arg_views(args@) =~= arg_views(before).push(a@));
}

fn push_opt_pair(args: &mut Vec<String>, flag: &str, o: &Option<String>)
    ensures
        arg_views(final(args)@) == arg_views(old(args)@) + opt_pair(flag@, opt_view(*o)),
{
    match o {
        Some(v) => {
            push_arg(args, flag.to_owned());
            push_arg(args, v.clone());
            assert(arg_views(args@) =~= arg_views(old(args)@) + opt_pair(flag@, opt_view(*o)));
        },
        None => {
            assert(arg_views(args@) =~= arg_views(old(args)@) + opt_pair(flag@, opt_view(*o)));
        },
    }
}

fn push_java_options(args: &mut Vec<String>, opts: &Vec<String>)
    ensures
        arg_views(final(args)@) == arg_views(old(args)@) + java_option_args(
            crate::build::compiler::views(opts@),
        ),
{
    let mut i: usize = 0;
    while i < opts.len()
        invariant
            i <= opts@.len(),
            arg_views(args@) == arg_views(old(args)@) + java_option_args(
                crate::build::compiler::views(opts@.take(i as int)),
            ),
        decreases opts.len() - i,
    {
        assert(crate::build::compiler::views(opts@.take(i + 1)).drop_last() =~= crate::build::compiler::views(
            opts@.take(i as int),
        ));
        assert(crate::build::compiler::views(opts@.take(i + 1)).last() == opts@[i as int]@);
        let ghost before = arg_views(args@);
        push_arg(args, "--java-options".to_owned());
        push_arg(args, opts[i].clone());
        assert(arg_views(args@) =~= before + seq!["--java-options"@, opts@[i as int]@]);
        i += 1;
    }
    assert(opts@.take(opts@.len() as int) =~= opts@);
}

fn push_java_option_words(args: &mut Vec<String>, s: &str)
    ensures
        arg_views(final(args)@) == arg_views(old(args)@) + java_option_args(words(s@)),
{
    let c = chars_of(s);
    let ws = words_of(c.as_slice());
    let ghost all = words(s@);
    let mut i: usize = 0;
    while i < ws.len()
        invariant
            i <= ws@.len(),
            ws@.len() == all.len(),
            all == words(s@),
            c@ == s@,
            forall|k: int| 0 <= k < ws@.len() ==> #[trigger] ws@[k]@ == all[k],
            arg_views(args@) == arg_views(old(args)@) + java_option_args(all.take(i as int)),
        decreases ws.len() - i,
    {
        assert(all.take(i + 1).drop_last() =~= all.take(i as int));
        assert(all.take(i + 1).last() == ws@[i as int]@);
        let ghost before = arg_views(args@);
        push_arg(args, "--java-options".to_owned());
        push_arg(args, string_of(ws[i].as_slice()));
        assert(arg_views(args@) =~= before + seq!["--java-options"@, ws@[i as int]@]);
        i += 1;
    }
    assert(all.take(ws@.len() as int) =~= all);
}

/// Builds the `jpackage` arguments (see `jpackage_args_spec`).
pub fn jpackage_args(
    input_dir: &str,
    main_class: &str,
    app_name: &str,
    version: &str,
    dest: &str,
    pkg_type: &str,
    pkg: &Option<PackageConfig>,
    cli_java_options: Option<&str>,
    icon: &Option<String>,
    icon_exists: bool,
    verbose: bool,
) -> (args: Vec<String>)
    ensures
        arg_views(args@) == jpackage_args_spec(
            input_dir@,
            main_class@,
            app_name@,
            version@,
            dest@,
            pkg_type@,
            *pkg,
            match cli_java_options {
                Some(s) => Some(s@),
                None => None,
            },
            opt_view(*icon),
            icon_exists,
            verbose,
        ),
{
    let mut args: Vec<String> = Vec::new();
    push_arg(&mut args, "--input".to_owned());
    push_arg(&mut args, input_dir.to_owned());
    push_arg(&mut args, "--main-jar".to_owned());
    push_arg(&mut args, "app.jar".to_owned());
    push_arg(&mut args, "--main-class".to_owned());
    push_arg(&mut args, main_class.to_owned());
    push_arg(&mut args, "--name".to_owned());
    push_arg(&mut args, app_name.to_owned());
    push_arg(&mut args, "--app-version".to_owned());
    push_arg(&mut args, version.to_owned());
    push_arg(&mut args, "--dest".to_owned());
    push_arg(&mut args, dest.to_owned());
    push_arg(&mut args, "--type".to_owned());
    push_arg(&mut args, pkg_type.to_owned());
    let ghost base = arg_views(args@);
    assert(base =~= seq![
        "--input"@,
        input_dir@,
        "--main-jar"@,
        "app.jar"@,
        "--main-class"@,
        main_class@,
        "--name"@,
        app_name@,
        "--app-version"@,
        version@,
        "--dest"@,
        dest@,
        "--type"@,
        pkg_type@,
    ]);
    match pkg {
        Some(p) => {
            push_opt_pair(&mut args, "--vendor", &p.vendor);
            push_opt_pair(&mut args, "--description", &p.description);
            push_opt_pair(&mut args, "--copyright", &p.copyright);
            match &p.java_options {
                Some(v) => push_java_options(&mut args, v),
                None => {},
            }
        },
        None => {},
    }
    let ghost with_config = arg_views(args@);
    assert(with_config =~= base + config_args(*pkg));
    match cli_java_options {
        Some(s) => push_java_option_words(&mut args, s),
        None => {},
    }
    let ghost with_cli = arg_views(args@);
    match icon {
        Some(i) => {
            if icon_exists {
                push_arg(&mut args, "--icon".to_owned());
                push_arg(&mut args, i.clone());
            }
        },
        None => {},
    }
    let ghost with_icon = arg_views(args@);
    if verbose {
        push_arg(&mut args, "--verbose".to_owned());
    }
    assert(arg_views(args@) =~= jpackage_args_spec(
        input_dir@,
        main_class@,
        app_name@,
        version@,
        dest@,
        pkg_type@,
        *pkg,
        match cli_java_options {
            Some(s) => Some(s@),
            None => None,
        },
        opt_view(*icon),
        icon_exists,
        verbose,
    ));
    args
}

/// Where the packaged application ends up: the launcher inside the app
/// image, the MSI when it was produced, else the destination directory.
pub open spec fn package_output_spec(
    pkg_type: Seq<char>,
    os: Seq<char>,
    dest: Seq<char>,
    app: Seq<char>,
    version: Seq<char>,
    msi_exists: bool,
) -> Seq<char> {
    if pkg_type == "app-image"@ {
        if os == "windows"@ {
            join_spec(join_spec(dest, app), app + ".exe"@)
        } else {
            join_spec(join_spec(join_spec(dest, app), "bin"@), app)
        }
    } else if pkg_type == "msi"@ {
        if msi_exists {
            join_spec(dest, app + "-"@ + version + ".msi"@)
        } else {
            dest
        }
    } else {
        dest
    }
}

/// The MSI `jpackage` writes: `<dest>/<app>-<version>.msi`.
pub fn msi_candidate_path(dest: &str, app_name: &str, version: &str) -> (p: String)
    ensures
        p@ == join_spec(dest@, app_name@ + "-"@ + version@ + ".msi"@),
{
    let mut f = app_name.to_owned();
    push_str(&mut f, "-");
    push_str(&mut f, version);
    push_str(&mut f, ".msi");
    path_join(dest, f.as_str())
}

pub fn package_output_path(
    pkg_type: &str,
    os: &str,
    dest: &str,
    app_name: &str,
    version: &str,
    msi_exists: bool,
) -> (p: String)
    ensures
        p@ == package_output_spec(pkg_type@, os@, dest@, app_name@, version@, msi_exists),
{
    if is_lit(pkg_type, "app-image") {
        let app_dir = path_join(dest, app_name);
        if is_lit(os, "windows") {
            let mut exe = app_name.to_owned();
            push_str(&mut exe, ".exe");
            path_join(app_dir.as_str(), exe.as_str())
        } else {
            let bin = path_join(app_dir.as_str(), "bin");
            path_join(bin.as_str(), app_name)
        }
    } else if is_lit(pkg_type, "msi") {
        if msi_exists {
            msi_candidate_path(dest, app_name, version)
        } else {
            dest.to_owned()
        }
    } else {
        dest.to_owned()
    }
}

/// The NSIS installer: `<dest>/<app>-<version>-setup.exe`.
pub fn nsis_installer_path(dest: &str, app_name: &str, version: &str) -> (p: String)
    ensures
        p@ == join_spec(dest@, app_name@ + "-"@ + version@ + "-setup.exe"@),
{
    let mut f = app_name.to_owned();
    push_str(&mut f, "-");
    push_str(&mut f, version);
    push_str(&mut f, "-setup.exe");
    path_join(dest, f.as_str())
}

} // verus!
