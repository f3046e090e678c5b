//! Recognising a JDK from what a directory holds and what its compiler
//! prints, collecting the JDKs of a machine without repeats, and the choices
//! around the toolchain cache and the Adoptium download.
use vstd::prelude::*;
use crate::install::contains_string;
use crate::install::views;
use crate::packaging::jar::distinct;
use crate::paths::{clean_path, clean_path_spec, join_spec, path_join, path_parent};
use crate::text::{chars_of, copy_string, decimal, push_decimal, push_str, split_char, split_chars, string_of, trim, trim_chars};
use crate::toolchain::{InstalledJdk, Toolchain};
use crate::toolchain::detector::{detect_java_vendor, java_major_version, lowercase_of, parse_java_major_version, vendor_for};

verus! {

/// The operating systems the tool tells apart.
#[derive(Debug, Clone, Copy, PartialEq, Eq, Structural)]
pub enum TargetOs {
    Linux,
    MacOs,
    Windows,
    Other,
}

/// The processor architectures the tool tells apart.
#[derive(Debug, Clone, Copy, PartialEq, Eq, Structural)]
pub enum TargetArch {
    X86_64,
    Aarch64,
    Other,
}

/// Where a candidate directory keeps its binaries: its `bin` directory when
/// there is one, else the directory itself when it holds `javac` (or
/// `javac.exe`); nothing otherwise.
pub open spec fn jdk_bin_dir_spec(dir: Seq<char>, has_bin_dir: bool, dir_is_dir: bool, dir_has_javac: bool) -> Option<Seq<char>> {
    if has_bin_dir {
        Some(join_spec(dir, "bin"@))
    } else if dir_is_dir && dir_has_javac {
        Some(dir)
    } else {
        None
    }
}

pub fn jdk_bin_dir(dir: &str, has_bin_dir: bool, dir_is_dir: bool, dir_has_javac: bool) -> (r: Option<String>)
    ensures
        match r {
            Some(b) => jdk_bin_dir_spec(dir@, has_bin_dir, dir_is_dir, dir_has_javac) == Some(b@),
            None => jdk_bin_dir_spec(dir@, has_bin_dir, dir_is_dir, dir_has_javac) is None,
        },
{
    if has_bin_dir {
        Some(path_join(dir, "bin"))
    } else if dir_is_dir && dir_has_javac {
        Some(copy_string(dir))
    } else {
        None
    }
}

/// The first of `names` that is present.
pub open spec fn first_present(present: Seq<Seq<char>>, names: Seq<Seq<char>>) -> Option<Seq<char>>
    decreases names.len(),
{
    if names.len() == 0 {
        None
    } else if present.contains(names[0]) {
        Some(names[0])
    } else {
        first_present(present, names.drop_first())
    }
}

fn first_present_exec(present: &Vec<String>, names: &Vec<String>) -> (r: Option<String>)
    ensures
        match r {
            Some(n) => first_present(views(present@), views(names@)) == Some(n@),
            None => first_present(views(present@), views(names@)) is None,
        },
{
    let mut i: usize = 0;
    assert(views(names@).skip(0) =~= views(names@));
    while i < names.len()
        invariant
            i <= names.len(),
            first_present(views(present@), views(names@)) == first_present(
                views(present@),
                views(names@).skip(i as int),
            ),
        decreases names.len() - i,
    {
        assert(views(names@).skip(i as int)[0] == names@[i as int]@);
        assert(views(names@).skip(i as int).drop_first() =~= views(names@).skip(i + 1));
        if contains_string(present, names[i].as_str()) {
            return Some(names[i].clone());
        }
        i += 1;
    }
    None
}

pub open spec fn javac_names() -> Seq<Seq<char>> {
    seq!["javac.exe"@, "javac"@]
}

pub open spec fn java_names() -> Seq<Seq<char>> {
    seq!["java.exe"@, "java"@]
}

pub open spec fn jar_names() -> Seq<Seq<char>> {
    seq!["jar.exe"@, "jar"@]
}

pub open spec fn jpackage_names() -> Seq<Seq<char>> {
    seq!["jpackage.exe"@, "jpackage"@]
}

pub open spec fn native_image_names() -> Seq<Seq<char>> {
    seq!["native-image.cmd"@, "native-image.exe"@, "native-image"@]
}

/// Every file name a JDK's `bin` directory is searched for.
pub open spec fn binary_candidates_spec() -> Seq<Seq<char>> {
    javac_names() + java_names() + jar_names() + jpackage_names() + native_image_names()
}

fn names2(a: &str, b: &str) -> (r: Vec<String>)
    ensures
        views(r@) == seq![a@, b@],
{
    let mut v: Vec<String> = Vec::new();
    v.push(copy_string(a));
    v.push(copy_string(b));
    assert(views(v@) =~= seq![a@, b@]);
    v
}

/// The file names to look for in a JDK's `bin` directory.
pub fn binary_candidates() -> (r: Vec<String>)
    ensures
        views(r@) == binary_candidates_spec(),
{
    let mut v: Vec<String> = Vec::new();
    v.push(copy_string("javac.exe"));
    v.push(copy_string("javac"));
    v.push(copy_string("java.exe"));
    v.push(copy_string("java"));
    v.push(copy_string("jar.exe"));
    v.push(copy_string("jar"));
    v.push(copy_string("jpackage.exe"));
    v.push(copy_string("jpackage"));
    v.push(copy_string("native-image.cmd"));
    v.push(copy_string("native-image.exe"));
    v.push(copy_string("native-image"));
    assert(views(v@) =~= binary_candidates_spec());
    v
}

/// The binaries of a JDK.
pub struct JdkBinaries {
    pub java: String,
    pub javac: String,
    pub jar: String,
    pub jpackage: String,
    pub native_image: Option<String>,
}

pub open spec fn opt_in(dir: Seq<char>, o: Option<Seq<char>>) -> Option<Seq<char>> {
    match o {
        Some(n) => Some(join_spec(dir, n)),
        None => None,
    }
}

/// The binaries found in `bin_dir`, whose present files are `present`: the
/// `.exe` form is preferred; `javac` and `java` are required; `jar` and
/// `jpackage` fall back to the bare command names; `native-image` prefers
/// the `.cmd`, then the `.exe`, then the plain file.
pub open spec fn jdk_binaries_spec(bin_dir: Seq<char>, present: Seq<Seq<char>>) -> Option<
    (Seq<char>, Seq<char>, Seq<char>, Seq<char>, Option<Seq<char>>),
> {
    match (first_present(present, javac_names()), first_present(present, java_names())) {
        (Some(javac), Some(java)) => Some(
            (
                join_spec(bin_dir, java),
                join_spec(bin_dir, javac),
                match first_present(present, jar_names()) {
                    Some(n) => join_spec(bin_dir, n),
                    None => "jar"@,
                },
                match first_present(present, jpackage_names()) {
                    Some(n) => join_spec(bin_dir, n),
                    None => "jpackage"@,
                },
                opt_in(bin_dir, first_present(present, native_image_names())),
            ),
        ),
        _ => None,
    }
}

pub open spec fn binaries_view(b: JdkBinaries) -> (
    Seq<char>,
    Seq<char>,
    Seq<char>,
    Seq<char>,
    Option<Seq<char>>,
) {
    (
        b.java@,
        b.javac@,
        b.jar@,
        b.jpackage@,
        match b.native_image {
            Some(n) => Some(n@),
            None => None,
        },
    )
}

fn join_opt(dir: &str, o: Option<String>) -> (r: Option<String>)
    ensures
        match r {
            Some(p) => opt_in(
                dir@,
                match o {
                    Some(n) => Some(n@),
                    None => None,
                },
            ) == Some(p@),
            None => o is None,
        },
{
    match o {
        Some(n) => Some(path_join(dir, n.as_str())),
        None => None,
    }
}

/// Picks the binaries of a JDK from the files present in its `bin`
/// directory.
pub fn jdk_binaries(bin_dir: &str, present: &Vec<String>) -> (r: Option<JdkBinaries>)
    ensures
        match r {
            Some(b) => jdk_binaries_spec(bin_dir@, views(present@)) == Some(binaries_view(b)),
            None => jdk_binaries_spec(bin_dir@, views(present@)) is None,
        },
{
    let javac = first_present_exec(present, &names2("javac.exe", "javac"));
    let java = first_present_exec(present, &names2("java.exe", "java"));
    let (javac, java) = match (javac, java) {
        (Some(c), Some(j)) => (c, j),
        _ => {
            return None;
        },
    };
    let jar = match first_present_exec(present, &names2("jar.exe", "jar")) {
        Some(n) => path_join(bin_dir, n.as_str()),
        None => copy_string("jar"),
    };
    let jpackage = match first_present_exec(present, &names2("jpackage.exe", "jpackage")) {
        Some(n) => path_join(bin_dir, n.as_str()),
        None => copy_string("jpackage"),
    };
    let mut ni_names: Vec<String> = Vec::new();
    ni_names.push(copy_string("native-image.cmd"));
    ni_names.push(copy_string("native-image.exe"));
    ni_names.push(copy_string("native-image"));
    assert(views(ni_names@) =~= native_image_names());
    let native_image = join_opt(bin_dir, first_present_exec(present, &ni_names));
    Some(
        JdkBinaries {
            java: path_join(bin_dir, java.as_str()),
            javac: path_join(bin_dir, javac.as_str()),
            jar,
            jpackage,
            native_image,
        },
    )
}

/// What `javac -version` (or `java -version`) printed: standard output, a
/// space, standard error.
pub open spec fn combined_output(stdout: Seq<char>, stderr: Seq<char>) -> Seq<char> {
    stdout + " "@ + stderr
}

/// The version text a JDK is listed with: the compiler's first output line,
/// trimmed, or `Java <major>` when that is empty.
pub open spec fn version_text(javac_output: Seq<char>, major: u32) -> Seq<char> {
    let first = trim(split_char(javac_output, '\n')[0]);
    if first.len() == 0 {
        "Java "@ + decimal(major as nat)
    } else {
        first
    }
}

/// A JDK as the tool lists it, from its directory, its binaries and what
/// `javac -version` and `java -version` printed (`java_output` is `None`
/// when `java` could not be run). There is none when the compiler's output
/// names no major version. The home is the directory when it has a `bin`
/// directory, else its parent as `Path::parent` reports it (the directory
/// itself when it has none): a beginning of the directory's path, where the
/// last component ends by the platform's path rules.
pub fn installed_jdk(
    dir: &str,
    has_bin_dir: bool,
    bins: &JdkBinaries,
    javac_stdout: &str,
    javac_stderr: &str,
    java_output: Option<(&str, &str)>,
) -> (r: Option<InstalledJdk>)
    ensures
        ({
            let javac_out = combined_output(javac_stdout@, javac_stderr@);
            let java_out = match java_output {
                Some((o, e)) => combined_output(o@, e@),
                None => Seq::empty(),
            };
            match r {
                Some(j) => {
                    &&& java_major_version(javac_out) == Some(j.major_version)
                    &&& j.vendor@ == vendor_for(lowercase_of(javac_out + " "@ + java_out))
                    &&& j.version_raw@ == version_text(javac_out, j.major_version)
                    &&& has_bin_dir ==> j.home_dir@ == clean_path_spec(dir@)
                    &&& !has_bin_dir ==> exists|k: int|
                        0 <= k <= dir@.len() && #[trigger] clean_path_spec(dir@.take(k)) == j.home_dir@
                    &&& j.java_bin@ == clean_path_spec(bins.java@)
                    &&& j.javac_bin@ == clean_path_spec(bins.javac@)
                    &&& j.jar_bin@ == clean_path_spec(bins.jar@)
                    &&& j.jpackage_bin@ == clean_path_spec(bins.jpackage@)
                    &&& match (j.native_image_bin, bins.native_image) {
                        (Some(a), Some(b)) => a@ == clean_path_spec(b@),
                        (None, None) => true,
                        _ => false,
                    }
                },
                None => java_major_version(javac_out) is None,
            }
        }),
{
    let mut javac_out = copy_string(javac_stdout);
    push_str(&mut javac_out, " ");
    push_str(&mut javac_out, javac_stderr);
    let major = match parse_java_major_version(javac_out.as_str()) {
        Some(m) => m,
        None => {
            return None;
        },
    };
    let mut vendor_text = copy_string(javac_out.as_str());
    push_str(&mut vendor_text, " ");
    match java_output {
        Some((o, e)) => {
            push_str(&mut vendor_text, o);
            push_str(&mut vendor_text, " ");
            push_str(&mut vendor_text, e);
        },
        None => {},
    }
    assert(vendor_text@ =~= javac_out@ + " "@ + match java_output {
        Some((o, e)) => combined_output(o@, e@),
        None => Seq::empty(),
    });
    let vendor = detect_java_vendor(vendor_text.as_str());
    let chars = chars_of(javac_out.as_str());
    let lines = split_chars(chars.as_slice(), '\n');
    let first = trim_chars(lines[0].as_slice());
    assert(first@ == trim(split_char(javac_out@, '\n')[0]));
    let version_raw = if first.len() == 0 {
        let mut s = copy_string("Java ");
        push_decimal(&mut s, major as u64);
        s
    } else {
        string_of(first.as_slice())
    };
    let home = if has_bin_dir {
        copy_string(dir)
    } else {
        match path_parent(dir) {
            Some(p) => p,
            None => copy_string(dir),
        }
    };
    assert(home@ == dir@.take(home@.len() as int) && home@.len() <= dir@.len()) by {
        assert(dir@.take(dir@.len() as int) =~= dir@);
    }
    let native_image_bin = match &bins.native_image {
        Some(n) => Some(clean_path(n.as_str())),
        None => None,
    };
    Some(
        InstalledJdk {
            version_raw,
            major_version: major,
            vendor,
            home_dir: clean_path(home.as_str()),
            java_bin: clean_path(bins.java.as_str()),
            javac_bin: clean_path(bins.javac.as_str()),
            jar_bin: clean_path(bins.jar.as_str()),
            jpackage_bin: clean_path(bins.jpackage.as_str()),
            native_image_bin,
        },
    )
}


/// The JDKs found so far while scanning a machine, with the directories
/// already looked at and the (canonical) homes already listed.
pub struct JdkCollector {
    pub visited: Vec<String>,
    pub known_homes: Vec<String>,
    pub jdks: Vec<InstalledJdk>,
}

impl JdkCollector {
    /// No directory is looked at twice, no home is listed twice, and each
    /// listed JDK has its home recorded.
    pub open spec fn wf(&self) -> bool {
        &&& distinct(views(self.visited@))
        &&& distinct(views(self.known_homes@))
        &&& self.known_homes@.len() == self.jdks@.len()
    }

    pub fn new() -> (c: Self)
        ensures
            c.wf(),
            c.visited@.len() == 0,
            c.jdks@.len() == 0,
    {
        JdkCollector { visited: Vec::new(), known_homes: Vec::new(), jdks: Vec::new() }
    }

    /// Records a candidate directory (by its canonical path); `true` when it
    /// had not been looked at before and should be inspected now.
    pub fn visit(&mut self, canonical_dir: &str) -> (fresh: bool)
        requires
            old(self).wf(),
        ensures
            final(self).wf(),
            fresh == !views(old(self).visited@).contains(canonical_dir@),
            views(final(self).visited@) == (if fresh {
                views(old(self).visited@).push(canonical_dir@)
            } else {
                views(old(self).visited@)
            }),
            final(self).known_homes@ == old(self).known_homes@,
            final(self).jdks@ == old(self).jdks@,
    {
        if contains_string(&self.visited, canonical_dir) {
            false
        } else {
            let ghost before = views(self.visited@);
            self.visited.push(copy_string(canonical_dir));
            assert(views(self.visited@) =~= before.push(canonical_dir@));
            true
        }
    }

    /// Lists `jdk` unless a JDK with the same canonical home is listed
    /// already; `true` when it was listed.
    pub fn accept(&mut self, canonical_home: &str, jdk: InstalledJdk) -> (added: bool)
        requires
            old(self).wf(),
        ensures
            final(self).wf(),
            added == !views(old(self).known_homes@).contains(canonical_home@),
            views(final(self).known_homes@) == (if added {
                views(old(self).known_homes@).push(canonical_home@)
            } else {
                views(old(self).known_homes@)
            }),
            final(self).jdks@ == (if added {
                old(self).jdks@.push(jdk)
            } else {
                old(self).jdks@
            }),
            final(self).visited@ == old(self).visited@,
    {
        if contains_string(&self.known_homes, canonical_home) {
            false
        } else {
            let ghost before = views(self.known_homes@);
            self.known_homes.push(copy_string(canonical_home));
            self.jdks.push(jdk);
            assert(views(self.known_homes@) =~= before.push(canonical_home@));
            true
        }
    }
}

/// Where JDKs are usually installed on each system, in the order they are
/// searched. The user's home, `%ProgramFiles%` and `%LOCALAPPDATA%` add
/// entries when they are known.
pub open spec fn standard_jdk_roots_spec(
    os: TargetOs,
    home: Option<Seq<char>>,
    program_files: Option<Seq<char>>,
    local_app_data: Option<Seq<char>>,
) -> Seq<Seq<char>> {
    match os {
        TargetOs::Windows => seq![
            "C:\\Program Files\\GraalVm"@,
            "C:\\Program Files\\Java"@,
            "C:\\Program Files\\Eclipse Adoptium"@,
            "C:\\Program Files\\Amazon Corretto"@,
            "C:\\Program Files\\BellSoft"@,
            "C:\\Program Files\\Microsoft"@,
            "C:\\Program Files\\Zulu"@,
        ] + (match program_files {
            Some(p) => seq![join_spec(p, "Java"@), join_spec(p, "GraalVm"@)],
            None => Seq::empty(),
        }) + (match local_app_data {
            Some(l) => seq![join_spec(join_spec(l, "Programs"@), "Eclipse Adoptium"@)],
            None => Seq::empty(),
        }),
        TargetOs::MacOs => seq!["/Library/Java/JavaVirtualMachines"@] + (match home {
            Some(h) => seq![
                join_spec(join_spec(join_spec(h, "Library"@), "Java"@), "JavaVirtualMachines"@),
                join_spec(join_spec(join_spec(h, ".sdkman"@), "candidates"@), "java"@),
            ],
            None => Seq::empty(),
        }),
        _ => seq!["/usr/lib/jvm"@, "/opt/java"@, "/opt/graalvm"@] + (match home {
            Some(h) => seq![join_spec(join_spec(join_spec(h, ".sdkman"@), "candidates"@), "java"@)],
            None => Seq::empty(),
        }),
    }
}

fn join3(a: &str, b: &str, c: &str, d: &str) -> (r: String)
    ensures
        r@ == join_spec(join_spec(join_spec(a@, b@), c@), d@),
{
    let x = path_join(a, b);
    let y = path_join(x.as_str(), c);
    path_join(y.as_str(), d)
}

pub fn standard_jdk_roots(
    os: TargetOs,
    home: Option<&str>,
    program_files: Option<&str>,
    local_app_data: Option<&str>,
) -> (r: Vec<String>)
    ensures
        views(r@) == standard_jdk_roots_spec(
            os,
            match home {
                Some(h) => Some(h@),
                None => None,
            },
            match program_files {
                Some(h) => Some(h@),
                None => None,
            },
            match local_app_data {
                Some(h) => Some(h@),
                None => None,
            },
        ),
{
    let mut r: Vec<String> = Vec::new();
    match os {
        TargetOs::Windows => {
            r.push(copy_string("C:\\Program Files\\GraalVm"));
            r.push(copy_string("C:\\Program Files\\Java"));
            r.push(copy_string("C:\\Program Files\\Eclipse Adoptium"));
            r.push(copy_string("C:\\Program Files\\Amazon Corretto"));
            r.push(copy_string("C:\\Program Files\\BellSoft"));
            r.push(copy_string("C:\\Program Files\\Microsoft"));
            r.push(copy_string("C:\\Program Files\\Zulu"));
            match program_files {
                Some(p) => {
                    r.push(path_join(p, "Java"));
                    r.push(path_join(p, "GraalVm"));
                },
                None => {},
            }
            match local_app_data {
                Some(l) => {
                    let x = path_join(l, "Programs");
                    r.push(path_join(x.as_str(), "Eclipse Adoptium"));
                },
                None => {},
            }
        },
        TargetOs::MacOs => {
            r.push(copy_string("/Library/Java/JavaVirtualMachines"));
            match home {
                Some(h) => {
                    r.push(join3(h, "Library", "Java", "JavaVirtualMachines"));
                    r.push(join3(h, ".sdkman", "candidates", "java"));
                },
                None => {},
            }
        },
        _ => {
            r.push(copy_string("/usr/lib/jvm"));
            r.push(copy_string("/opt/java"));
            r.push(copy_string("/opt/graalvm"));
            match home {
                Some(h) => {
                    r.push(join3(h, ".sdkman", "candidates", "java"));
                },
                None => {},
            }
        },
    }
    assert(views(r@) =~= standard_jdk_roots_spec(
        os,
        match home {
            Some(h) => Some(h@),
            None => None,
        },
        match program_files {
            Some(h) => Some(h@),
            None => None,
        },
        match local_app_data {
            Some(h) => Some(h@),
            None => None,
        },
    ));
    r
}

/// The `java`, `javac`, `jar` and `jpackage` found so far while searching
/// an unpacked JDK.
pub struct BinaryScan {
    pub java: Option<String>,
    pub javac: Option<String>,
    pub jar: Option<String>,
    pub jpackage: Option<String>,
}

pub open spec fn scan_view(s: BinaryScan) -> (
    Option<Seq<char>>,
    Option<Seq<char>>,
    Option<Seq<char>>,
    Option<Seq<char>>,
) {
    (
        crate::install::opt_view(s.java),
        crate::install::opt_view(s.javac),
        crate::install::opt_view(s.jar),
        crate::install::opt_view(s.jpackage),
    )
}

/// A file met in a directory: `java`, `javac`, `jar` or `jpackage` (bare or
/// `.exe`) replaces what was found for that tool.
pub open spec fn scan_file_spec(
    s: (Option<Seq<char>>, Option<Seq<char>>, Option<Seq<char>>, Option<Seq<char>>),
    path: Seq<char>,
    name: Seq<char>,
) -> (Option<Seq<char>>, Option<Seq<char>>, Option<Seq<char>>, Option<Seq<char>>) {
    if name == "java"@ || name == "java.exe"@ {
        (Some(path), s.1, s.2, s.3)
    } else if name == "javac"@ || name == "javac.exe"@ {
        (s.0, Some(path), s.2, s.3)
    } else if name == "jar"@ || name == "jar.exe"@ {
        (s.0, s.1, Some(path), s.3)
    } else if name == "jpackage"@ || name == "jpackage.exe"@ {
        (s.0, s.1, s.2, Some(path))
    } else {
        s
    }
}

pub open spec fn or_else(a: Option<Seq<char>>, b: Option<Seq<char>>) -> Option<Seq<char>> {
    match a {
        Some(x) => Some(x),
        None => b,
    }
}

fn take_if_none(a: &mut Option<String>, b: &Option<String>)
    ensures
        crate::install::opt_view(*final(a)) == or_else(
            crate::install::opt_view(*old(a)),
            crate::install::opt_view(*b),
        ),
{
    if a.is_none() {
        *a = match b {
            Some(x) => Some(x.clone()),
            None => None,
        };
    }
}

fn name_is(name: &[char], lit: &str) -> (b: bool)
    ensures
        b == (name@ == lit@),
{
    let l = chars_of(lit);
    crate::text::chars_eq(name, l.as_slice())
}

impl BinaryScan {
    pub fn empty() -> (s: Self)
        ensures
            scan_view(s) == (None::<Seq<char>>, None::<Seq<char>>, None::<Seq<char>>, None::<Seq<char>>),
    {
        BinaryScan { java: None, javac: None, jar: None, jpackage: None }
    }

    /// Takes in a file found at `path`, named `name`.
    pub fn scan_file(&mut self, path: &str, name: &str)
        ensures
            scan_view(*final(self)) == scan_file_spec(scan_view(*old(self)), path@, name@),
    {
        let n = chars_of(name);
        let ns = n.as_slice();
        if name_is(ns, "java") || name_is(ns, "java.exe") {
            self.java = Some(copy_string(path));
        } else if name_is(ns, "javac") || name_is(ns, "javac.exe") {
            self.javac = Some(copy_string(path));
        } else if name_is(ns, "jar") || name_is(ns, "jar.exe") {
            self.jar = Some(copy_string(path));
        } else if name_is(ns, "jpackage") || name_is(ns, "jpackage.exe") {
            self.jpackage = Some(copy_string(path));
        }
    }

    /// Takes in what a subdirectory's search found: it fills only the tools
    /// not found yet.
    pub fn scan_subdir(&mut self, sub: &BinaryScan)
        ensures
            scan_view(*final(self)) == (
                or_else(scan_view(*old(self)).0, scan_view(*sub).0),
                or_else(scan_view(*old(self)).1, scan_view(*sub).1),
                or_else(scan_view(*old(self)).2, scan_view(*sub).2),
                or_else(scan_view(*old(self)).3, scan_view(*sub).3),
            ),
    {
        take_if_none(&mut self.java, &sub.java);
        take_if_none(&mut self.javac, &sub.javac);
        take_if_none(&mut self.jar, &sub.jar);
        take_if_none(&mut self.jpackage, &sub.jpackage);
    }

    /// The binaries of the unpacked JDK: `java`, `javac` and `jar` must have
    /// been found; `jpackage` falls back to the bare command name.
    pub fn finish(&self) -> (r: Option<(String, String, String, String)>)
        ensures
            match r {
                Some((java, javac, jar, jpackage)) => {
                    &&& scan_view(*self).0 == Some(java@)
                    &&& scan_view(*self).1 == Some(javac@)
                    &&& scan_view(*self).2 == Some(jar@)
                    &&& jpackage@ == match scan_view(*self).3 {
                        Some(p) => p,
                        None => "jpackage"@,
                    }
                },
                None => scan_view(*self).0 is None || scan_view(*self).1 is None || scan_view(
                    *self,
                ).2 is None,
            },
    {
        let jpackage = match &self.jpackage {
            Some(p) => p.clone(),
            None => copy_string("jpackage"),
        };
        match (&self.java, &self.javac, &self.jar) {
            (Some(a), Some(b), Some(c)) => Some((a.clone(), b.clone(), c.clone(), jpackage)),
            _ => None,
        }
    }
}

/// The Adoptium address of the latest Temurin JDK build of `version` for a
/// system, or why there is none.
pub open spec fn adoptium_url_spec(version: Seq<char>, os: TargetOs, arch: TargetArch) -> Result<
    Seq<char>,
    Seq<char>,
> {
    let os_name = match os {
        TargetOs::Linux => Some("linux"@),
        TargetOs::MacOs => Some("mac"@),
        TargetOs::Windows => Some("windows"@),
        TargetOs::Other => None,
    };
    let arch_name = match arch {
        TargetArch::X86_64 => Some("x64"@),
        TargetArch::Aarch64 => Some("aarch64"@),
        TargetArch::Other => None,
    };
    match os_name {
        None => Err("Sistema operativo no soportado para auto-descarga de JDK"@),
        Some(o) => match arch_name {
            None => Err("Arquitectura no soportada para auto-descarga de JDK"@),
            Some(a) => Ok(
                "https://api.adoptium.net/v3/binary/latest/"@ + version + "/ga/"@ + o + "/"@ + a
                    + "/jdk/hotspot/normal/eclipse?project=jdk"@,
            ),
        },
    }
}

pub fn adoptium_url(version: &str, os: TargetOs, arch: TargetArch) -> (r: Result<String, String>)
    ensures
        match r {
            Ok(u) => adoptium_url_spec(version@, os, arch) == Ok::<Seq<char>, Seq<char>>(u@),
            Err(e) => adoptium_url_spec(version@, os, arch) == Err::<Seq<char>, Seq<char>>(e@),
        },
{
    let os_name = match os {
        TargetOs::Linux => "linux",
        TargetOs::MacOs => "mac",
        TargetOs::Windows => "windows",
        TargetOs::Other => {
            return Err(copy_string("Sistema operativo no soportado para auto-descarga de JDK"));
        },
    };
    let arch_name = match arch {
        TargetArch::X86_64 => "x64",
        TargetArch::Aarch64 => "aarch64",
        TargetArch::Other => {
            return Err(copy_string("Arquitectura no soportada para auto-descarga de JDK"));
        },
    };
    let mut u = copy_string("https://api.adoptium.net/v3/binary/latest/");
    push_str(&mut u, version);
    push_str(&mut u, "/ga/");
    push_str(&mut u, os_name);
    push_str(&mut u, "/");
    push_str(&mut u, arch_name);
    push_str(&mut u, "/jdk/hotspot/normal/eclipse?project=jdk");
    Ok(u)
}

/// The toolchain of a JDK that was unpacked into (or found in) Jolt's cache
/// without being recognised by its version output: the version asked for,
/// its major version (21 when none can be read), the given vendor name and
/// no `native-image`.
pub fn cached_toolchain(
    version: &str,
    vendor: &str,
    java: String,
    javac: String,
    jar: String,
    jpackage: String,
) -> (t: Toolchain)
    ensures
        t.version@ == version@,
        t.major_version == match java_major_version(version@) {
            Some(m) => m,
            None => 21,
        },
        t.vendor@ == vendor@,
        t.java_bin == java,
        t.javac_bin == javac,
        t.jar_bin == jar,
        t.jpackage_bin == jpackage,
        t.native_image_bin is None,
{
    let major = match parse_java_major_version(version) {
        Some(m) => m,
        None => 21,
    };
    Toolchain {
        version: copy_string(version),
        major_version: major,
        vendor: copy_string(vendor),
        java_bin: java,
        javac_bin: javac,
        jar_bin: jar,
        jpackage_bin: jpackage,
        native_image_bin: None,
    }
}

/// What resolving a toolchain does next.
pub enum ToolchainStep {
    /// Use this toolchain.
    Use(Toolchain),
    /// Download Temurin.
    Download,
    /// Report that no compatible JDK is installed.
    ReportMissing,
}

/// The toolchain order: Jolt's cache first, then the system, then a
/// download when it is allowed.
pub fn next_toolchain_step(cached: Option<Toolchain>, system: Option<Toolchain>, allow_download: bool) -> (r:
    ToolchainStep)
    ensures
        match cached {
            Some(c) => r == ToolchainStep::Use(c),
            None => match system {
                Some(s) => r == ToolchainStep::Use(s),
                None => if allow_download {
                    r is Download
                } else {
                    r is ReportMissing
                },
            },
        },
{
    match cached {
        Some(c) => ToolchainStep::Use(c),
        None => match system {
            Some(s) => ToolchainStep::Use(s),
            None => if allow_download {
                ToolchainStep::Download
            } else {
                ToolchainStep::ReportMissing
            },
        },
    }
}

/// The line listing one installed JDK that does not qualify.
pub open spec fn jdk_line(j: InstalledJdk) -> Seq<char> {
    "  • "@ + j.vendor@ + " (Java "@ + decimal(j.major_version as nat) + ") en "@ + j.home_dir@
        + "\n"@
}

pub open spec fn jdk_lines(js: Seq<InstalledJdk>) -> Seq<char>
    decreases js.len(),
{
    if js.len() == 0 {
        Seq::empty()
    } else {
        jdk_lines(js.drop_last()) + jdk_line(js.last())
    }
}

/// The message when no compatible JDK is installed and downloading is not
/// allowed, listing the JDKs that were found.
pub open spec fn missing_jdk_message_spec(requested: Seq<char>, found: Seq<InstalledJdk>) -> Seq<char> {
    "No se encontró un JDK compatible (Java "@ + requested
        + " o superior) instalado en tu sistema.\n"@ + (if found.len() > 0 {
        "\nJDKs detectados en tu entorno que no cumplen el requisito:\n"@ + jdk_lines(found)
    } else {
        "No se detectó ningún JDK instalado en PATH, JAVA_HOME, GRAALVM_HOME ni en las rutas estándar.\n"@
    }) + "\n👉 Solución: Instala Java "@ + requested
        + " (o superior, ej. Oracle GraalVM, Eclipse Temurin) o agrega tu JDK actual al PATH / JAVA_HOME.\n"@
        + "💡 Para que Jolt descargue e instale automáticamente Eclipse Temurin "@ + requested
        + ", ejecuta con el argumento '--download-jdk'."@
}

pub fn missing_jdk_message(requested: &str, found: &Vec<InstalledJdk>) -> (r: String)
    ensures
        r@ == missing_jdk_message_spec(requested@, found@),
{
    let mut msg = copy_string("No se encontró un JDK compatible (Java ");
    push_str(&mut msg, requested);
    push_str(&mut msg, " o superior) instalado en tu sistema.\n");
    let ghost head = msg@;
    if found.len() > 0 {
        push_str(&mut msg, "\nJDKs detectados en tu entorno que no cumplen el requisito:\n");
        let ghost start = msg@;
        let mut i: usize = 0;
        while i < found.len()
            invariant
                i <= found.len(),
                msg@ == start + jdk_lines(found@.take(i as int)),
            decreases found.len() - i,
        {
            assert(found@.take(i + 1).drop_last() =~= found@.take(i as int));
            push_str(&mut msg, "  • ");
            push_str(&mut msg, found[i].vendor.as_str());
            push_str(&mut msg, " (Java ");
            push_decimal(&mut msg, found[i].major_version as u64);
            push_str(&mut msg, ") en ");
            push_str(&mut msg, found[i].home_dir.as_str());
            push_str(&mut msg, "\n");
            assert(msg@ =~= start + jdk_lines(found@.take(i + 1)));
            i += 1;
        }
        assert(found@.take(found.len() as int) =~= found@);
    } else {
        push_str(
            &mut msg,
            "No se detectó ningún JDK instalado en PATH, JAVA_HOME, GRAALVM_HOME ni en las rutas estándar.\n",
        );
    }
    push_str(&mut msg, "\n👉 Solución: Instala Java ");
    push_str(&mut msg, requested);
    push_str(
        &mut msg,
        " (o superior, ej. Oracle GraalVM, Eclipse Temurin) o agrega tu JDK actual al PATH / JAVA_HOME.\n",
    );
    push_str(&mut msg, "💡 Para que Jolt descargue e instale automáticamente Eclipse Temurin ");
    push_str(&mut msg, requested);
    push_str(&mut msg, ", ejecuta con el argumento '--download-jdk'.");
    assert(msg@ =~= missing_jdk_message_spec(requested@, found@));
    msg
}

} // verus!
