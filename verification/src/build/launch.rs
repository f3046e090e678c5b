//! The command lines a build runs (`javac`, `java`, the JUnit launcher,
//! `native-image`, UPX), the sources and classpath they are given, and the
//! messages their failures turn into.
use vstd::prelude::*;
use crate::build::compiler::views;
use crate::manifest::GraalVmConfig;
use crate::paths::{clean_path, clean_path_spec, join_spec, path_join};
use crate::text::{chars_of, copy_string, decimal, push_decimal, push_str, starts_with, starts_with_chars};
use crate::toolchain::detector::{lowercase_of, to_lowercase};
use crate::toolchain::probe::TargetOs;

verus! {

/// `Path::starts_with` for normalised paths: `p` is `base` or lies below it.
pub open spec fn path_is_under(p: Seq<char>, base: Seq<char>) -> bool {
    p == base || starts_with(p, base + "/"@)
}

pub fn path_is_under_exec(p: &str, base: &str) -> (b: bool)
    ensures
        b == path_is_under(p@, base@),
{
    let pc = chars_of(p);
    let bc = chars_of(base);
    if crate::text::chars_eq(pc.as_slice(), bc.as_slice()) {
        return true;
    }
    let mut prefix = copy_string(base);
    push_str(&mut prefix, "/");
    let prc = chars_of(prefix.as_str());
    starts_with_chars(pc.as_slice(), prc.as_slice())
}

pub open spec fn outside_of(files: Seq<Seq<char>>, dir: Seq<char>) -> Seq<Seq<char>>
    decreases files.len(),
{
    if files.len() == 0 {
        files
    } else {
        let rest = outside_of(files.drop_last(), dir);
        if path_is_under(files.last(), dir) {
            rest
        } else {
            rest.push(files.last())
        }
    }
}

/// The Java files `javac` compiles: those found under `src/main/java` and
/// `src/main` when either exists, else those under `src` that are not under
/// `src/test`.
pub open spec fn main_sources_spec(
    main_java: Seq<Seq<char>>,
    main: Seq<Seq<char>>,
    found_main_dir: bool,
    all_src: Seq<Seq<char>>,
    test_dir: Seq<char>,
) -> Seq<Seq<char>> {
    if found_main_dir {
        main_java + main
    } else {
        outside_of(all_src, test_dir)
    }
}

pub fn main_sources(
    main_java: &Vec<String>,
    main: &Vec<String>,
    found_main_dir: bool,
    all_src: &Vec<String>,
    test_dir: &str,
) -> (r: Vec<String>)
    ensures
        views(r@) == main_sources_spec(
            views(main_java@),
            views(main@),
            found_main_dir,
            views(all_src@),
            test_dir@,
        ),
{
    let mut r: Vec<String> = Vec::new();
    if found_main_dir {
        let mut i: usize = 0;
        while i < main_java.len()
            invariant
                i <= main_java.len(),
                views(r@) == views(main_java@.take(i as int)),
            decreases main_java.len() - i,
        {
            r.push(main_java[i].clone());
            assert(views(main_java@.take(i + 1)) =~= views(main_java@.take(i as int)).push(
                main_java@[i as int]@,
            ));
            assert(views(r@) =~= views(main_java@.take(i + 1)));
            i += 1;
        }
        assert(main_java@.take(main_java.len() as int) =~= main_java@);
        let mut j: usize = 0;
        while j < main.len()
            invariant
                j <= main.len(),
                views(r@) == views(main_java@) + views(main@.take(j as int)),
            decreases main.len() - j,
        {
            let ghost before = views(r@);
            r.push(main[j].clone());
            assert(views(r@) =~= before.push(main@[j as int]@));
            assert(views(main@.take(j + 1)) =~= views(main@.take(j as int)).push(main@[j as int]@));
            assert(views(r@) =~= views(main_java@) + views(main@.take(j + 1)));
            j += 1;
        }
        assert(main@.take(main.len() as int) =~= main@);
    } else {
        let mut i: usize = 0;
        while i < all_src.len()
            invariant
                i <= all_src.len(),
                views(r@) == outside_of(views(all_src@.take(i as int)), test_dir@),
            decreases all_src.len() - i,
        {
            assert(views(all_src@.take(i + 1)).drop_last() =~= views(all_src@.take(i as int)));
            assert(views(all_src@.take(i + 1)).last() == all_src@[i as int]@);
            let ghost before = views(r@);
            if !path_is_under_exec(all_src[i].as_str(), test_dir) {
                r.push(all_src[i].clone());
                assert(views(r@) =~= before.push(all_src@[i as int]@));
            }
            i += 1;
        }
        assert(all_src@.take(all_src.len() as int) =~= all_src@);
    }
    r
}

/// The error when there is nothing to compile.
pub fn no_sources_message() -> (r: String)
    ensures
        r@ == "No se encontraron archivos .java en el directorio fuente principal ('src/main/java' o 'src/')"@,
{
    copy_string(
        "No se encontraron archivos .java en el directorio fuente principal ('src/main/java' o 'src/')",
    )
}

/// The error when there are no tests to compile.
pub fn no_tests_message() -> (r: String)
    ensures
        r@ == "No se encontraron archivos de prueba en 'src/test/java/'"@,
{
    copy_string("No se encontraron archivos de prueba en 'src/test/java/'")
}

/// The arguments of `javac`: the output directory, the classpath when
/// there is one, then the files.
pub open spec fn javac_args_spec(out_dir: Seq<char>, classpath: Seq<char>, files: Seq<Seq<char>>) -> Seq<Seq<char>> {
    seq!["-d"@, out_dir] + (if classpath.len() > 0 {
        seq!["-cp"@, classpath]
    } else {
        Seq::empty()
    }) + files
}

/// The `.jolt` folders whose JARs go on a classpath: the main code sees
/// `modules`; the tests see `modules`, then `dev-modules`.
pub fn classpath_folders(for_tests: bool) -> (r: Vec<String>)
    ensures
        r@.len() == (if for_tests { 2int } else { 1int }),
        r@[0]@ == "modules"@,
        for_tests ==> r@[1]@ == "dev-modules"@,
{
    let mut r: Vec<String> = Vec::new();
    r.push(copy_string("modules"));
    if for_tests {
        r.push(copy_string("dev-modules"));
    }
    r
}

pub fn javac_args(out_dir: &str, classpath: &str, files: &Vec<String>) -> (r: Vec<String>)
    ensures
        views(r@) == javac_args_spec(out_dir@, classpath@, views(files@)),
{
    let mut r: Vec<String> = Vec::new();
    r.push(copy_string("-d"));
    r.push(copy_string(out_dir));
    if classpath.unicode_len() > 0 {
        r.push(copy_string("-cp"));
        r.push(copy_string(classpath));
    }
    let ghost head = views(r@);
    assert(head =~= seq!["-d"@, out_dir@] + (if classpath@.len() > 0 {
        seq!["-cp"@, classpath@]
    } else {
        Seq::empty()
    }));
    let mut i: usize = 0;
    while i < files.len()
        invariant
            i <= files.len(),
            views(r@) == head + views(files@.take(i as int)),
        decreases files.len() - i,
    {
        let ghost before = views(r@);
        r.push(files[i].clone());
        assert(views(r@) =~= before.push(files@[i as int]@));
        assert(views(files@.take(i + 1)) =~= views(files@.take(i as int)).push(files@[i as int]@));
        assert(views(r@) =~= head + views(files@.take(i + 1)));
        i += 1;
    }
    assert(files@.take(files.len() as int) =~= files@);
    r
}

/// The arguments of `java` to run a program: the classpath when there is
/// one, then the main class.
pub fn java_run_args(classpath: &str, main_class: &str) -> (r: Vec<String>)
    ensures
        views(r@) == (if classpath@.len() > 0 {
            seq!["-cp"@, classpath@]
        } else {
            Seq::empty()
        }).push(main_class@),
{
    let mut r: Vec<String> = Vec::new();
    if classpath.unicode_len() > 0 {
        r.push(copy_string("-cp"));
        r.push(copy_string(classpath));
    }
    r.push(copy_string(main_class));
    assert(views(r@) =~= (if classpath@.len() > 0 {
        seq!["-cp"@, classpath@]
    } else {
        Seq::empty()
    }).push(main_class@));
    r
}

/// The arguments of `java` to run the JUnit console launcher over a
/// classpath.
pub fn junit_args(junit_jar: &str, scan_classpath: &str) -> (r: Vec<String>)
    ensures
        views(r@) == seq![
            "-jar"@,
            junit_jar@,
            "execute"@,
            "--class-path"@,
            scan_classpath@,
            "--scan-class-path"@,
            "--disable-banner"@,
            "--details=tree"@,
        ],
{
    let mut r: Vec<String> = Vec::new();
    r.push(copy_string("-jar"));
    r.push(copy_string(junit_jar));
    r.push(copy_string("execute"));
    r.push(copy_string("--class-path"));
    r.push(copy_string(scan_classpath));
    r.push(copy_string("--scan-class-path"));
    r.push(copy_string("--disable-banner"));
    r.push(copy_string("--details=tree"));
    assert(views(r@) =~= seq![
        "-jar"@,
        junit_jar@,
        "execute"@,
        "--class-path"@,
        scan_classpath@,
        "--scan-class-path"@,
        "--disable-banner"@,
        "--details=tree"@,
    ]);
    r
}

/// A failed compilation, with what the compiler reported.
pub fn compile_failure(stderr: &str) -> (r: String)
    ensures
        r@ == "Fallo en la compilación Java:\n"@ + stderr@,
{
    let mut r = copy_string("Fallo en la compilación Java:\n");
    push_str(&mut r, stderr);
    r
}

/// A failed compilation of the tests, with what the compiler reported.
pub fn test_compile_failure(stderr: &str) -> (r: String)
    ensures
        r@ == "Fallo en la compilación de pruebas Java:\n"@ + stderr@,
{
    let mut r = copy_string("Fallo en la compilación de pruebas Java:\n");
    push_str(&mut r, stderr);
    r
}

/// An `i32` in decimal, with a leading `-` when negative.
pub open spec fn int_text(n: i32) -> Seq<char> {
    if n < 0 {
        "-"@ + decimal((-(n as int)) as nat)
    } else {
        decimal(n as nat)
    }
}

/// An exit code as `{:?}` shows an `Option<i32>`: `Some(<code>)` or `None`.
pub open spec fn exit_code_text(code: Option<i32>) -> Seq<char> {
    match code {
        Some(c) => "Some("@ + int_text(c) + ")"@,
        None => "None"@,
    }
}

pub fn push_exit_code(s: &mut String, code: Option<i32>)
    ensures
        final(s)@ == old(s)@ + exit_code_text(code),
{
    match code {
        Some(c) => {
            push_str(s, "Some(");
            if c < 0 {
                push_str(s, "-");
                let m: i64 = -(c as i64);
                push_decimal(s, m as u64);
            } else {
                push_decimal(s, c as u64);
            }
            push_str(s, ")");
        },
        None => push_str(s, "None"),
    }
}

/// The error when the program run exits unsuccessfully.
pub fn program_exit_message(code: Option<i32>) -> (r: String)
    ensures
        r@ == "El programa terminó con código de salida: "@ + exit_code_text(code),
{
    let mut r = copy_string("El programa terminó con código de salida: ");
    push_exit_code(&mut r, code);
    r
}

/// The error when the test suite fails.
pub fn tests_failed_message(code: Option<i32>) -> (r: String)
    ensures
        r@ == "Las pruebas unitarias terminaron con errores (código: "@ + exit_code_text(code) + ")"@,
{
    let mut r = copy_string("Las pruebas unitarias terminaron con errores (código: ");
    push_exit_code(&mut r, code);
    push_str(&mut r, ")");
    r
}

/// The error when `native-image` fails.
pub fn native_image_failed_message(code: Option<i32>) -> (r: String)
    ensures
        r@ == "Fallo en la compilación nativa con GraalVM (código: "@ + exit_code_text(code) + ")"@,
{
    let mut r = copy_string("Fallo en la compilación nativa con GraalVM (código: ");
    push_exit_code(&mut r, code);
    push_str(&mut r, ")");
    r
}

/// Watch mode restarts on a created, modified or removed file, at most once
/// every 300 ms.
pub open spec fn should_reload_spec(is_change: bool, elapsed_ms: u128) -> bool {
    is_change && elapsed_ms >= 300
}

pub fn should_reload(is_change: bool, elapsed_ms: u128) -> (b: bool)
    ensures
        b == should_reload_spec(is_change, elapsed_ms),
{
    is_change && elapsed_ms >= 300
}

/// `Path::extension` of a file name: what follows the last `.`, unless the
/// name has no `.` or its only `.` starts it.
pub open spec fn last_dot(name: Seq<char>, i: int) -> Option<int>
    decreases i,
{
    if i <= 0 {
        None
    } else if name[i - 1] == '.' {
        Some(i - 1)
    } else {
        last_dot(name, i - 1)
    }
}

pub open spec fn extension_of(name: Seq<char>) -> Option<Seq<char>> {
    match last_dot(name, name.len() as int) {
        Some(k) => if k == 0 {
            None
        } else {
            Some(name.skip(k + 1))
        },
        None => None,
    }
}

pub fn extension_exec(name: &str) -> (r: Option<String>)
    ensures
        match r {
            Some(e) => extension_of(name@) == Some(e@),
            None => extension_of(name@) is None,
        },
{
    let c = chars_of(name);
    let mut i: usize = c.len();
    while i > 0
        invariant
            i <= c.len(),
            c@ == name@,
            last_dot(c@, c@.len() as int) == last_dot(c@, i as int),
        decreases i,
    {
        if c[i - 1] == '.' {
            if i - 1 == 0 {
                return None;
            }
            let mut e: Vec<char> = Vec::new();
            let mut k: usize = i;
            while k < c.len()
                invariant
                    i <= k <= c.len(),
                    e@ == c@.subrange(i as int, k as int),
                decreases c.len() - k,
            {
                e.push(c[k]);
                assert(e@ =~= c@.subrange(i as int, k + 1));
                k += 1;
            }
            assert(e@ =~= c@.skip(i as int));
            return Some(crate::text::string_of(e.as_slice()));
        }
        i -= 1;
    }
    None
}

/// The files UPX compresses: executables and shared libraries, by their
/// lowercased extension (`exe`, `dll`, `so`).
pub open spec fn is_upx_target_spec(name: Seq<char>) -> bool {
    let ext = match extension_of(name) {
        Some(e) => lowercase_of(e),
        None => lowercase_of(Seq::empty()),
    };
    ext == "exe"@ || ext == "dll"@ || ext == "so"@
}

pub fn is_upx_target(name: &str) -> (b: bool)
    ensures
        b == is_upx_target_spec(name@),
{
    let ext = match extension_exec(name) {
        Some(e) => e,
        None => String::new(),
    };
    let lower = to_lowercase(ext.as_str());
    let l = chars_of(lower.as_str());
    let ls = l.as_slice();
    let a = chars_of("exe");
    let b = chars_of("dll");
    let c = chars_of("so");
    crate::text::chars_eq(ls, a.as_slice()) || crate::text::chars_eq(ls, b.as_slice())
        || crate::text::chars_eq(ls, c.as_slice())
}

/// The arguments UPX is run with: those configured, else `--best --lzma`.
pub fn upx_args(custom: Option<&Vec<String>>) -> (r: Vec<String>)
    ensures
        views(r@) == match custom {
            Some(c) => views(c@),
            None => seq!["--best"@, "--lzma"@],
        },
{
    match custom {
        Some(c) => crate::install::copy_strings(c),
        None => {
            let mut r: Vec<String> = Vec::new();
            r.push(copy_string("--best"));
            r.push(copy_string("--lzma"));
            assert(views(r@) =~= seq!["--best"@, "--lzma"@]);
            r
        },
    }
}

/// The running totals of a UPX pass: bytes before, bytes after, files that
/// shrank.
pub struct UpxTotals {
    pub bytes_before: u64,
    pub bytes_after: u64,
    pub count: usize,
}

impl UpxTotals {
    pub fn new() -> (t: Self)
        ensures
            t.bytes_before == 0 && t.bytes_after == 0 && t.count == 0,
    {
        UpxTotals { bytes_before: 0, bytes_after: 0, count: 0 }
    }

    /// Counts one file: it counts as compressed when UPX succeeded and the
    /// file became smaller; its size afterwards is added either way.
    pub fn record(&mut self, len_before: u64, new_len: u64, ok: bool)
        requires
            old(self).bytes_before + len_before <= u64::MAX,
            old(self).bytes_after + new_len <= u64::MAX,
            old(self).count < usize::MAX,
        ensures
            final(self).bytes_before == old(self).bytes_before + len_before,
            final(self).bytes_after == old(self).bytes_after + new_len,
            final(self).count == old(self).count + (if ok && new_len < len_before {
                1int
            } else {
                0int
            }),
    {
        self.bytes_before = self.bytes_before + len_before;
        self.bytes_after = self.bytes_after + new_len;
        if ok && new_len < len_before {
            self.count = self.count + 1;
        }
    }
}

/// Where `upx` is looked for after `PATH`: on Windows, Scoop's shims and
/// Chocolatey's bin directory.
pub open spec fn upx_candidates_spec(os: TargetOs, home: Option<Seq<char>>) -> Seq<Seq<char>> {
    if os == TargetOs::Windows {
        (match home {
            Some(h) => seq![
                join_spec(join_spec(join_spec(h, "scoop"@), "shims"@), "upx.exe"@),
                join_spec(
                    join_spec(join_spec(join_spec(join_spec(h, "AppData"@), "Local"@), "scoop"@), "shims"@),
                    "upx.exe"@,
                ),
            ],
            None => Seq::empty(),
        }).push("C:\\ProgramData\\chocolatey\\bin\\upx.exe"@)
    } else {
        Seq::empty()
    }
}

pub fn upx_candidates(os: TargetOs, home: Option<&str>) -> (r: Vec<String>)
    ensures
        views(r@) == upx_candidates_spec(
            os,
            match home {
                Some(h) => Some(h@),
                None => None,
            },
        ),
{
    let mut r: Vec<String> = Vec::new();
    if os == TargetOs::Windows {
        match home {
            Some(h) => {
                let a = path_join(h, "scoop");
                let b = path_join(a.as_str(), "shims");
                r.push(path_join(b.as_str(), "upx.exe"));
                let c = path_join(h, "AppData");
                let d = path_join(c.as_str(), "Local");
                let e = path_join(d.as_str(), "scoop");
                let f = path_join(e.as_str(), "shims");
                r.push(path_join(f.as_str(), "upx.exe"));
            },
            None => {},
        }
        r.push(copy_string("C:\\ProgramData\\chocolatey\\bin\\upx.exe"));
    }
    assert(views(r@) =~= upx_candidates_spec(
        os,
        match home {
            Some(h) => Some(h@),
            None => None,
        },
    ));
    r
}

/// Where `makensis` is looked for after `PATH`: on Windows, the two
/// Program Files installs, then Scoop's app and shim.
pub open spec fn makensis_candidates_spec(os: TargetOs, home: Option<Seq<char>>) -> Seq<Seq<char>> {
    if os == TargetOs::Windows {
        seq![
            "C:\\Program Files (x86)\\NSIS\\makensis.exe"@,
            "C:\\Program Files\\NSIS\\makensis.exe"@,
        ] + match home {
            Some(h) => seq![
                join_spec(
                    join_spec(join_spec(join_spec(join_spec(h, "scoop"@), "apps"@), "nsis"@), "current"@),
                    "makensis.exe"@,
                ),
                join_spec(join_spec(join_spec(h, "scoop"@), "shims"@), "makensis.exe"@),
            ],
            None => Seq::empty(),
        }
    } else {
        Seq::empty()
    }
}

pub fn makensis_candidates(os: TargetOs, home: Option<&str>) -> (r: Vec<String>)
    ensures
        views(r@) == makensis_candidates_spec(
            os,
            match home {
                Some(h) => Some(h@),
                None => None,
            },
        ),
{
    let mut r: Vec<String> = Vec::new();
    if os == TargetOs::Windows {
        r.push(copy_string("C:\\Program Files (x86)\\NSIS\\makensis.exe"));
        r.push(copy_string("C:\\Program Files\\NSIS\\makensis.exe"));
        match home {
            Some(h) => {
                let a = path_join(h, "scoop");
                let b = path_join(a.as_str(), "apps");
                let c = path_join(b.as_str(), "nsis");
                let d = path_join(c.as_str(), "current");
                r.push(path_join(d.as_str(), "makensis.exe"));
                let e = path_join(a.as_str(), "shims");
                r.push(path_join(e.as_str(), "makensis.exe"));
            },
            None => {},
        }
    }
    assert(views(r@) =~= makensis_candidates_spec(
        os,
        match home {
            Some(h) => Some(h@),
            None => None,
        },
    ));
    r
}

/// Where `native-image` is looked for when the toolchain has none:
/// `GRAALVM_HOME/bin`, then each `PATH` entry, each with the `.cmd`, `.exe`
/// and plain names in turn.
pub open spec fn ni_in(dir: Seq<char>) -> Seq<Seq<char>> {
    seq![
        join_spec(dir, "native-image.cmd"@),
        join_spec(dir, "native-image.exe"@),
        join_spec(dir, "native-image"@),
    ]
}

pub open spec fn ni_in_all(dirs: Seq<Seq<char>>) -> Seq<Seq<char>>
    decreases dirs.len(),
{
    if dirs.len() == 0 {
        Seq::empty()
    } else {
        ni_in_all(dirs.drop_last()) + ni_in(dirs.last())
    }
}

pub open spec fn native_image_candidates_spec(graalvm_home: Option<Seq<char>>, path_entries: Seq<Seq<char>>) -> Seq<Seq<char>> {
    (match graalvm_home {
        Some(g) => ni_in(join_spec(g, "bin"@)),
        None => Seq::empty(),
    }) + ni_in_all(path_entries)
}

fn push_ni(r: &mut Vec<String>, dir: &str)
    ensures
        views(final(r)@) == views(old(r)@) + ni_in(dir@),
{
    let ghost before = views(r@);
    r.push(path_join(dir, "native-image.cmd"));
    r.push(path_join(dir, "native-image.exe"));
    r.push(path_join(dir, "native-image"));
    assert(views(r@) =~= before + ni_in(dir@));
}

pub fn native_image_candidates(graalvm_home: Option<&str>, path_entries: &Vec<String>) -> (r: Vec<String>)
    ensures
        views(r@) == native_image_candidates_spec(
            match graalvm_home {
                Some(g) => Some(g@),
                None => None,
            },
            views(path_entries@),
        ),
{
    let mut r: Vec<String> = Vec::new();
    match graalvm_home {
        Some(g) => {
            let b = path_join(g, "bin");
            push_ni(&mut r, b.as_str());
        },
        None => {},
    }
    let ghost head = views(r@);
    assert(head =~= match graalvm_home {
        Some(g) => ni_in(join_spec(g@, "bin"@)),
        None => Seq::empty(),
    });
    let mut i: usize = 0;
    while i < path_entries.len()
        invariant
            i <= path_entries.len(),
            views(r@) == head + ni_in_all(views(path_entries@.take(i as int))),
        decreases path_entries.len() - i,
    {
        assert(views(path_entries@.take(i + 1)).drop_last() =~= views(path_entries@.take(i as int)));
        assert(views(path_entries@.take(i + 1)).last() == path_entries@[i as int]@);
        push_ni(&mut r, path_entries[i].as_str());
        assert(views(r@) =~= head + ni_in_all(views(path_entries@.take(i + 1))));
        i += 1;
    }
    assert(path_entries@.take(path_entries.len() as int) =~= path_entries@);
    r
}

/// The error when no `native-image` can be found.
pub fn native_image_missing_message() -> (r: String)
    ensures
        r@ == "No se encontró el ejecutable 'native-image'. Asegúrate de tener GraalVM instalado con el componente native-image en tu PATH o GRAALVM_HOME."@,
{
    copy_string(
        "No se encontró el ejecutable 'native-image'. Asegúrate de tener GraalVM instalado con el componente native-image en tu PATH o GRAALVM_HOME.",
    )
}

/// The name of the native binary: the configured one, else the project's.
pub open spec fn native_binary_name_spec(config: Option<GraalVmConfig>, project_name: Seq<char>) -> Seq<char> {
    match config {
        Some(c) => match c.name {
            Some(n) => n@,
            None => project_name,
        },
        None => project_name,
    }
}

pub fn native_binary_name(config: Option<&GraalVmConfig>, project_name: &str) -> (r: String)
    ensures
        r@ == native_binary_name_spec(
            match config {
                Some(c) => Some(*c),
                None => None,
            },
            project_name@,
        ),
{
    match config {
        Some(c) => match &c.name {
            Some(n) => n.clone(),
            None => copy_string(project_name),
        },
        None => copy_string(project_name),
    }
}

/// A configuration file as `native-image` receives it: relative paths are
/// taken from the project directory under the working directory; the
/// result loses any `\\?\` prefix.
pub open spec fn config_file_path(cwd: Seq<char>, project_dir: Seq<char>, p: Seq<char>) -> Seq<char> {
    clean_path_spec(
        if starts_with(p, "/"@) {
            p
        } else {
            join_spec(join_spec(cwd, project_dir), p)
        },
    )
}

fn config_file_path_exec(cwd: &str, project_dir: &str, p: &str) -> (r: String)
    ensures
        r@ == config_file_path(cwd@, project_dir@, p@),
{
    let pc = chars_of(p);
    let slash = chars_of("/");
    let raw = if starts_with_chars(pc.as_slice(), slash.as_slice()) {
        copy_string(p)
    } else {
        let a = path_join(cwd, project_dir);
        path_join(a.as_str(), p)
    };
    clean_path(raw.as_str())
}

/// The arguments of `native-image`: the fat JAR, the output name, the
/// configured arguments, then the reflection and resource configuration
/// files when they are set.
pub open spec fn native_image_args_spec(
    jar: Seq<char>,
    bin_name: Seq<char>,
    config: Option<GraalVmConfig>,
    cwd: Seq<char>,
    project_dir: Seq<char>,
) -> Seq<Seq<char>> {
    seq!["-jar"@, jar, "-o"@, bin_name] + match config {
        Some(c) => (match c.args {
            Some(a) => views(a@),
            None => Seq::empty(),
        }) + (match c.reflection_config {
            Some(r) => seq!["-H:ReflectionConfigurationFiles="@ + config_file_path(cwd, project_dir, r@)],
            None => Seq::empty(),
        }) + (match c.resources_config {
            Some(r) => seq!["-H:ResourceConfigurationFiles="@ + config_file_path(cwd, project_dir, r@)],
            None => Seq::empty(),
        }),
        None => Seq::empty(),
    }
}

pub fn native_image_args(
    jar: &str,
    bin_name: &str,
    config: Option<&GraalVmConfig>,
    cwd: &str,
    project_dir: &str,
) -> (r: Vec<String>)
    ensures
        views(r@) == native_image_args_spec(
            jar@,
            bin_name@,
            match config {
                Some(c) => Some(*c),
                None => None,
            },
            cwd@,
            project_dir@,
        ),
{
    let mut r: Vec<String> = Vec::new();
    r.push(copy_string("-jar"));
    r.push(copy_string(jar));
    r.push(copy_string("-o"));
    r.push(copy_string(bin_name));
    let ghost head = views(r@);
    assert(head =~= seq!["-jar"@, jar@, "-o"@, bin_name@]);
    match config {
        Some(c) => {
            match &c.args {
                Some(a) => {
                    let mut i: usize = 0;
                    while i < a.len()
                        invariant
                            i <= a.len(),
                            views(r@) == head + views(a@.take(i as int)),
                        decreases a.len() - i,
                    {
                        let ghost before = views(r@);
                        r.push(a[i].clone());
                        assert(views(r@) =~= before.push(a@[i as int]@));
                        assert(views(a@.take(i + 1)) =~= views(a@.take(i as int)).push(a@[i as int]@));
                        assert(views(r@) =~= head + views(a@.take(i + 1)));
                        i += 1;
                    }
                    assert(a@.take(a.len() as int) =~= a@);
                },
                None => {
                    assert(views(r@) =~= head + Seq::<Seq<char>>::empty());
                },
            }
            let ghost mid = views(r@);
            match &c.reflection_config {
                Some(rc) => {
                    let mut s = copy_string("-H:ReflectionConfigurationFiles=");
                    let p = config_file_path_exec(cwd, project_dir, rc.as_str());
                    push_str(&mut s, p.as_str());
                    r.push(s);
                },
                None => {},
            }
            let ghost mid2 = views(r@);
            assert(mid2 =~= mid + match c.reflection_config {
                Some(rc) => seq!["-H:ReflectionConfigurationFiles="@ + config_file_path(cwd@, project_dir@, rc@)],
                None => Seq::empty(),
            });
            match &c.resources_config {
                Some(rc) => {
                    let mut s = copy_string("-H:ResourceConfigurationFiles=");
                    let p = config_file_path_exec(cwd, project_dir, rc.as_str());
                    push_str(&mut s, p.as_str());
                    r.push(s);
                },
                None => {},
            }
            assert(views(r@) =~= mid2 + match c.resources_config {
                Some(rc) => seq!["-H:ResourceConfigurationFiles="@ + config_file_path(cwd@, project_dir@, rc@)],
                None => Seq::empty(),
            });
        },
        None => {},
    }
    r
}

/// Where the native binary ends up: `<dist>/<name>`, with `.exe` on
/// Windows.
pub fn native_output_path(dist_dir: &str, bin_name: &str, os: TargetOs) -> (r: String)
    ensures
        r@ == join_spec(
            dist_dir@,
            if os == TargetOs::Windows {
                bin_name@ + ".exe"@
            } else {
                bin_name@
            },
        ),
{
    if os == TargetOs::Windows {
        let mut n = copy_string(bin_name);
        push_str(&mut n, ".exe");
        path_join(dist_dir, n.as_str())
    } else {
        path_join(dist_dir, bin_name)
    }
}

/// The classpath of a build: the compiled classes when given, each JAR
/// (by extension) of each folder in turn, then the classes of local path
/// dependencies.
pub open spec fn jar_paths_in(dir: Seq<char>, files: Seq<Seq<char>>) -> Seq<Seq<char>> {
    files.filter_map(
        |f: Seq<char>| if crate::build::compiler::has_extension(f, "jar"@) {
            Some(join_spec(dir, f))
        } else {
            None
        },
    )
}

pub fn push_jar_paths(out: &mut Vec<String>, dir: &str, files: &Vec<String>)
    ensures
        views(final(out)@) == views(old(out)@) + jar_paths_in(dir@, views(files@)),
{
    let ghost start = views(out@);
    let mut i: usize = 0;
    while i < files.len()
        invariant
            i <= files.len(),
            views(out@) == start + jar_paths_in(dir@, views(files@.take(i as int))),
        decreases files.len() - i,
    {
        let ghost before = views(out@);
        assert(views(files@.take(i + 1)).drop_last() =~= views(files@.take(i as int)));
        assert(views(files@.take(i + 1)).last() == files@[i as int]@);
        if crate::build::compiler::has_extension_exec(files[i].as_str(), "jar") {
            let p = path_join(dir, files[i].as_str());
            out.push(p);
            assert(views(out@) =~= before.push(join_spec(dir@, files@[i as int]@)));
        }
        i += 1;
    }
    assert(files@.take(files.len() as int) =~= files@);
}

} // verus!
