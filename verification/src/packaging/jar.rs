//! Standard and fat (standalone) JARs: file names, the `jar` invocation, the
//! manifest, and which entries go into a fat JAR.
use vstd::prelude::*;
use crate::paths::{join_spec, path_join};
use crate::text::{chars_eq, chars_of, ends_with, ends_with_chars, push_str, starts_with, starts_with_chars};

verus! {

/// `<target>/<name>-<version>.jar`.
pub open spec fn jar_path_spec(target: Seq<char>, name: Seq<char>, version: Seq<char>) -> Seq<char> {
    join_spec(target, name + "-"@ + version + ".jar"@)
}

/// `<target>/<name>-<version>-standalone.jar`.
pub open spec fn standalone_jar_path_spec(target: Seq<char>, name: Seq<char>, version: Seq<char>) -> Seq<
    char,
> {
    join_spec(target, name + "-"@ + version + "-standalone.jar"@)
}

pub fn jar_path(target_dir: &str, project_name: &str, version: &str) -> (p: String)
    ensures
        p@ == jar_path_spec(target_dir@, project_name@, version@),
{
    let mut f = project_name.to_owned();
    push_str(&mut f, "-");
    push_str(&mut f, version);
    push_str(&mut f, ".jar");
    path_join(target_dir, f.as_str())
}

pub fn standalone_jar_path(target_dir: &str, project_name: &str, version: &str) -> (p: String)
    ensures
        p@ == standalone_jar_path_spec(target_dir@, project_name@, version@),
{
    let mut f = project_name.to_owned();
    push_str(&mut f, "-");
    push_str(&mut f, version);
    push_str(&mut f, "-standalone.jar");
    path_join(target_dir, f.as_str())
}

/// The arguments of `jar cfe <jar> <main> -C <classes> .`.
pub fn jar_tool_args(jar_file: &str, main_class: &str, classes_dir: &str) -> (args: Vec<String>)
    ensures
        args@.len() == 6,
        args@[0]@ == "cfe"@,
        args@[1]@ == jar_file@,
        args@[2]@ == main_class@,
        args@[3]@ == "-C"@,
        args@[4]@ == classes_dir@,
        args@[5]@ == "."@,
{
    let mut a: Vec<String> = Vec::new();
    a.push("cfe".to_owned());
    a.push(jar_file.to_owned());
    a.push(main_class.to_owned());
    a.push("-C".to_owned());
    a.push(classes_dir.to_owned());
    a.push(".".to_owned());
    a
}

/// The `META-INF/MANIFEST.MF` of a fat JAR.
pub open spec fn fat_jar_manifest_spec(main_class: Seq<char>, jolt_version: Seq<char>) -> Seq<char> {
    "Manifest-Version: 1.0\r\nMain-Class: "@ + main_class + "\r\nCreated-By: Jolt "@ + jolt_version
        + "\r\n\r\n"@
}

pub fn fat_jar_manifest(main_class: &str, jolt_version: &str) -> (s: String)
    ensures
        s@ == fat_jar_manifest_spec(main_class@, jolt_version@),
{
    let mut s = "Manifest-Version: 1.0\r\nMain-Class: ".to_owned();
    push_str(&mut s, main_class);
    push_str(&mut s, "\r\nCreated-By: Jolt ");
    push_str(&mut s, jolt_version);
    push_str(&mut s, "\r\n\r\n");
    s
}

/// Signature files and manifests of dependency JARs stay out of a fat JAR
/// (their signatures would no longer match).
pub open spec fn is_excluded_jar_entry(name: Seq<char>) -> bool {
    starts_with(name, "META-INF/"@) && (ends_with(name, ".SF"@) || ends_with(name, ".DSA"@)
        || ends_with(name, ".RSA"@) || name == "META-INF/MANIFEST.MF"@ || name
        == "META-INF/INDEX.LIST"@)
}

fn lit(s: &str) -> (v: Vec<char>)
    ensures
        v@ == s@,
{
    chars_of(s)
}

pub fn is_excluded_jar_entry_exec(name: &str) -> (b: bool)
    ensures
        b == is_excluded_jar_entry(name@),
{
    let n = chars_of(name);
    let n = n.as_slice();
    starts_with_chars(n, lit("META-INF/").as_slice()) && (ends_with_chars(n, lit(".SF").as_slice())
        || ends_with_chars(n, lit(".DSA").as_slice()) || ends_with_chars(n, lit(".RSA").as_slice())
        || chars_eq(n, lit("META-INF/MANIFEST.MF").as_slice()) || chars_eq(
        n,
        lit("META-INF/INDEX.LIST").as_slice(),
    ))
}

/// The entry names already written to a fat JAR, in order.
pub struct FatJarEntries {
    added: Vec<String>,
}

pub open spec fn distinct(s: Seq<Seq<char>>) -> bool {
    forall|i: int, j: int| 0 <= i < j < s.len() ==> s[i] != s[j]
}

impl View for FatJarEntries {
    type V = Seq<Seq<char>>;

    closed spec fn view(&self) -> Seq<Seq<char>> {
        self.added@.map_values(|s: String| s@)
    }
}

impl FatJarEntries {
    /// No entry name occurs twice.
    #[verifier::type_invariant]
    spec fn no_repeats(self) -> bool {
        distinct(self@)
    }

    /// A fresh fat JAR holds its manifest and the `META-INF/` directory.
    pub fn new() -> (e: Self)
        ensures
            e@ == seq!["META-INF/MANIFEST.MF"@, "META-INF/"@],
    {
        let mut added: Vec<String> = Vec::new();
        added.push("META-INF/MANIFEST.MF".to_owned());
        added.push("META-INF/".to_owned());
        proof {
            reveal_strlit("META-INF/MANIFEST.MF");
            reveal_strlit("META-INF/");
            assert(added@.map_values(|s: String| s@) =~= seq!["META-INF/MANIFEST.MF"@, "META-INF/"@]);
            assert("META-INF/MANIFEST.MF"@.len() != "META-INF/"@.len());
        }
        FatJarEntries { added }
    }

    pub fn contains(&self, name: &str) -> (b: bool)
        ensures
            b == self@.contains(name@),
    {
        let n = chars_of(name);
        let mut i: usize = 0;
        while i < self.added.len()
            invariant
                i <= self.added@.len(),
                forall|j: int| 0 <= j < i ==> self.added@[j]@ != n@,
                n@ == name@,
            decreases self.added.len() - i,
        {
            let a = chars_of(self.added[i].as_str());
            if chars_eq(a.as_slice(), n.as_slice()) {
                assert(self@[i as int] == name@);
                return true;
            }
            i += 1;
        }
        assert forall|j: int| 0 <= j < self@.len() implies self@[j] != name@ by {
            assert(self@[j] == self.added@[j]@);
        }
        false
    }

    /// Records `name` unless it was written before; `true` when it is to be
    /// written now.
    pub fn accept(&mut self, name: &str) -> (b: bool)
        ensures
            b == !old(self)@.contains(name@),
            final(self)@ == (if b {
                old(self)@.push(name@)
            } else {
                old(self)@
            }),
    {
        proof {
            use_type_invariant(&*self);
        }
        if self.contains(name) {
            false
        } else {
            let ghost before = self@;
            let mut added: Vec<String> = Vec::new();
            std::mem::swap(&mut added, &mut self.added);
            assert(added@.map_values(|s: String| s@) == before);
            added.push(name.to_owned());
            let ghost after = added@.map_values(|s: String| s@);
            assert(after =~= before.push(name@));
            assert(distinct(after)) by {
                assert forall|i: int, j: int| 0 <= i < j < after.len() implies after[i] != after[j] by {
                    if j == before.len() {
                        assert(after[i] == before[i]);
                    }
                }
            }
            self.added = added;
            true
        }
    }

    /// An entry of the project's (or a path dependency's) compiled classes,
    /// by its path relative to the classes directory: empty paths and
    /// directories are skipped.
    pub fn accept_class_file(&mut self, relative_path: &str, is_file: bool) -> (b: bool)
        ensures
            b == (relative_path@.len() > 0 && is_file && !old(self)@.contains(relative_path@)),
            final(self)@ == (if b {
                old(self)@.push(relative_path@)
            } else {
                old(self)@
            }),
    {
        if relative_path.unicode_len() == 0 || !is_file {
            return false;
        }
        self.accept(relative_path)
    }

    /// An entry of a dependency JAR: signatures and manifests are left out,
    /// and so are directories.
    pub fn accept_dependency_entry(&mut self, name: &str, is_file: bool) -> (b: bool)
        ensures
            b == (!is_excluded_jar_entry(name@) && is_file && !old(self)@.contains(name@)),
            final(self)@ == (if b {
                old(self)@.push(name@)
            } else {
                old(self)@
            }),
    {
        if is_excluded_jar_entry_exec(name) || !is_file {
            return false;
        }
        self.accept(name)
    }
}

} // verus!
