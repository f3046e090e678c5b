//! The IDE files Jolt keeps up to date: the project name they carry, the
//! referenced JARs (sorted), the source folders, the Eclipse `.project` and
//! `.classpath` descriptors and the recommended VS Code extensions.
use vstd::prelude::*;
use crate::build::compiler::{has_extension, has_extension_exec, join_classpath, join_with, views};
use crate::text::{chars_of, copy_string, push_str};

verus! {

/// Lexicographic order on characters, as `String`'s ordering has it
/// (UTF-8 keeps the order of code points).
pub open spec fn lex_le(a: Seq<char>, b: Seq<char>) -> bool
    decreases a.len(),
{
    if a.len() == 0 {
        true
    } else if b.len() == 0 {
        false
    } else if (a[0] as u32) < (b[0] as u32) {
        true
    } else if (a[0] as u32) > (b[0] as u32) {
        false
    } else {
        lex_le(a.drop_first(), b.drop_first())
    }
}

pub proof fn lemma_lex_total(a: Seq<char>, b: Seq<char>)
    ensures
        lex_le(a, b) || lex_le(b, a),
    decreases a.len(),
{
    if a.len() > 0 && b.len() > 0 && (a[0] as u32) == (b[0] as u32) {
        lemma_lex_total(a.drop_first(), b.drop_first());
    }
}

pub proof fn lemma_lex_trans(a: Seq<char>, b: Seq<char>, c: Seq<char>)
    requires
        lex_le(a, b),
        lex_le(b, c),
    ensures
        lex_le(a, c),
    decreases a.len(),
{
    if a.len() > 0 && b.len() > 0 && c.len() > 0 && (a[0] as u32) == (b[0] as u32) && (b[0] as u32)
        == (c[0] as u32) {
        lemma_lex_trans(a.drop_first(), b.drop_first(), c.drop_first());
    }
}

/// Every element is ordered before each later one.
pub open spec fn sorted(s: Seq<Seq<char>>) -> bool {
    forall|i: int, j: int| 0 <= i < j < s.len() ==> lex_le(s[i], s[j])
}

pub fn lex_le_exec(a: &[char], b: &[char]) -> (r: bool)
    ensures
        r == lex_le(a@, b@),
{
    let mut i: usize = 0;
    assert(a@.skip(0) =~= a@);
    assert(b@.skip(0) =~= b@);
    while i < a.len() && i < b.len()
        invariant
            i <= a.len(),
            i <= b.len(),
            lex_le(a@, b@) == lex_le(a@.skip(i as int), b@.skip(i as int)),
        decreases a.len() - i,
    {
        let x = a[i] as u32;
        let y = b[i] as u32;
        if x < y {
            return true;
        }
        if x > y {
            return false;
        }
        assert(a@.skip(i as int).drop_first() =~= a@.skip(i + 1));
        assert(b@.skip(i as int).drop_first() =~= b@.skip(i + 1));
        i += 1;
    }
    i == a.len()
}

/// The strings in ascending order, each kept as often as it occurs.
pub fn sort_strings(v: &Vec<String>) -> (r: Vec<String>)
    ensures
        sorted(views(r@)),
        views(r@).to_multiset() == views(v@).to_multiset(),
{
    broadcast use vstd::seq_lib::group_to_multiset_ensures;
    let mut r: Vec<String> = Vec::new();
    let mut i: usize = 0;
    while i < v.len()
        invariant
            i <= v.len(),
            sorted(views(r@)),
            views(r@).to_multiset() == views(v@.take(i as int)).to_multiset(),
        decreases v.len() - i,
    {
        let x = chars_of(v[i].as_str());
        let mut pos: usize = 0;
        let mut stop = false;
        while !stop && pos < r.len()
            invariant
                pos <= r.len(),
                x@ == v@[i as int]@,
                forall|k: int| 0 <= k < pos ==> lex_le(#[trigger] r@[k]@, x@),
                stop ==> pos < r.len() && !lex_le(r@[pos as int]@, x@),
            decreases r.len() - pos + (if stop {
                0int
            } else {
                1int
            }),
        {
            let y = chars_of(r[pos].as_str());
            if lex_le_exec(y.as_slice(), x.as_slice()) {
                pos += 1;
            } else {
                stop = true;
            }
        }
        let ghost old_views = views(r@);
        proof {
            assert forall|j: int| pos <= j < old_views.len() implies lex_le(
                x@,
                #[trigger] old_views[j],
            ) by {
                lemma_lex_total(x@, old_views[pos as int]);
                if j > pos {
                    lemma_lex_trans(x@, old_views[pos as int], old_views[j]);
                }
            }
        }
        r.insert(pos, v[i].clone());
        assert(views(r@) =~= old_views.insert(pos as int, x@));
        proof {
            vstd::seq_lib::to_multiset_insert(old_views, pos as int, x@);
            assert(views(v@.take(i + 1)) =~= views(v@.take(i as int)).push(x@));
            vstd::seq_lib::to_multiset_build(views(v@.take(i as int)), x@);
            let nv = views(r@);
            assert forall|a: int, b: int| 0 <= a < b < nv.len() implies lex_le(nv[a], nv[b]) by {
                if b < pos {
                    assert(nv[a] == old_views[a] && nv[b] == old_views[b]);
                } else if a < pos && b == pos {
                    assert(nv[a] == old_views[a]);
                } else if a < pos && b > pos {
                    assert(nv[a] == old_views[a] && nv[b] == old_views[b - 1]);
                    assert(lex_le(x@, old_views[b - 1]));
                    lemma_lex_trans(old_views[a], x@, old_views[b - 1]);
                } else if a == pos {
                    assert(nv[b] == old_views[b - 1]);
                    assert(lex_le(x@, old_views[b - 1]));
                } else {
                    assert(nv[a] == old_views[a - 1] && nv[b] == old_views[b - 1]);
                }
            }
        }
        i += 1;
    }
    assert(v@.take(v.len() as int) =~= v@);
    r
}

/// The reference to a linked file when it is a JAR: `.jolt/<folder>/<file>`.
pub open spec fn jar_ref(folder: Seq<char>, file_name: Seq<char>) -> Option<Seq<char>> {
    if has_extension(file_name, "jar"@) {
        Some(".jolt/"@ + folder + "/"@ + file_name)
    } else {
        None
    }
}

/// The JARs linked into `.jolt/modules` and `.jolt/dev-modules`, in the order
/// the folders were listed.
pub open spec fn linked_jar_refs(modules: Seq<Seq<char>>, dev_modules: Seq<Seq<char>>) -> Seq<Seq<char>> {
    modules.filter_map(|f: Seq<char>| jar_ref("modules"@, f)) + dev_modules.filter_map(
        |f: Seq<char>| jar_ref("dev-modules"@, f),
    )
}

fn push_jar_refs(out: &mut Vec<String>, folder: &str, files: &Vec<String>)
    ensures
        views(final(out)@) == views(old(out)@) + views(files@).filter_map(
            |f: Seq<char>| jar_ref(folder@, f),
        ),
{
    let ghost start = views(out@);
    let mut i: usize = 0;
    while i < files.len()
        invariant
            i <= files.len(),
            views(out@) == start + views(files@.take(i as int)).filter_map(
                |f: Seq<char>| jar_ref(folder@, f),
            ),
        decreases files.len() - i,
    {
        let ghost before = views(out@);
        assert(views(files@.take(i + 1)).drop_last() =~= views(files@.take(i as int)));
        assert(views(files@.take(i + 1)).last() == files@[i as int]@);
        if has_extension_exec(files[i].as_str(), "jar") {
            let mut s = copy_string(".jolt/");
            push_str(&mut s, folder);
            push_str(&mut s, "/");
            push_str(&mut s, files[i].as_str());
            out.push(s);
            assert(views(out@) =~= before.push(s@));
        }
        i += 1;
    }
    assert(files@.take(files.len() as int) =~= files@);
}

/// The JARs the IDE references: those linked into `.jolt/modules` and
/// `.jolt/dev-modules`, as `.jolt/<folder>/<file>`, sorted.
pub fn referenced_jars(modules: &Vec<String>, dev_modules: &Vec<String>) -> (r: Vec<String>)
    ensures
        sorted(views(r@)),
        views(r@).to_multiset() == linked_jar_refs(views(modules@), views(dev_modules@)).to_multiset(),
{
    let mut all: Vec<String> = Vec::new();
    push_jar_refs(&mut all, "modules", modules);
    push_jar_refs(&mut all, "dev-modules", dev_modules);
    assert(views(all@) =~= linked_jar_refs(views(modules@), views(dev_modules@)));
    sort_strings(&all)
}

/// The source folders that exist, in the fixed order main code, main
/// resources, test code, test resources; `src` alone when none of them
/// exists but `src` does.
pub open spec fn source_paths_spec(
    main_java: bool,
    main_resources: bool,
    test_java: bool,
    test_resources: bool,
    src: bool,
) -> Seq<Seq<char>> {
    let found = (if main_java {
        seq!["src/main/java"@]
    } else {
        Seq::empty()
    }) + (if main_resources {
        seq!["src/main/resources"@]
    } else {
        Seq::empty()
    }) + (if test_java {
        seq!["src/test/java"@]
    } else {
        Seq::empty()
    }) + (if test_resources {
        seq!["src/test/resources"@]
    } else {
        Seq::empty()
    });
    if found.len() == 0 && src {
        seq!["src"@]
    } else {
        found
    }
}

pub fn source_paths(
    main_java: bool,
    main_resources: bool,
    test_java: bool,
    test_resources: bool,
    src: bool,
) -> (r: Vec<String>)
    ensures
        views(r@) == source_paths_spec(main_java, main_resources, test_java, test_resources, src),
{
    let mut r: Vec<String> = Vec::new();
    if main_java {
        r.push(copy_string("src/main/java"));
    }
    if main_resources {
        r.push(copy_string("src/main/resources"));
    }
    if test_java {
        r.push(copy_string("src/test/java"));
    }
    if test_resources {
        r.push(copy_string("src/test/resources"));
    }
    assert(views(r@) =~= (if main_java {
        seq!["src/main/java"@]
    } else {
        Seq::empty()
    }) + (if main_resources {
        seq!["src/main/resources"@]
    } else {
        Seq::empty()
    }) + (if test_java {
        seq!["src/test/java"@]
    } else {
        Seq::empty()
    }) + (if test_resources {
        seq!["src/test/resources"@]
    } else {
        Seq::empty()
    }));
    if r.len() == 0 && src {
        r.push(copy_string("src"));
        assert(views(r@) =~= seq!["src"@]);
    }
    r
}

/// The Eclipse `.project` descriptor of a project.
pub open spec fn project_descriptor_spec(name: Seq<char>) -> Seq<char> {
    "<?xml version=\"1.0\" encoding=\"UTF-8\"?>\n<projectDescription>\n\t<name>"@ + name + "</name>\n\t<comment>Generated by Jolt</comment>\n\t<projects>\n\t</projects>\n\t<buildSpec>\n\t\t<buildCommand>\n\t\t\t<name>org.eclipse.jdt.core.javabuilder</name>\n\t\t\t<arguments>\n\t\t\t</arguments>\n\t\t</buildCommand>\n\t</buildSpec>\n\t<natures>\n\t\t<nature>org.eclipse.jdt.core.javanature</nature>\n\t</natures>\n</projectDescription>\n"@
}

pub fn project_descriptor(name: &str) -> (r: String)
    ensures
        r@ == project_descriptor_spec(name@),
{
    let mut s = copy_string("<?xml version=\"1.0\" encoding=\"UTF-8\"?>\n<projectDescription>\n\t<name>");
    push_str(&mut s, name);
    push_str(&mut s, "</name>\n\t<comment>Generated by Jolt</comment>\n\t<projects>\n\t</projects>\n\t<buildSpec>\n\t\t<buildCommand>\n\t\t\t<name>org.eclipse.jdt.core.javabuilder</name>\n\t\t\t<arguments>\n\t\t\t</arguments>\n\t\t</buildCommand>\n\t</buildSpec>\n\t<natures>\n\t\t<nature>org.eclipse.jdt.core.javanature</nature>\n\t</natures>\n</projectDescription>\n");
    s
}

/// The `<classpathentry>` lines for the source folders: those that exist,
/// `src` alone when none does but `src` exists, else main and test code.
pub open spec fn source_entries(
    main_java: bool,
    main_resources: bool,
    test_java: bool,
    test_resources: bool,
    src: bool,
) -> Seq<Seq<char>> {
    let found = (if main_java {
        seq!["\t<classpathentry kind=\"src\" path=\"src/main/java\"/>"@]
    } else {
        Seq::empty()
    }) + (if main_resources {
        seq!["\t<classpathentry kind=\"src\" path=\"src/main/resources\"/>"@]
    } else {
        Seq::empty()
    }) + (if test_java {
        seq!["\t<classpathentry kind=\"src\" output=\"target/test-classes\" path=\"src/test/java\"/>"@]
    } else {
        Seq::empty()
    }) + (if test_resources {
        seq!["\t<classpathentry kind=\"src\" output=\"target/test-classes\" path=\"src/test/resources\"/>"@]
    } else {
        Seq::empty()
    });
    if found.len() == 0 && src {
        seq!["\t<classpathentry kind=\"src\" path=\"src\"/>"@]
    } else if found.len() == 0 {
        seq!["\t<classpathentry kind=\"src\" path=\"src/main/java\"/>"@, "\t<classpathentry kind=\"src\" output=\"target/test-classes\" path=\"src/test/java\"/>"@]
    } else {
        found
    }
}

/// The `<classpathentry>` line of a referenced JAR.
pub open spec fn lib_entry(jar: Seq<char>) -> Seq<char> {
    "\t<classpathentry kind=\"lib\" path=\""@ + jar + "\"/>"@
}

/// The Eclipse `.classpath` descriptor: source folders, the JRE, each JAR in
/// the order given, and the output folder.
pub open spec fn classpath_descriptor_spec(
    main_java: bool,
    main_resources: bool,
    test_java: bool,
    test_resources: bool,
    src: bool,
    jars: Seq<Seq<char>>,
) -> Seq<char> {
    let entries = source_entries(main_java, main_resources, test_java, test_resources, src).push(
        "\t<classpathentry kind=\"con\" path=\"org.eclipse.jdt.launching.JRE_CONTAINER\"/>"@,
    ) + jars.map_values(|j: Seq<char>| lib_entry(j)) + seq!["\t<classpathentry kind=\"output\" path=\"target/classes\"/>"@];
    "<?xml version=\"1.0\" encoding=\"UTF-8\"?>\n<classpath>\n"@ + join_with(entries, "\n"@) + "\n</classpath>\n"@
}

pub fn classpath_descriptor(
    main_java: bool,
    main_resources: bool,
    test_java: bool,
    test_resources: bool,
    src: bool,
    jars: &Vec<String>,
) -> (r: String)
    ensures
        r@ == classpath_descriptor_spec(
            main_java,
            main_resources,
            test_java,
            test_resources,
            src,
            views(jars@),
        ),
{
    let mut entries: Vec<String> = Vec::new();
    if main_java {
        entries.push(copy_string("\t<classpathentry kind=\"src\" path=\"src/main/java\"/>"));
    }
    if main_resources {
        entries.push(copy_string("\t<classpathentry kind=\"src\" path=\"src/main/resources\"/>"));
    }
    if test_java {
        entries.push(copy_string("\t<classpathentry kind=\"src\" output=\"target/test-classes\" path=\"src/test/java\"/>"));
    }
    if test_resources {
        entries.push(copy_string("\t<classpathentry kind=\"src\" output=\"target/test-classes\" path=\"src/test/resources\"/>"));
    }
    assert(views(entries@) =~= (if main_java {
        seq!["\t<classpathentry kind=\"src\" path=\"src/main/java\"/>"@]
    } else {
        Seq::empty()
    }) + (if main_resources {
        seq!["\t<classpathentry kind=\"src\" path=\"src/main/resources\"/>"@]
    } else {
        Seq::empty()
    }) + (if test_java {
        seq!["\t<classpathentry kind=\"src\" output=\"target/test-classes\" path=\"src/test/java\"/>"@]
    } else {
        Seq::empty()
    }) + (if test_resources {
        seq!["\t<classpathentry kind=\"src\" output=\"target/test-classes\" path=\"src/test/resources\"/>"@]
    } else {
        Seq::empty()
    }));
    if entries.len() == 0 && src {
        entries.push(copy_string("\t<classpathentry kind=\"src\" path=\"src\"/>"));
        assert(views(entries@) =~= seq!["\t<classpathentry kind=\"src\" path=\"src\"/>"@]);
    } else if entries.len() == 0 {
        entries.push(copy_string("\t<classpathentry kind=\"src\" path=\"src/main/java\"/>"));
        entries.push(copy_string("\t<classpathentry kind=\"src\" output=\"target/test-classes\" path=\"src/test/java\"/>"));
        assert(views(entries@) =~= seq!["\t<classpathentry kind=\"src\" path=\"src/main/java\"/>"@, "\t<classpathentry kind=\"src\" output=\"target/test-classes\" path=\"src/test/java\"/>"@]);
    }
    assert(views(entries@) == source_entries(
        main_java,
        main_resources,
        test_java,
        test_resources,
        src,
    ));
    let ghost sources = views(entries@);
    entries.push(copy_string("\t<classpathentry kind=\"con\" path=\"org.eclipse.jdt.launching.JRE_CONTAINER\"/>"));
    let ghost head = views(entries@);
    assert(head =~= sources.push("\t<classpathentry kind=\"con\" path=\"org.eclipse.jdt.launching.JRE_CONTAINER\"/>"@));
    let mut i: usize = 0;
    while i < jars.len()
        invariant
            i <= jars.len(),
            views(entries@) == head + views(jars@.take(i as int)).map_values(
                |j: Seq<char>| lib_entry(j),
            ),
        decreases jars.len() - i,
    {
        let ghost before = views(entries@);
        let mut e = copy_string("\t<classpathentry kind=\"lib\" path=\"");
        push_str(&mut e, jars[i].as_str());
        push_str(&mut e, "\"/>");
        entries.push(e);
        assert(views(entries@) =~= before.push(lib_entry(jars@[i as int]@)));
        assert(views(jars@.take(i + 1)) =~= views(jars@.take(i as int)).push(jars@[i as int]@));
        assert(views(jars@.take(i + 1)).map_values(|j: Seq<char>| lib_entry(j)) =~= views(
            jars@.take(i as int),
        ).map_values(|j: Seq<char>| lib_entry(j)).push(lib_entry(jars@[i as int]@)));
        i += 1;
    }
    assert(jars@.take(jars.len() as int) =~= jars@);
    let ghost body = views(entries@);
    assert(body == head + views(jars@).map_values(|j: Seq<char>| lib_entry(j)));
    entries.push(copy_string("\t<classpathentry kind=\"output\" path=\"target/classes\"/>"));
    assert(views(entries@) =~= body.push("\t<classpathentry kind=\"output\" path=\"target/classes\"/>"@));
    assert(views(entries@) =~= source_entries(
        main_java,
        main_resources,
        test_java,
        test_resources,
        src,
    ).push("\t<classpathentry kind=\"con\" path=\"org.eclipse.jdt.launching.JRE_CONTAINER\"/>"@) + views(jars@).map_values(|j: Seq<char>| lib_entry(j)) + seq!["\t<classpathentry kind=\"output\" path=\"target/classes\"/>"@]);
    let joined = join_classpath(&entries, "\n");
    let mut s = copy_string("<?xml version=\"1.0\" encoding=\"UTF-8\"?>\n<classpath>\n");
    push_str(&mut s, joined.as_str());
    push_str(&mut s, "\n</classpath>\n");
    s
}

/// The name the IDE files carry: the one given, else the manifest's
/// project name, else the directory's name, else `app`.
pub fn ide_project_name(
    given: Option<&str>,
    manifest_name: Option<&str>,
    dir_name: Option<&str>,
) -> (r: String)
    ensures
        r@ == match given {
            Some(g) => g@,
            None => match manifest_name {
                Some(m) => m@,
                None => match dir_name {
                    Some(d) => d@,
                    None => "app"@,
                },
            },
        },
{
    match given {
        Some(g) => copy_string(g),
        None => match manifest_name {
            Some(m) => copy_string(m),
            None => match dir_name {
                Some(d) => copy_string(d),
                None => copy_string("app"),
            },
        },
    }
}

/// A value the IDE configuration writes into `.vscode/settings.json`.
pub enum SettingValue {
    Text(String),
    List(Vec<String>),
}

/// The file associations added to those `.vscode/settings.json` already
/// has: `jolt.toml` and `jolt.lock` are TOML.
pub fn toml_associations() -> (r: Vec<(String, String)>)
    ensures
        r@.len() == 2,
        r@[0].0@ == "jolt.toml"@,
        r@[0].1@ == "toml"@,
        r@[1].0@ == "jolt.lock"@,
        r@[1].1@ == "toml"@,
{
    let mut r: Vec<(String, String)> = Vec::new();
    r.push((copy_string("jolt.toml"), copy_string("toml")));
    r.push((copy_string("jolt.lock"), copy_string("toml")));
    r
}

/// The settings written over those `.vscode/settings.json` already has, in
/// order: the referenced JARs, the source folders, the output folder
/// `target/classes` only where the settings name none, and automatic
/// updates of the build configuration.
pub fn settings_updates(jars: Vec<String>, sources: Vec<String>, has_output_path: bool) -> (r: Vec<
    (String, SettingValue),
>)
    ensures
        r@.len() == (if has_output_path {
            3int
        } else {
            4int
        }),
        r@[0].0@ == "java.project.referencedLibraries"@,
        r@[0].1 matches SettingValue::List(v) && v@ == jars@,
        r@[1].0@ == "java.project.sourcePaths"@,
        r@[1].1 matches SettingValue::List(v) && v@ == sources@,
        !has_output_path ==> r@[2].0@ == "java.project.outputPath"@,
        !has_output_path ==> (r@[2].1 matches SettingValue::Text(t) && t@ == "target/classes"@),
        r@[r@.len() - 1].0@ == "java.configuration.updateBuildConfiguration"@,
        r@[r@.len() - 1].1 matches SettingValue::Text(t) && t@ == "automatic"@,
{
    let mut r: Vec<(String, SettingValue)> = Vec::new();
    r.push((copy_string("java.project.referencedLibraries"), SettingValue::List(jars)));
    r.push((copy_string("java.project.sourcePaths"), SettingValue::List(sources)));
    if !has_output_path {
        r.push((copy_string("java.project.outputPath"), SettingValue::Text(copy_string("target/classes"))));
    }
    r.push((
        copy_string("java.configuration.updateBuildConfiguration"),
        SettingValue::Text(copy_string("automatic")),
    ));
    r
}

/// The VS Code extensions every project recommends.
pub open spec fn default_recommendations() -> Seq<Seq<char>> {
    seq!["vscjava.vscode-java-pack"@, "redhat.java"@, "vscjava.vscode-java-dependency"@, "tamasfe.even-better-toml"@]
}

/// `recs` with each of `defaults` appended, in order, unless already there.
pub open spec fn merge_recommendations_spec(recs: Seq<Seq<char>>, defaults: Seq<Seq<char>>) -> Seq<
    Seq<char>,
>
    decreases defaults.len(),
{
    if defaults.len() == 0 {
        recs
    } else {
        let prev = merge_recommendations_spec(recs, defaults.drop_last());
        if prev.contains(defaults.last()) {
            prev
        } else {
            prev.push(defaults.last())
        }
    }
}

proof fn lemma_merge_keeps(recs: Seq<Seq<char>>, defaults: Seq<Seq<char>>, x: Seq<char>)
    requires
        recs.contains(x) || defaults.contains(x),
    ensures
        merge_recommendations_spec(recs, defaults).contains(x),
    decreases defaults.len(),
{
    if defaults.len() > 0 {
        let prev = merge_recommendations_spec(recs, defaults.drop_last());
        if recs.contains(x) || defaults.drop_last().contains(x) {
            lemma_merge_keeps(recs, defaults.drop_last(), x);
        }
        if prev.contains(x) && !prev.contains(defaults.last()) {
            let i = choose|i: int| 0 <= i < prev.len() && prev[i] == x;
            assert(prev.push(defaults.last())[i] == x);
        }
        if !prev.contains(x) {
            if x != defaults.last() {
                let i = choose|i: int| 0 <= i < defaults.len() && defaults[i] == x;
                assert(defaults.drop_last()[i] == x);
                lemma_merge_keeps(recs, defaults.drop_last(), x);
            }
            assert(prev.push(x)[prev.len() as int] == x);
        }
    }
}

proof fn lemma_merge_nothing_missing(recs: Seq<Seq<char>>, defaults: Seq<Seq<char>>)
    requires
        forall|i: int| 0 <= i < defaults.len() ==> recs.contains(#[trigger] defaults[i]),
    ensures
        merge_recommendations_spec(recs, defaults) == recs,
    decreases defaults.len(),
{
    if defaults.len() > 0 {
        assert forall|i: int| 0 <= i < defaults.drop_last().len() implies recs.contains(
            #[trigger] defaults.drop_last()[i],
        ) by {
            assert(defaults.drop_last()[i] == defaults[i]);
        }
        lemma_merge_nothing_missing(recs, defaults.drop_last());
        assert(recs.contains(defaults[defaults.len() - 1]));
    }
}

/// Updating the recommendations a second time changes nothing: the first
/// update already lists every default.
pub proof fn lemma_merge_recommendations_idempotent(recs: Seq<Seq<char>>)
    ensures
        merge_recommendations_spec(merge_recommendations_spec(recs, default_recommendations()), default_recommendations())
            == merge_recommendations_spec(recs, default_recommendations()),
{
    let d = default_recommendations();
    let once = merge_recommendations_spec(recs, d);
    assert forall|i: int| 0 <= i < d.len() implies once.contains(#[trigger] d[i]) by {
        assert(d.contains(d[i]));
        lemma_merge_keeps(recs, d, d[i]);
    }
    lemma_merge_nothing_missing(once, d);
}

/// The recommendations of `extensions.json` after an update: those already
/// there, then each default one that was missing.
pub fn merge_recommendations(existing: &Vec<String>) -> (r: Vec<String>)
    ensures
        views(r@) == merge_recommendations_spec(views(existing@), default_recommendations()),
{
    let mut defaults: Vec<String> = Vec::new();
    defaults.push(copy_string("vscjava.vscode-java-pack"));
    defaults.push(copy_string("redhat.java"));
    defaults.push(copy_string("vscjava.vscode-java-dependency"));
    defaults.push(copy_string("tamasfe.even-better-toml"));
    assert(views(defaults@) =~= default_recommendations());
    let mut r = crate::install::copy_strings(existing);
    assert(views(r@) =~= views(existing@));
    let mut i: usize = 0;
    while i < defaults.len()
        invariant
            i <= defaults.len(),
            views(defaults@) == default_recommendations(),
            views(r@) == merge_recommendations_spec(
                views(existing@),
                views(defaults@).take(i as int),
            ),
        decreases defaults.len() - i,
    {
        assert(views(defaults@).take(i + 1).drop_last() =~= views(defaults@).take(i as int));
        let present = crate::install::contains_string(&r, defaults[i].as_str());
        if !present {
            r.push(defaults[i].clone());
            assert(views(r@) =~= merge_recommendations_spec(
                views(existing@),
                views(defaults@).take(i as int),
            ).push(defaults@[i as int]@));
        }
        i += 1;
    }
    assert(views(defaults@).take(4) =~= views(defaults@));
    r
}

/// After the update every default recommendation is present and the ones
/// that were there keep their places.
pub proof fn lemma_merge_keeps_and_adds(recs: Seq<Seq<char>>, defaults: Seq<Seq<char>>)
    ensures
        merge_recommendations_spec(recs, defaults).len() >= recs.len(),
        merge_recommendations_spec(recs, defaults).take(recs.len() as int) == recs,
        forall|k: int|
            0 <= k < defaults.len() ==> merge_recommendations_spec(recs, defaults).contains(
                #[trigger] defaults[k],
            ),
    decreases defaults.len(),
{
    if defaults.len() > 0 {
        let d = defaults.drop_last();
        lemma_merge_keeps_and_adds(recs, d);
        let prev = merge_recommendations_spec(recs, d);
        let cur = merge_recommendations_spec(recs, defaults);
        assert forall|k: int| 0 <= k < defaults.len() implies cur.contains(#[trigger] defaults[k]) by {
            if k < defaults.len() - 1 {
                assert(d[k] == defaults[k]);
                assert(prev.contains(d[k]));
                let j = choose|j: int| 0 <= j < prev.len() && prev[j] == d[k];
                assert(cur[j] == prev[j]);
            } else {
                if !prev.contains(defaults.last()) {
                    assert(cur[prev.len() as int] == defaults.last());
                }
            }
        }
        assert(cur.take(recs.len() as int) =~= prev.take(recs.len() as int));
    }
}

} // verus!
