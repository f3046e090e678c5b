//! The decisions behind `install`, `sync`, `add` and `remove`: which
//! directories a command works on, which JARs a manifest asks for, and which
//! linked JARs are stale.
use vstd::prelude::*;
use crate::cache::jar_file_name_spec;
use crate::cache::jar_file_name;
use crate::manifest::{DependencySpec, JoltManifest, dependency_spec_parts};
use crate::text::{chars_of, copy_string, ends_with, ends_with_chars, lemma_split_acc_append, push_str, split_acc, split_char, split_chars, starts_with, starts_with_chars, string_of};

verus! {

/// What the current directory's `jolt.toml` turned out to be.
pub enum RootManifest {
    /// There is no `jolt.toml`.
    Missing,
    /// It exists but could not be read or parsed; the reason is kept.
    Unreadable(String),
    /// It was read.
    Loaded(JoltManifest),
}

pub open spec fn views(v: Seq<String>) -> Seq<Seq<char>> {
    v.map_values(|s: String| s@)
}

/// The directories a command works on, or the message explaining why there
/// are none. `member_has_manifest` tells whether `<member>/jolt.toml` exists.
pub open spec fn target_directories(
    member: Option<Seq<char>>,
    all: bool,
    default_all: bool,
    root: RootManifest,
    member_has_manifest: bool,
) -> Result<Seq<Seq<char>>, Seq<char>> {
    match root {
        RootManifest::Missing => Err(
            "No se encontro 'jolt.toml'. Ejecuta este comando dentro de un proyecto o workspace."@,
        ),
        RootManifest::Unreadable(e) => Err("Error al leer jolt.toml: "@ + e@),
        RootManifest::Loaded(m) => match m.workspace {
            None => Ok(seq!["."@]),
            Some(ws) => {
                let members = views(ws.members@);
                match member {
                    Some(name) => if members.contains(name) || member_has_manifest {
                        Ok(seq![name])
                    } else {
                        Err(
                            "El modulo '"@ + name
                                + "' no esta registrado en [workspace].members ni existe."@,
                        )
                    },
                    None => if all || default_all {
                        if members.len() == 0 {
                            Err(
                                "El workspace no tiene miembros registrados en [workspace].members"@,
                            )
                        } else {
                            Ok(members)
                        }
                    } else if members.len() == 1 {
                        Ok(members)
                    } else {
                        Err(
                            "Estas en la raiz de un Workspace Monorepo. Especifica un modulo con '-p <modulo>' o usa '--all'."@,
                        )
                    },
                }
            },
        },
    }
}

/// A command whose directories resolve always has at least one to work on.
pub proof fn lemma_targets_nonempty(
    member: Option<Seq<char>>,
    all: bool,
    default_all: bool,
    root: RootManifest,
    member_has_manifest: bool,
)
    ensures
        target_directories(member, all, default_all, root, member_has_manifest) matches Ok(dirs)
            ==> dirs.len() > 0,
{
}

/// `true` when `v` holds a string equal to `s`.
pub fn contains_string(v: &Vec<String>, s: &str) -> (r: bool)
    ensures
        r == views(v@).contains(s@),
{
    let target = copy_string(s);
    let mut i: usize = 0;
    while i < v.len()
        invariant
            i <= v.len(),
            target@ == s@,
            forall|k: int| 0 <= k < i ==> v@[k]@ != s@,
        decreases v.len() - i,
    {
        if v[i] == target {
            assert(views(v@)[i as int] == s@);
            return true;
        }
        i += 1;
    }
    proof {
        if views(v@).contains(s@) {
            let k = choose|k: int| 0 <= k < views(v@).len() && views(v@)[k] == s@;
            assert(v@[k]@ == s@);
        }
    }
    false
}

pub fn copy_strings(v: &Vec<String>) -> (r: Vec<String>)
    ensures
        views(r@) == views(v@),
{
    let mut r: Vec<String> = Vec::new();
    let mut i: usize = 0;
    while i < v.len()
        invariant
            i <= v.len(),
            views(r@) == views(v@.take(i as int)),
        decreases v.len() - i,
    {
        r.push(v[i].clone());
        assert(views(v@.take(i + 1)) =~= views(v@.take(i as int)).push(v@[i as int]@));
        assert(views(r@) =~= views(v@.take(i as int)).push(v@[i as int]@));
        i += 1;
    }
    assert(v@.take(v.len() as int) =~= v@);
    r
}

/// The directories that `install`, `build`, `run`, `test`, `sync` and
/// `package` work on: `.` for a single project; for a workspace, the member
/// asked for (registered, or holding its own `jolt.toml`), every member
/// (`--all`, or when the command defaults to all), or the only member.
pub fn resolve_target_directories(
    member: Option<&str>,
    all: bool,
    default_all: bool,
    root: &RootManifest,
    member_has_manifest: bool,
) -> (r: Result<Vec<String>, String>)
    ensures
        match r {
            Ok(dirs) => target_directories(
                match member {
                    Some(m) => Some(m@),
                    None => None,
                },
                all,
                default_all,
                *root,
                member_has_manifest,
            ) == Ok::<Seq<Seq<char>>, Seq<char>>(views(dirs@)),
            Err(e) => target_directories(
                match member {
                    Some(m) => Some(m@),
                    None => None,
                },
                all,
                default_all,
                *root,
                member_has_manifest,
            ) == Err::<Seq<Seq<char>>, Seq<char>>(e@),
        },
{
    match root {
        RootManifest::Missing => Err(
            copy_string(
                "No se encontro 'jolt.toml'. Ejecuta este comando dentro de un proyecto o workspace.",
            ),
        ),
        RootManifest::Unreadable(e) => {
            let mut msg = copy_string("Error al leer jolt.toml: ");
            push_str(&mut msg, e.as_str());
            Err(msg)
        },
        RootManifest::Loaded(m) => match &m.workspace {
            None => {
                let mut v: Vec<String> = Vec::new();
                v.push(copy_string("."));
                assert(views(v@) =~= seq!["."@]);
                Ok(v)
            },
            Some(ws) => match member {
                Some(name) => {
                    if contains_string(&ws.members, name) || member_has_manifest {
                        let mut v: Vec<String> = Vec::new();
                        v.push(copy_string(name));
                        assert(views(v@) =~= seq![name@]);
                        Ok(v)
                    } else {
                        let mut msg = copy_string("El modulo '");
                        push_str(&mut msg, name);
                        push_str(
                            &mut msg,
                            "' no esta registrado en [workspace].members ni existe.",
                        );
                        Err(msg)
                    }
                },
                None => {
                    if all || default_all {
                        if ws.members.len() == 0 {
                            Err(
                                copy_string(
                                    "El workspace no tiene miembros registrados en [workspace].members",
                                ),
                            )
                        } else {
                            Ok(copy_strings(&ws.members))
                        }
                    } else if ws.members.len() == 1 {
                        Ok(copy_strings(&ws.members))
                    } else {
                        Err(
                            copy_string(
                                "Estas en la raiz de un Workspace Monorepo. Especifica un modulo con '-p <modulo>' o usa '--all'.",
                            ),
                        )
                    }
                },
            },
        },
    }
}


/// The coordinates of one JAR that a manifest entry (or a locked package)
/// asks for.
pub struct JarCoords {
    pub name: Seq<char>,
    pub version_spec: Seq<char>,
    pub group_id: Seq<char>,
    pub artifact_id: Seq<char>,
    pub version: Seq<char>,
    pub classifier: Option<Seq<char>>,
    pub file_name: Seq<char>,
}

/// A JAR to fetch into the cache and link into the project.
pub struct JarRequest {
    /// `groupId:artifactId`, as the manifest writes it.
    pub name: String,
    /// `version` or `version:classifier`, as the manifest writes it.
    pub version_spec: String,
    pub group_id: String,
    pub artifact_id: String,
    pub version: String,
    pub classifier: Option<String>,
    /// The name of the linked file.
    pub file_name: String,
}

pub open spec fn opt_view(o: Option<String>) -> Option<Seq<char>> {
    match o {
        Some(s) => Some(s@),
        None => None,
    }
}

impl View for JarRequest {
    type V = JarCoords;

    open spec fn view(&self) -> JarCoords {
        JarCoords {
            name: self.name@,
            version_spec: self.version_spec@,
            group_id: self.group_id@,
            artifact_id: self.artifact_id@,
            version: self.version@,
            classifier: opt_view(self.classifier),
            file_name: self.file_name@,
        }
    }
}

/// The JAR named by `group:artifact` at `version[:classifier]`; nothing when
/// the name is not exactly two `:`-separated parts.
pub open spec fn coords_of(name: Seq<char>, version_spec: Seq<char>) -> Option<JarCoords> {
    let parts = split_char(name, ':');
    if parts.len() == 2 {
        let vp = split_char(version_spec, ':');
        let classifier = if vp.len() > 1 {
            Some(vp[1])
        } else {
            None
        };
        Some(
            JarCoords {
                name,
                version_spec,
                group_id: parts[0],
                artifact_id: parts[1],
                version: vp[0],
                classifier,
                file_name: jar_file_name_spec(parts[1], vp[0], classifier),
            },
        )
    } else {
        None
    }
}

/// The JAR a manifest entry asks for: none for a local path dependency or
/// an entry without a version.
pub open spec fn entry_request(entry: (String, DependencySpec)) -> Option<JarCoords> {
    let (v, p) = dependency_spec_parts(entry.1);
    if p is Some {
        None
    } else {
        match v {
            Some(vs) => coords_of(entry.0@, vs@),
            None => None,
        }
    }
}

pub open spec fn request_views(v: Seq<JarRequest>) -> Seq<JarCoords> {
    v.map_values(|r: JarRequest| r@)
}

/// Reads `group:artifact` and `version[:classifier]` into a JAR request.
pub fn jar_request(name: &str, version_spec: &str) -> (r: Option<JarRequest>)
    ensures
        match r {
            Some(req) => coords_of(name@, version_spec@) == Some(req@),
            None => coords_of(name@, version_spec@) is None,
        },
{
    let nv = chars_of(name);
    let parts = split_chars(nv.as_slice(), ':');
    if parts.len() != 2 {
        return None;
    }
    let vv = chars_of(version_spec);
    let vp = split_chars(vv.as_slice(), ':');
    let group_id = string_of(parts[0].as_slice());
    let artifact_id = string_of(parts[1].as_slice());
    let version = string_of(vp[0].as_slice());
    let classifier = if vp.len() > 1 {
        Some(string_of(vp[1].as_slice()))
    } else {
        None
    };
    let file_name = match &classifier {
        Some(c) => jar_file_name(artifact_id.as_str(), version.as_str(), Some(c.as_str())),
        None => jar_file_name(artifact_id.as_str(), version.as_str(), None),
    };
    let req = JarRequest {
        name: copy_string(name),
        version_spec: copy_string(version_spec),
        group_id,
        artifact_id,
        version,
        classifier,
        file_name,
    };
    Some(req)
}

/// The JARs that a dependency table asks for, in the table's order: local
/// path dependencies, entries without a version and names that are not
/// `group:artifact` are passed over.
pub fn manifest_jar_requests(deps: &Vec<(String, DependencySpec)>) -> (r: Vec<JarRequest>)
    ensures
        request_views(r@) == deps@.filter_map(|e: (String, DependencySpec)| entry_request(e)),
{
    let mut r: Vec<JarRequest> = Vec::new();
    let mut i: usize = 0;
    while i < deps.len()
        invariant
            i <= deps.len(),
            request_views(r@) == deps@.take(i as int).filter_map(
                |e: (String, DependencySpec)| entry_request(e),
            ),
        decreases deps.len() - i,
    {
        let ghost before = request_views(r@);
        assert(deps@.take(i + 1).drop_last() =~= deps@.take(i as int));
        assert(deps@.take(i + 1).last() == deps@[i as int]);
        let (v, p) = JoltManifest::parse_dependency_spec(&deps[i].1);
        if p.is_none() {
            match v {
                Some(vs) => {
                    let got = jar_request(deps[i].0.as_str(), vs.as_str());
                    match got {
                        Some(req) => {
                            r.push(req);
                            assert(request_views(r@) =~= before + seq![req@]);
                        },
                        None => {},
                    }
                },
                None => {},
            }
        }
        i += 1;
    }
    assert(deps@.take(deps.len() as int) =~= deps@);
    r
}

/// A file in a project's module folder that sync deletes: a `.jar` that no
/// current dependency links.
pub open spec fn is_stale_jar(file_name: Seq<char>, active: Seq<Seq<char>>) -> bool {
    ends_with(file_name, ".jar"@) && !active.contains(file_name)
}

/// The files among `entries` that sync deletes, in their order.
pub fn stale_jars(entries: &Vec<String>, active: &Vec<String>) -> (r: Vec<String>)
    ensures
        views(r@) == views(entries@).filter(|f: Seq<char>| is_stale_jar(f, views(active@))),
{
    let ghost pred = |f: Seq<char>| is_stale_jar(f, views(active@));
    let mut r: Vec<String> = Vec::new();
    let mut i: usize = 0;
    while i < entries.len()
        invariant
            i <= entries.len(),
            pred == (|f: Seq<char>| is_stale_jar(f, views(active@))),
            views(r@) == views(entries@.take(i as int)).filter(pred),
        decreases entries.len() - i,
    {
        let ghost before = views(r@);
        let name = chars_of(entries[i].as_str());
        let ext = chars_of(".jar");
        let is_jar = ends_with_chars(name.as_slice(), ext.as_slice());
        let linked = contains_string(active, entries[i].as_str());
        assert(views(entries@.take(i + 1)).drop_last() =~= views(entries@.take(i as int)));
        assert(views(entries@.take(i + 1)).last() == entries@[i as int]@);
        proof {
            reveal(Seq::filter);
        }
        if is_jar && !linked {
            r.push(entries[i].clone());
            assert(views(r@) =~= before.push(entries@[i as int]@));
        } else {
            assert(views(r@) =~= before);
        }
        i += 1;
    }
    assert(entries@.take(entries.len() as int) =~= entries@);
    r
}

/// Sync never deletes a JAR that a current dependency links, and deletes
/// only `.jar` files found in the folder.
pub proof fn lemma_stale_jars_spare_active(entries: Seq<Seq<char>>, active: Seq<Seq<char>>, f: Seq<
    char,
>)
    requires
        entries.filter(|g: Seq<char>| is_stale_jar(g, active)).contains(f),
    ensures
        !active.contains(f),
        ends_with(f, ".jar"@),
        entries.contains(f),
{
    let pred = |g: Seq<char>| is_stale_jar(g, active);
    entries.lemma_filter_contains_rev(pred, f);
    let k = choose|k: int| 0 <= k < entries.filter(pred).len() && entries.filter(pred)[k] == f;
    entries.lemma_filter_pred(pred, k);
}

/// The message for a malformed `jolt add` coordinate.
pub open spec fn bad_coordinate_message() -> Seq<char> {
    "Formato de dependencia invalido. Usa: 'groupId:artifactId' o 'groupId:artifactId:version'"@
}

/// `group:artifact[:version[:classifier]]` as `jolt add` reads it: the
/// group, the artifact, the version if given, the classifier if given.
pub open spec fn add_coordinate(dep: Seq<char>) -> Result<
    (Seq<char>, Seq<char>, Option<Seq<char>>, Option<Seq<char>>),
    Seq<char>,
> {
    let parts = split_char(dep, ':');
    if parts.len() < 2 {
        Err(bad_coordinate_message())
    } else {
        Ok(
            (
                parts[0],
                parts[1],
                if parts.len() >= 3 {
                    Some(parts[2])
                } else {
                    None
                },
                if parts.len() >= 4 {
                    Some(parts[3])
                } else {
                    None
                },
            ),
        )
    }
}

proof fn lemma_split_pieces(a: Seq<char>, rest: Seq<char>)
    requires
        !a.contains(':'),
    ensures
        split_acc(a + seq![':'] + rest, ':', Seq::empty()) == seq![a] + split_acc(rest, ':', Seq::empty()),
{
    lemma_split_acc_append(a, seq![':'] + rest, ':', Seq::empty());
    assert(a + seq![':'] + rest =~= a + (seq![':'] + rest));
    assert(Seq::<char>::empty() + a =~= a);
    assert((seq![':'] + rest).drop_first() =~= rest);
}

proof fn lemma_split_last(a: Seq<char>)
    requires
        !a.contains(':'),
    ensures
        split_acc(a, ':', Seq::empty()) == seq![a],
{
    lemma_split_acc_append(a, Seq::empty(), ':', Seq::empty());
    assert(a + Seq::<char>::empty() =~= a);
    assert(Seq::<char>::empty() + a =~= a);
}

/// A coordinate without `:` is refused.
pub proof fn lemma_add_coordinate_needs_artifact(dep: Seq<char>)
    requires
        !dep.contains(':'),
    ensures
        add_coordinate(dep) is Err,
{
    lemma_split_last(dep);
}

/// `group:artifact` reads as that group and artifact with no version;
/// `group:artifact:version` keeps the version and has no classifier;
/// `group:artifact:version:classifier` keeps both (no part holding `:`).
pub proof fn lemma_add_coordinate_parts(g: Seq<char>, a: Seq<char>, v: Seq<char>, c: Seq<char>)
    requires
        !g.contains(':'),
        !a.contains(':'),
        !v.contains(':'),
        !c.contains(':'),
    ensures
        add_coordinate(g + seq![':'] + a) == Ok::<
            (Seq<char>, Seq<char>, Option<Seq<char>>, Option<Seq<char>>),
            Seq<char>,
        >((g, a, None, None)),
        add_coordinate(g + seq![':'] + a + seq![':'] + v) == Ok::<
            (Seq<char>, Seq<char>, Option<Seq<char>>, Option<Seq<char>>),
            Seq<char>,
        >((g, a, Some(v), None)),
        add_coordinate(g + seq![':'] + a + seq![':'] + v + seq![':'] + c) == Ok::<
            (Seq<char>, Seq<char>, Option<Seq<char>>, Option<Seq<char>>),
            Seq<char>,
        >((g, a, Some(v), Some(c))),
{
    lemma_split_last(a);
    lemma_split_last(v);
    lemma_split_last(c);
    lemma_split_pieces(g, a);
    assert(seq![g] + seq![a] =~= seq![g, a]);
    lemma_split_pieces(v, c);
    lemma_split_pieces(a, v);
    lemma_split_pieces(a, v + seq![':'] + c);
    let s2 = g + seq![':'] + a + seq![':'] + v;
    assert(s2 =~= g + seq![':'] + (a + seq![':'] + v));
    lemma_split_pieces(g, a + seq![':'] + v);
    assert(seq![g] + (seq![a] + seq![v]) =~= seq![g, a, v]);
    let s3 = g + seq![':'] + a + seq![':'] + v + seq![':'] + c;
    assert(s3 =~= g + seq![':'] + (a + seq![':'] + v + seq![':'] + c));
    assert(a + seq![':'] + v + seq![':'] + c =~= a + seq![':'] + (v + seq![':'] + c));
    lemma_split_pieces(g, a + seq![':'] + v + seq![':'] + c);
    assert(seq![g] + (seq![a] + (seq![v] + seq![c])) =~= seq![g, a, v, c]);
}

/// A coordinate given to `jolt add`.
pub struct AddCoordinate {
    pub group_id: String,
    pub artifact_id: String,
    pub version: Option<String>,
    pub classifier: Option<String>,
}

/// Reads the coordinate given to `jolt add`.
pub fn parse_add_coordinate(dependency: &str) -> (r: Result<AddCoordinate, String>)
    ensures
        match r {
            Ok(c) => add_coordinate(dependency@) == Ok::<
                (Seq<char>, Seq<char>, Option<Seq<char>>, Option<Seq<char>>),
                Seq<char>,
            >((c.group_id@, c.artifact_id@, opt_view(c.version), opt_view(c.classifier))),
            Err(e) => add_coordinate(dependency@) == Err::<
                (Seq<char>, Seq<char>, Option<Seq<char>>, Option<Seq<char>>),
                Seq<char>,
            >(e@),
        },
{
    let dv = chars_of(dependency);
    let parts = split_chars(dv.as_slice(), ':');
    if parts.len() < 2 {
        return Err(
            copy_string(
                "Formato de dependencia invalido. Usa: 'groupId:artifactId' o 'groupId:artifactId:version'",
            ),
        );
    }
    let version = if parts.len() >= 3 {
        Some(string_of(parts[2].as_slice()))
    } else {
        None
    };
    let classifier = if parts.len() >= 4 {
        Some(string_of(parts[3].as_slice()))
    } else {
        None
    };
    Ok(
        AddCoordinate {
            group_id: string_of(parts[0].as_slice()),
            artifact_id: string_of(parts[1].as_slice()),
            version,
            classifier,
        },
    )
}

/// The value written into the manifest for an added dependency:
/// `version`, or `version:classifier`.
pub fn manifest_version_value(version: &str, classifier: Option<&str>) -> (r: String)
    ensures
        r@ == match classifier {
            Some(c) => version@ + ":"@ + c@,
            None => version@,
        },
{
    let mut s = copy_string(version);
    match classifier {
        Some(c) => {
            push_str(&mut s, ":");
            push_str(&mut s, c);
        },
        None => {},
    }
    s
}

/// The manifest key of a dependency: `group:artifact`.
pub fn coordinate_key(group_id: &str, artifact_id: &str) -> (r: String)
    ensures
        r@ == group_id@ + ":"@ + artifact_id@,
{
    let mut s = copy_string(group_id);
    push_str(&mut s, ":");
    push_str(&mut s, artifact_id);
    s
}

/// The artifact whose linked JARs `jolt remove` deletes: the second part of
/// a `group:artifact` name, and none for any other shape.
pub open spec fn removed_artifact_spec(dependency: Seq<char>) -> Option<Seq<char>> {
    let parts = split_char(dependency, ':');
    if parts.len() == 2 {
        Some(parts[1])
    } else {
        None
    }
}

pub fn removed_artifact(dependency: &str) -> (r: Option<String>)
    ensures
        opt_view(r) == removed_artifact_spec(dependency@),
{
    let dv = chars_of(dependency);
    let parts = split_chars(dv.as_slice(), ':');
    if parts.len() == 2 {
        Some(string_of(parts[1].as_slice()))
    } else {
        None
    }
}

/// A linked file that `jolt remove` deletes for `artifact_id`: its name
/// starts with the artifact and ends in `.jar`.
pub fn is_linked_jar_of(file_name: &str, artifact_id: &str) -> (b: bool)
    ensures
        b == (starts_with(file_name@, artifact_id@) && ends_with(file_name@, ".jar"@)),
{
    let f = chars_of(file_name);
    let a = chars_of(artifact_id);
    let ext = chars_of(".jar");
    starts_with_chars(f.as_slice(), a.as_slice()) && ends_with_chars(f.as_slice(), ext.as_slice())
}

/// The project folder a package is linked into: `dev-modules` for a
/// development dependency, else `modules`.
pub fn module_folder(name: &str, dev_names: &Vec<String>) -> (r: String)
    ensures
        r@ == (if views(dev_names@).contains(name@) {
            "dev-modules"@
        } else {
            "modules"@
        }),
{
    if contains_string(dev_names, name) {
        copy_string("dev-modules")
    } else {
        copy_string("modules")
    }
}

/// The manifest table a dependency goes into and the project folder it is
/// linked into: `dev-dependencies` and `dev-modules` for a development
/// dependency, else `dependencies` and `modules`.
pub fn dependency_destination(is_dev: bool) -> (r: (String, String))
    ensures
        r.0@ == (if is_dev {
            "dev-dependencies"@
        } else {
            "dependencies"@
        }),
        r.1@ == (if is_dev {
            "dev-modules"@
        } else {
            "modules"@
        }),
{
    if is_dev {
        (copy_string("dev-dependencies"), copy_string("dev-modules"))
    } else {
        (copy_string("dependencies"), copy_string("modules"))
    }
}

} // verus!
