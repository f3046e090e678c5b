//! Maven Central: the artifacts a POM declares, the direct dependency tree
//! built from them, and search results.
use vstd::prelude::*;
use crate::manifest::clone_opt_string;
use crate::text::{chars_eq, chars_of, push_str, starts_with};

pub mod maven_client;
pub mod pom_parser;

pub use maven_client::MavenClient;
pub use pom_parser::parse_pom_dependencies;

verus! {

/// A `<dependency>` declared in a POM.
#[derive(Debug)]
pub struct Dependency {
    pub group_id: String,
    pub artifact_id: String,
    pub version: String,
    pub scope: Option<String>,
}

/// An artifact and the artifacts it depends on.
#[derive(Debug)]
pub struct DependencyNode {
    pub group_id: String,
    pub artifact_id: String,
    pub version: String,
    pub dependencies: Vec<DependencyNode>,
}

/// One hit of a Maven Central search.
#[derive(Debug)]
pub struct SearchResultItem {
    pub group_id: String,
    pub artifact_id: String,
    pub version: String,
    pub package_type: Option<String>,
    pub version_count: Option<u32>,
}

/// One document of a Maven Central search response (`g`, `a`,
/// `latestVersion`, `v`, `p`, `versionCount`).
#[derive(Debug)]
pub struct SearchDoc {
    pub g: Option<String>,
    pub a: Option<String>,
    pub latest_version: Option<String>,
    pub v: Option<String>,
    pub p: Option<String>,
    pub version_count: Option<u32>,
}

/// A dependency as plain text: group, artifact, version, scope.
pub type DepText = (Seq<char>, Seq<char>, Seq<char>, Option<Seq<char>>);

pub open spec fn opt_view(o: Option<String>) -> Option<Seq<char>> {
    match o {
        Some(s) => Some(s@),
        None => None,
    }
}

pub open spec fn dep_text(d: Dependency) -> DepText {
    (d.group_id@, d.artifact_id@, d.version@, opt_view(d.scope))
}

pub open spec fn deps_text(ds: Seq<Dependency>) -> Seq<DepText> {
    ds.map_values(|d: Dependency| dep_text(d))
}

/// Test- and provided-scoped dependencies, and those without a literal
/// version (empty, or a `${property}`), are left out of the tree.
pub open spec fn is_runtime_dep(d: DepText) -> bool {
    &&& d.3 != Some("test"@)
    &&& d.3 != Some("provided"@)
    &&& d.2.len() > 0
    &&& !starts_with(d.2, "$"@)
}

/// `group:artifact`, the key under which repeated dependencies collapse.
pub open spec fn dep_key(d: DepText) -> Seq<char> {
    d.0 + ":"@ + d.1
}

pub open spec fn vec_views(s: Seq<Vec<char>>) -> Seq<Seq<char>> {
    s.map_values(|x: Vec<char>| x@)
}

pub open spec fn dep_keys(s: Seq<DepText>) -> Seq<Seq<char>> {
    s.map_values(|c: DepText| dep_key(c))
}

/// The dependencies that become children, in declaration order: runtime
/// ones whose key was not taken by an earlier child.
pub open spec fn tree_children(ds: Seq<DepText>) -> Seq<DepText>
    decreases ds.len(),
{
    if ds.len() == 0 {
        Seq::empty()
    } else {
        let before = tree_children(ds.drop_last());
        let d = ds.last();
        if is_runtime_dep(d) && !dep_keys(before).contains(dep_key(d)) {
            before.push(d)
        } else {
            before
        }
    }
}

pub open spec fn node_text(n: DependencyNode) -> (Seq<char>, Seq<char>, Seq<char>) {
    (n.group_id@, n.artifact_id@, n.version@)
}

/// A node for `group:artifact:version` whose children are the direct
/// dependencies `deps` selects (each with no children of its own).
pub open spec fn is_tree_for(
    node: DependencyNode,
    g: Seq<char>,
    a: Seq<char>,
    v: Seq<char>,
    deps: Seq<DepText>,
) -> bool {
    let kids = tree_children(deps);
    &&& node_text(node) == (g, a, v)
    &&& node.dependencies@.len() == kids.len()
    &&& forall|i: int|
        0 <= i < kids.len() ==> {
            &&& node_text(#[trigger] node.dependencies@[i]) == (kids[i].0, kids[i].1, kids[i].2)
            &&& node.dependencies@[i].dependencies@.len() == 0
        }
}

fn is_runtime_dep_exec(d: &Dependency) -> (b: bool)
    ensures
        b == is_runtime_dep(dep_text(*d)),
{
    match &d.scope {
        Some(s) => {
            let sv = chars_of(s.as_str());
            let t = chars_of("test");
            let p = chars_of("provided");
            if chars_eq(sv.as_slice(), t.as_slice()) || chars_eq(sv.as_slice(), p.as_slice()) {
                return false;
            }
        },
        None => {},
    }
    let v = chars_of(d.version.as_str());
    if v.len() == 0 {
        return false;
    }
    let dollar = chars_of("$");
    proof {
        if starts_with(v@, "$"@) {
            assert(v@.take(1)[0] == v@[0]);
        }
        reveal_strlit("$");
        if v@[0] == '$' {
            assert(v@.take(1) =~= "$"@);
        }
    }
    v[0] != '$'
}

fn dep_key_exec(d: &Dependency) -> (k: Vec<char>)
    ensures
        k@ == dep_key(dep_text(*d)),
{
    let mut s = d.group_id.clone();
    push_str(&mut s, ":");
    push_str(&mut s, d.artifact_id.as_str());
    chars_of(s.as_str())
}

fn contains_key(keys: &Vec<Vec<char>>, k: &Vec<char>) -> (b: bool)
    ensures
        b == vec_views(keys@).contains(k@),
{
    let mut i: usize = 0;
    while i < keys.len()
        invariant
            i <= keys@.len(),
            forall|j: int| 0 <= j < i ==> keys@[j]@ != k@,
        decreases keys.len() - i,
    {
        if chars_eq(keys[i].as_slice(), k.as_slice()) {
            assert(vec_views(keys@)[i as int] == k@);
            return true;
        }
        i += 1;
    }
    assert forall|j: int| 0 <= j < keys@.len() implies #[trigger] vec_views(keys@)[j] != k@ by {
        assert(keys@[j]@ != k@);
    }
    false
}

/// Builds the one-level dependency tree of `group:artifact:version` from the
/// dependencies its POM declares.
pub fn dependency_tree(group_id: &str, artifact_id: &str, version: &str, deps: Vec<Dependency>) -> (r:
    DependencyNode)
    ensures
        is_tree_for(r, group_id@, artifact_id@, version@, deps_text(deps@)),
{
    let ghost all = deps_text(deps@);
    let mut children: Vec<DependencyNode> = Vec::new();
    let mut keys: Vec<Vec<char>> = Vec::new();
    let mut i: usize = 0;
    while i < deps.len()
        invariant
            i <= deps@.len(),
            all == deps_text(deps@),
            children@.len() == tree_children(all.take(i as int)).len(),
            vec_views(keys@) == dep_keys(tree_children(all.take(i as int))),
            forall|j: int|
                0 <= j < children@.len() ==> {
                    &&& node_text(#[trigger] children@[j]) == (
                        tree_children(all.take(i as int))[j].0,
                        tree_children(all.take(i as int))[j].1,
                        tree_children(all.take(i as int))[j].2,
                    )
                    &&& children@[j].dependencies@.len() == 0
                },
        decreases deps.len() - i,
    {
        let ghost before = tree_children(all.take(i as int));
        assert(all.take(i + 1).drop_last() =~= all.take(i as int));
        assert(all.take(i + 1).last() == dep_text(deps@[i as int]));
        let d = &deps[i];
        if is_runtime_dep_exec(d) {
            let k = dep_key_exec(d);
            if !contains_key(&keys, &k) {
                let node = DependencyNode {
                    group_id: d.group_id.clone(),
                    artifact_id: d.artifact_id.clone(),
                    version: d.version.clone(),
                    dependencies: Vec::new(),
                };
                children.push(node);
                let ghost old_keys = keys@;
                let ghost kv = k@;
                keys.push(k);
                assert(vec_views(keys@) =~= vec_views(old_keys).push(kv));
                assert(dep_keys(before.push(dep_text(deps@[i as int]))) =~= dep_keys(before).push(
                    dep_key(dep_text(deps@[i as int])),
                ));
            }
        }
        i += 1;
    }
    assert(all.take(deps@.len() as int) =~= all);
    DependencyNode {
        group_id: group_id.to_owned(),
        artifact_id: artifact_id.to_owned(),
        version: version.to_owned(),
        dependencies: children,
    }
}

/// Two children of a dependency tree never share `group:artifact`, and
/// each is a runtime dependency that the POM declares.
pub proof fn lemma_tree_children_distinct(ds: Seq<DepText>)
    ensures
        forall|i: int, j: int|
            0 <= i < j < tree_children(ds).len() ==> dep_key(tree_children(ds)[i]) != dep_key(
                tree_children(ds)[j],
            ),
        forall|i: int|
            0 <= i < tree_children(ds).len() ==> is_runtime_dep(#[trigger] tree_children(ds)[i])
                && ds.contains(tree_children(ds)[i]),
    decreases ds.len(),
{
    if ds.len() > 0 {
        lemma_tree_children_distinct(ds.drop_last());
        let before = tree_children(ds.drop_last());
        let d = ds.last();
        assert forall|i: int|
            0 <= i < before.len() implies ds.contains(#[trigger] before[i]) by {
            let k = choose|k: int| 0 <= k < ds.drop_last().len() && ds.drop_last()[k] == before[i];
            assert(ds[k] == before[i]);
        }
        if is_runtime_dep(d) && !dep_keys(before).contains(dep_key(d)) {
            assert forall|i: int| 0 <= i < before.len() implies dep_key(before[i]) != dep_key(d) by {
                assert(dep_keys(before)[i] == dep_key(before[i]));
            }
            assert(ds.contains(d)) by {
                assert(ds[ds.len() - 1] == d);
            }
        }
    }
}

pub open spec fn search_item_text(it: SearchResultItem) -> (Seq<char>, Seq<char>, Seq<char>, Option<
    Seq<char>,
>, Option<u32>) {
    (it.group_id@, it.artifact_id@, it.version@, opt_view(it.package_type), it.version_count)
}

/// The hit a search document gives: documents without a group or an
/// artifact give none; the version is the latest one, else `v`, else
/// `"latest"`.
pub open spec fn search_hit(d: SearchDoc) -> Option<
    (Seq<char>, Seq<char>, Seq<char>, Option<Seq<char>>, Option<u32>),
> {
    match (d.g, d.a) {
        (Some(g), Some(a)) => Some(
            (
                g@,
                a@,
                match d.latest_version {
                    Some(l) => l@,
                    None => match d.v {
                        Some(v) => v@,
                        None => "latest"@,
                    },
                },
                opt_view(d.p),
                d.version_count,
            ),
        ),
        _ => None,
    }
}

pub open spec fn search_hits(ds: Seq<SearchDoc>) -> Seq<
    (Seq<char>, Seq<char>, Seq<char>, Option<Seq<char>>, Option<u32>),
>
    decreases ds.len(),
{
    if ds.len() == 0 {
        Seq::empty()
    } else {
        match search_hit(ds.last()) {
            Some(h) => search_hits(ds.drop_last()).push(h),
            None => search_hits(ds.drop_last()),
        }
    }
}

/// The search results of a response, in the order of its documents.
pub fn search_results(docs: &Vec<SearchDoc>) -> (r: Vec<SearchResultItem>)
    ensures
        r@.map_values(|it: SearchResultItem| search_item_text(it)) == search_hits(docs@),
{
    let mut out: Vec<SearchResultItem> = Vec::new();
    let mut i: usize = 0;
    while i < docs.len()
        invariant
            i <= docs@.len(),
            out@.map_values(|it: SearchResultItem| search_item_text(it)) == search_hits(
                docs@.take(i as int),
            ),
        decreases docs.len() - i,
    {
        assert(docs@.take(i + 1).drop_last() =~= docs@.take(i as int));
        assert(docs@.take(i + 1).last() == docs@[i as int]);
        let d = &docs[i];
        match (&d.g, &d.a) {
            (Some(g), Some(a)) => {
                let version = match &d.latest_version {
                    Some(l) => l.clone(),
                    None => match &d.v {
                        Some(v) => v.clone(),
                        None => "latest".to_owned(),
                    },
                };
                let ghost before = out@;
                out.push(
                    SearchResultItem {
                        group_id: g.clone(),
                        artifact_id: a.clone(),
                        version,
                        package_type: clone_opt_string(&d.p),
                        version_count: d.version_count,
                    },
                );
                assert(out@.map_values(|it: SearchResultItem| search_item_text(it)) =~= before.map_values(
                    |it: SearchResultItem| search_item_text(it),
                ).push(search_item_text(out@.last())));
            },
            _ => {},
        }
        i += 1;
    }
    assert(docs@.take(docs@.len() as int) =~= docs@);
    out
}

/// The version `fetch_latest_version` reports from a search response: the
/// first document's latest version, else its `v`; an error naming the
/// artifact when there is neither.
pub open spec fn latest_version_spec(docs: Seq<SearchDoc>, g: Seq<char>, a: Seq<char>) -> Result<
    Seq<char>,
    Seq<char>,
> {
    if docs.len() > 0 && docs[0].latest_version is Some {
        Ok(docs[0].latest_version->0@)
    } else if docs.len() > 0 && docs[0].v is Some {
        Ok(docs[0].v->0@)
    } else {
        Err("No se encontró la dependencia '"@ + g + ":"@ + a + "' en Maven Central"@)
    }
}

pub fn latest_version_from_docs(docs: &Vec<SearchDoc>, group_id: &str, artifact_id: &str) -> (r:
    Result<String, String>)
    ensures
        match r {
            Ok(v) => latest_version_spec(docs@, group_id@, artifact_id@) == Ok::<
                Seq<char>,
                Seq<char>,
            >(v@),
            Err(e) => latest_version_spec(docs@, group_id@, artifact_id@) == Err::<
                Seq<char>,
                Seq<char>,
            >(e@),
        },
{
    if docs.len() > 0 {
        match &docs[0].latest_version {
            Some(v) => {
                return Ok(v.clone());
            },
            None => {},
        }
        match &docs[0].v {
            Some(v) => {
                return Ok(v.clone());
            },
            None => {},
        }
    }
    let mut e = "No se encontró la dependencia '".to_owned();
    push_str(&mut e, group_id);
    push_str(&mut e, ":");
    push_str(&mut e, artifact_id);
    push_str(&mut e, "' en Maven Central");
    Err(e)
}

} // verus!
