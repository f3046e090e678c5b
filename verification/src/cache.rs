//! Where the global JAR cache keeps each artifact, and where a project links
//! it.
use vstd::prelude::*;
use crate::paths::{join_spec, path_join};
use crate::text::{chars_of, push_str, string_of};

verus! {

/// The global cache of downloaded JARs, rooted at `cache_root`.
pub struct CacheManager {
    pub cache_root: String,
}

/// A Maven group id as a directory path: dots become slashes.
pub open spec fn group_path(g: Seq<char>) -> Seq<char> {
    g.map_values(|c: char| if c == '.' {
        '/'
    } else {
        c
    })
}

/// `artifact-version.jar`, or `artifact-version-classifier.jar` for a
/// non-empty classifier.
pub open spec fn jar_file_name_spec(a: Seq<char>, v: Seq<char>, classifier: Option<Seq<char>>) -> Seq<
    char,
> {
    match classifier {
        Some(c) => if c.len() > 0 {
            a + "-"@ + v + "-"@ + c + ".jar"@
        } else {
            a + "-"@ + v + ".jar"@
        },
        None => a + "-"@ + v + ".jar"@,
    }
}

/// `<root>/jars/<group as path>/<artifact>/<version>/<file>`.
pub open spec fn jar_path_spec(root: Seq<char>, g: Seq<char>, a: Seq<char>, v: Seq<char>, file: Seq<
    char,
>) -> Seq<char> {
    join_spec(join_spec(join_spec(join_spec(join_spec(root, "jars"@), group_path(g)), a), v), file)
}

/// `<home>/.jolt/cache/v1`, with `.` standing for a missing home.
pub open spec fn default_cache_root(home: Option<Seq<char>>) -> Seq<char> {
    let h = match home {
        Some(h) => h,
        None => "."@,
    };
    join_spec(join_spec(join_spec(h, ".jolt"@), "cache"@), "v1"@)
}

/// `<project>/.jolt/modules/<artifact>-<version>.jar`.
pub open spec fn module_link_spec(project: Seq<char>, a: Seq<char>, v: Seq<char>) -> Seq<char> {
    join_spec(join_spec(join_spec(project, ".jolt"@), "modules"@), a + "-"@ + v + ".jar"@)
}

pub fn group_path_exec(g: &str) -> (r: String)
    ensures
        r@ == group_path(g@),
{
    let v = chars_of(g);
    let mut out: Vec<char> = Vec::new();
    let mut i: usize = 0;
    while i < v.len()
        invariant
            i <= v.len(),
            out@ == group_path(v@.take(i as int)),
        decreases v.len() - i,
    {
        out.push(if v[i] == '.' {
            '/'
        } else {
            v[i]
        });
        assert(group_path(v@.take(i + 1)) =~= group_path(v@.take(i as int)).push(
            if v@[i as int] == '.' {
                '/'
            } else {
                v@[i as int]
            },
        ));
        i += 1;
    }
    assert(v@.take(v.len() as int) =~= v@);
    string_of(out.as_slice())
}

/// The file name under which an artifact's JAR is published.
pub fn jar_file_name(artifact_id: &str, version: &str, classifier: Option<&str>) -> (r: String)
    ensures
        r@ == jar_file_name_spec(
            artifact_id@,
            version@,
            match classifier {
                Some(c) => Some(c@),
                None => None,
            },
        ),
{
    let mut s = artifact_id.to_owned();
    push_str(&mut s, "-");
    push_str(&mut s, version);
    match classifier {
        Some(c) => {
            if c.unicode_len() > 0 {
                push_str(&mut s, "-");
                push_str(&mut s, c);
            }
        },
        None => {},
    }
    push_str(&mut s, ".jar");
    s
}

impl CacheManager {
    /// The cache under the user's home directory (`.` when there is none).
    pub fn new(home_dir: Option<&str>) -> (c: Self)
        ensures
            c.cache_root@ == default_cache_root(
                match home_dir {
                    Some(h) => Some(h@),
                    None => None,
                },
            ),
    {
        let h = match home_dir {
            Some(h) => h,
            None => ".",
        };
        let a = path_join(h, ".jolt");
        let b = path_join(a.as_str(), "cache");
        let root = path_join(b.as_str(), "v1");
        CacheManager { cache_root: root }
    }

    /// A cache rooted at a custom directory.
    pub fn with_root(custom_root: String) -> (c: Self)
        ensures
            c.cache_root == custom_root,
    {
        CacheManager { cache_root: custom_root }
    }

    /// The path of an artifact's JAR in the global cache.
    pub fn get_jar_path(&self, group_id: &str, artifact_id: &str, version: &str) -> (p: String)
        ensures
            p@ == jar_path_spec(
                self.cache_root@,
                group_id@,
                artifact_id@,
                version@,
                jar_file_name_spec(artifact_id@, version@, None),
            ),
    {
        self.get_jar_path_with_classifier(group_id, artifact_id, version, None)
    }

    /// The path of an artifact's JAR, possibly for a platform classifier.
    pub fn get_jar_path_with_classifier(
        &self,
        group_id: &str,
        artifact_id: &str,
        version: &str,
        classifier: Option<&str>,
    ) -> (p: String)
        ensures
            p@ == jar_path_spec(
                self.cache_root@,
                group_id@,
                artifact_id@,
                version@,
                jar_file_name_spec(
                    artifact_id@,
                    version@,
                    match classifier {
                        Some(c) => Some(c@),
                        None => None,
                    },
                ),
            ),
    {
        let g = group_path_exec(group_id);
        let p1 = path_join(self.cache_root.as_str(), "jars");
        let p2 = path_join(p1.as_str(), g.as_str());
        let p3 = path_join(p2.as_str(), artifact_id);
        let p4 = path_join(p3.as_str(), version);
        let f = jar_file_name(artifact_id, version, classifier);
        path_join(p4.as_str(), f.as_str())
    }

    /// Where `link_to_project` places an artifact inside a project.
    pub fn module_link_path(project_dir: &str, artifact_id: &str, version: &str) -> (p: String)
        ensures
            p@ == module_link_spec(project_dir@, artifact_id@, version@),
    {
        let d1 = path_join(project_dir, ".jolt");
        let d2 = path_join(d1.as_str(), "modules");
        let f = jar_file_name(artifact_id, version, None);
        path_join(d2.as_str(), f.as_str())
    }
}

} // verus!
