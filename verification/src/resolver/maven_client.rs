//! The Maven Central endpoints Jolt talks to, and the URLs it asks them.
use vstd::prelude::*;
use crate::cache::{group_path, group_path_exec, jar_file_name, jar_file_name_spec};
use crate::text::{chars_of, push_chars, push_decimal, push_str, decimal, trim, trim_chars};

verus! {

/// The search service and the repository of Maven Central.
pub struct MavenClient {
    pub search_base_url: String,
    pub repo_base_url: String,
}

/// Spaces of a search query become `+`.
pub open spec fn plus_spaces(s: Seq<char>) -> Seq<char> {
    s.map_values(|c: char| if c == ' ' {
        '+'
    } else {
        c
    })
}

pub open spec fn latest_version_url_spec(base: Seq<char>, g: Seq<char>, a: Seq<char>) -> Seq<char> {
    base + "?q=g:\""@ + g + "\"+AND+a:\""@ + a + "\"&rows=1&wt=json"@
}

pub open spec fn search_url_spec(base: Seq<char>, query: Seq<char>, limit: nat) -> Seq<char> {
    base + "?q="@ + plus_spaces(trim(query)) + "&rows="@ + decimal(limit) + "&wt=json"@
}

/// `<repo>/<group as path>/<artifact>/<version>/<file>`.
pub open spec fn artifact_url_spec(repo: Seq<char>, g: Seq<char>, a: Seq<char>, v: Seq<char>, file: Seq<
    char,
>) -> Seq<char> {
    repo + "/"@ + group_path(g) + "/"@ + a + "/"@ + v + "/"@ + file
}

impl MavenClient {
    /// The client for Maven Central.
    pub fn new() -> (c: Self)
        ensures
            c.search_base_url@ == "https://search.maven.org/solrsearch/select"@,
            c.repo_base_url@ == "https://repo1.maven.org/maven2"@,
    {
        MavenClient {
            search_base_url: "https://search.maven.org/solrsearch/select".to_owned(),
            repo_base_url: "https://repo1.maven.org/maven2".to_owned(),
        }
    }

    /// The search asking for the newest version of `group:artifact`.
    pub fn latest_version_url(&self, group_id: &str, artifact_id: &str) -> (u: String)
        ensures
            u@ == latest_version_url_spec(self.search_base_url@, group_id@, artifact_id@),
    {
        let mut u = self.search_base_url.clone();
        push_str(&mut u, "?q=g:\"");
        push_str(&mut u, group_id);
        push_str(&mut u, "\"+AND+a:\"");
        push_str(&mut u, artifact_id);
        push_str(&mut u, "\"&rows=1&wt=json");
        u
    }

    /// A free-text search returning at most `limit` documents.
    pub fn search_url(&self, query: &str, limit: usize) -> (u: String)
        ensures
            u@ == search_url_spec(self.search_base_url@, query@, limit as nat),
    {
        let q = chars_of(query);
        let t = trim_chars(q.as_slice());
        let mut p: Vec<char> = Vec::new();
        let mut i: usize = 0;
        while i < t.len()
            invariant
                i <= t@.len(),
                p@ == plus_spaces(t@.take(i as int)),
            decreases t.len() - i,
        {
            p.push(if t[i] == ' ' {
                '+'
            } else {
                t[i]
            });
            assert(plus_spaces(t@.take(i + 1)) =~= plus_spaces(t@.take(i as int)).push(
                if t@[i as int] == ' ' {
                    '+'
                } else {
                    t@[i as int]
                },
            ));
            i += 1;
        }
        assert(t@.take(t@.len() as int) =~= t@);
        let mut u = self.search_base_url.clone();
        push_str(&mut u, "?q=");
        push_chars(&mut u, p.as_slice());
        push_str(&mut u, "&rows=");
        push_decimal(&mut u, limit as u64);
        push_str(&mut u, "&wt=json");
        u
    }

    fn artifact_url(&self, group_id: &str, artifact_id: &str, version: &str, file: &str) -> (u:
        String)
        ensures
            u@ == artifact_url_spec(self.repo_base_url@, group_id@, artifact_id@, version@, file@),
    {
        let g = group_path_exec(group_id);
        let mut u = self.repo_base_url.clone();
        push_str(&mut u, "/");
        push_str(&mut u, g.as_str());
        push_str(&mut u, "/");
        push_str(&mut u, artifact_id);
        push_str(&mut u, "/");
        push_str(&mut u, version);
        push_str(&mut u, "/");
        push_str(&mut u, file);
        u
    }

    /// Where the POM of `group:artifact:version` is published.
    pub fn pom_url(&self, group_id: &str, artifact_id: &str, version: &str) -> (u: String)
        ensures
            u@ == artifact_url_spec(
                self.repo_base_url@,
                group_id@,
                artifact_id@,
                version@,
                artifact_id@ + "-"@ + version@ + ".pom"@,
            ),
    {
        let mut f = artifact_id.to_owned();
        push_str(&mut f, "-");
        push_str(&mut f, version);
        push_str(&mut f, ".pom");
        self.artifact_url(group_id, artifact_id, version, f.as_str())
    }

    /// Where the JAR of `group:artifact:version` (with an optional platform
    /// classifier) is published.
    pub fn jar_url(&self, group_id: &str, artifact_id: &str, version: &str, classifier: Option<
        &str,
    >) -> (u: String)
        ensures
            u@ == artifact_url_spec(
                self.repo_base_url@,
                group_id@,
                artifact_id@,
                version@,
                jar_file_name_spec(
                    artifact_id@,
                    version@,
                    match classifier {
                        Some(c) => Some(c@),
                        None => None,
                    },
                ),
            ),
    {
        let f = jar_file_name(artifact_id, version, classifier);
        self.artifact_url(group_id, artifact_id, version, f.as_str())
    }
}

} // verus!
