use jolt::cache::{jar_file_name, CacheManager};
use jolt::resolver::{dependency_tree, latest_version_from_docs, search_results, Dependency, MavenClient, SearchDoc};

fn doc(g: Option<&str>, a: Option<&str>, latest: Option<&str>, v: Option<&str>) -> SearchDoc {
    SearchDoc {
        g: g.map(String::from),
        a: a.map(String::from),
        latest_version: latest.map(String::from),
        v: v.map(String::from),
        p: Some("jar".to_string()),
        version_count: Some(3),
    }
}

fn dep(g: &str, a: &str, v: &str, scope: Option<&str>) -> Dependency {
    Dependency { group_id: g.to_string(), artifact_id: a.to_string(), version: v.to_string(), scope: scope.map(String::from) }
}

#[test]
fn maven_urls() {
    let c = MavenClient::new();
    assert_eq!(
        c.latest_version_url("com.google.code.gson", "gson"),
        "https://search.maven.org/solrsearch/select?q=g:\"com.google.code.gson\"+AND+a:\"gson\"&rows=1&wt=json"
    );
    assert_eq!(
        c.search_url("  spring boot ", 10),
        "https://search.maven.org/solrsearch/select?q=spring+boot&rows=10&wt=json"
    );
    assert_eq!(
        c.pom_url("com.google.guava", "guava", "33.0.0-jre"),
        "https://repo1.maven.org/maven2/com/google/guava/guava/33.0.0-jre/guava-33.0.0-jre.pom"
    );
    assert_eq!(
        c.jar_url("org.openjfx", "javafx-base", "21.0.2", Some("linux")),
        "https://repo1.maven.org/maven2/org/openjfx/javafx-base/21.0.2/javafx-base-21.0.2-linux.jar"
    );
    assert_eq!(
        c.jar_url("g.h", "a", "1", Some("")),
        "https://repo1.maven.org/maven2/g/h/a/1/a-1.jar"
    );
}

#[test]
fn search_hits_and_latest_version() {
    let docs = vec![
        doc(Some("g"), Some("a"), Some("2.0"), Some("1.0")),
        doc(None, Some("b"), Some("1"), None),
        doc(Some("g"), Some("c"), None, Some("0.9")),
        doc(Some("g"), Some("d"), None, None),
    ];
    let hits = search_results(&docs);
    assert_eq!(hits.len(), 3);
    assert_eq!(hits[0].version, "2.0");
    assert_eq!(hits[1].version, "0.9");
    assert_eq!(hits[2].version, "latest");
    assert_eq!(hits[0].package_type.as_deref(), Some("jar"));
    assert_eq!(latest_version_from_docs(&docs, "g", "a").unwrap(), "2.0");
    assert_eq!(latest_version_from_docs(&vec![doc(Some("g"), Some("c"), None, Some("0.9"))], "g", "c").unwrap(), "0.9");
    assert_eq!(
        latest_version_from_docs(&vec![], "g", "x").unwrap_err(),
        "No se encontró la dependencia 'g:x' en Maven Central"
    );
}

#[test]
fn tree_keeps_runtime_dependencies_once() {
    let deps = vec![
        dep("g", "a", "1", None),
        dep("g", "t", "1", Some("test")),
        dep("g", "p", "1", Some("provided")),
        dep("g", "a", "2", Some("compile")),
        dep("g", "prop", "${x.version}", None),
        dep("g", "empty", "", None),
        dep("g", "b", "3", Some("runtime")),
    ];
    let tree = dependency_tree("root", "app", "1.0", deps);
    assert_eq!((tree.group_id.as_str(), tree.artifact_id.as_str(), tree.version.as_str()), ("root", "app", "1.0"));
    let kids: Vec<(String, String)> = tree.dependencies.iter().map(|d| (d.artifact_id.clone(), d.version.clone())).collect();
    assert_eq!(kids, vec![("a".to_string(), "1".to_string()), ("b".to_string(), "3".to_string())]);
    assert!(tree.dependencies.iter().all(|d| d.dependencies.is_empty()));
}

#[test]
fn cache_layout() {
    let c = CacheManager::new(Some("/home/u"));
    assert_eq!(c.cache_root, "/home/u/.jolt/cache/v1");
    assert_eq!(CacheManager::new(None).cache_root, "./.jolt/cache/v1");
    assert_eq!(
        c.get_jar_path("com.google.guava", "guava", "33.0.0"),
        "/home/u/.jolt/cache/v1/jars/com/google/guava/guava/33.0.0/guava-33.0.0.jar"
    );
    assert_eq!(
        c.get_jar_path_with_classifier("org.openjfx", "javafx-base", "21", Some("win")),
        "/home/u/.jolt/cache/v1/jars/org/openjfx/javafx-base/21/javafx-base-21-win.jar"
    );
    let r = CacheManager::with_root("/tmp/jolt_test_cache/global_cache".to_string());
    assert_eq!(r.get_jar_path("g", "a", "1"), "/tmp/jolt_test_cache/global_cache/jars/g/a/1/a-1.jar");
    assert_eq!(CacheManager::module_link_path("proj", "guava", "33.0.0"), "proj/.jolt/modules/guava-33.0.0.jar");
    assert_eq!(jar_file_name("a", "1", None), "a-1.jar");
}
