use jolt::manifest_edit::{add_dependency_to_content, add_member_to_content, remove_dependency_from_content};
use jolt::checksum::checksum_of;
use jolt::install::dependency_destination;
use jolt::lockfile::{JoltLock, LockedPackage};
use jolt::install::{
    coordinate_key, is_linked_jar_of, jar_request, manifest_jar_requests, manifest_version_value, module_folder,
    parse_add_coordinate, removed_artifact, resolve_target_directories, stale_jars, RootManifest,
};
use jolt::manifest::{DependencySpec, JoltManifest, Workspace};

fn manifest(workspace: Option<Vec<&str>>) -> JoltManifest {
    JoltManifest {
        workspace: workspace.map(|m| Workspace { members: m.into_iter().map(|s| s.to_string()).collect() }),
        project: None,
        package: None,
        graalvm: None,
        dependencies: None,
        dev_dependencies: None,
    }
}

#[test]
fn targets_of_a_single_project() {
    let root = RootManifest::Loaded(manifest(None));
    assert_eq!(resolve_target_directories(None, false, false, &root, false).unwrap(), vec!["."]);
    assert_eq!(resolve_target_directories(Some("x"), true, true, &root, false).unwrap(), vec!["."]);
}

#[test]
fn targets_without_manifest() {
    let err = resolve_target_directories(None, false, false, &RootManifest::Missing, false).unwrap_err();
    assert_eq!(err, "No se encontro 'jolt.toml'. Ejecuta este comando dentro de un proyecto o workspace.");
    let err = resolve_target_directories(None, false, false, &RootManifest::Unreadable("mal".to_string()), false)
        .unwrap_err();
    assert_eq!(err, "Error al leer jolt.toml: mal");
}

#[test]
fn targets_in_a_workspace() {
    let root = RootManifest::Loaded(manifest(Some(vec!["core", "app"])));
    assert_eq!(resolve_target_directories(Some("core"), false, false, &root, false).unwrap(), vec!["core"]);
    assert_eq!(resolve_target_directories(Some("tools"), false, false, &root, true).unwrap(), vec!["tools"]);
    assert_eq!(
        resolve_target_directories(Some("tools"), false, false, &root, false).unwrap_err(),
        "El modulo 'tools' no esta registrado en [workspace].members ni existe."
    );
    assert_eq!(resolve_target_directories(None, true, false, &root, false).unwrap(), vec!["core", "app"]);
    assert_eq!(resolve_target_directories(None, false, true, &root, false).unwrap(), vec!["core", "app"]);
    assert_eq!(
        resolve_target_directories(None, false, false, &root, false).unwrap_err(),
        "Estas en la raiz de un Workspace Monorepo. Especifica un modulo con '-p <modulo>' o usa '--all'."
    );
    let single = RootManifest::Loaded(manifest(Some(vec!["only"])));
    assert_eq!(resolve_target_directories(None, false, false, &single, false).unwrap(), vec!["only"]);
    let empty = RootManifest::Loaded(manifest(Some(vec![])));
    assert_eq!(
        resolve_target_directories(None, true, false, &empty, false).unwrap_err(),
        "El workspace no tiene miembros registrados en [workspace].members"
    );
}

#[test]
fn jar_request_reads_coordinates() {
    let r = jar_request("org.openjfx:javafx-controls", "21.0.2:linux").unwrap();
    assert_eq!(r.group_id, "org.openjfx");
    assert_eq!(r.artifact_id, "javafx-controls");
    assert_eq!(r.version, "21.0.2");
    assert_eq!(r.classifier, Some("linux".to_string()));
    assert_eq!(r.file_name, "javafx-controls-21.0.2-linux.jar");
    let r = jar_request("com.google.guava:guava", "33.0.0-jre").unwrap();
    assert_eq!(r.file_name, "guava-33.0.0-jre.jar");
    assert_eq!(r.classifier, None);
    let r = jar_request("g:a", "1.0:").unwrap();
    assert_eq!(r.file_name, "a-1.0.jar");
    assert!(jar_request("guava", "1").is_none());
    assert!(jar_request("a:b:c", "1").is_none());
}

#[test]
fn manifest_requests_skip_local_and_unversioned() {
    let deps = vec![
        ("com.google.guava:guava".to_string(), DependencySpec::Version("33.0.0-jre".to_string())),
        ("core".to_string(), DependencySpec::Table { version: Some("0.1.0".to_string()), path: Some("../core".to_string()) }),
        ("x:y".to_string(), DependencySpec::Table { version: None, path: None }),
        ("org.slf4j:slf4j-api".to_string(), DependencySpec::Table { version: Some("2.0.12".to_string()), path: None }),
        ("bad".to_string(), DependencySpec::Version("1".to_string())),
        ("o:o".to_string(), DependencySpec::Other),
    ];
    let reqs = manifest_jar_requests(&deps);
    assert_eq!(reqs.len(), 2);
    assert_eq!(reqs[0].name, "com.google.guava:guava");
    assert_eq!(reqs[1].file_name, "slf4j-api-2.0.12.jar");
}

#[test]
fn sync_removes_only_stale_jars() {
    let entries = vec!["gson-2.14.0.jar".to_string(), "old-1.0.jar".to_string(), "notes.txt".to_string()];
    let active = vec!["gson-2.14.0.jar".to_string()];
    assert_eq!(stale_jars(&entries, &active), vec!["old-1.0.jar"]);
    assert!(stale_jars(&entries, &entries).is_empty());
}

#[test]
fn add_coordinates() {
    let c = parse_add_coordinate("org.openjfx:javafx-base:21.0.2:linux").unwrap();
    assert_eq!((c.group_id.as_str(), c.artifact_id.as_str()), ("org.openjfx", "javafx-base"));
    assert_eq!(c.version, Some("21.0.2".to_string()));
    assert_eq!(c.classifier, Some("linux".to_string()));
    let c = parse_add_coordinate("com.google.guava:guava").unwrap();
    assert_eq!(c.version, None);
    assert_eq!(
        parse_add_coordinate("guava").err().unwrap(),
        "Formato de dependencia invalido. Usa: 'groupId:artifactId' o 'groupId:artifactId:version'"
    );
    assert_eq!(manifest_version_value("21.0.2", Some("linux")), "21.0.2:linux");
    assert_eq!(manifest_version_value("1.0", None), "1.0");
    assert_eq!(coordinate_key("g", "a"), "g:a");
}

#[test]
fn remove_matches_linked_files() {
    assert_eq!(removed_artifact("com.google.guava:guava"), Some("guava".to_string()));
    assert_eq!(removed_artifact("guava"), None);
    assert!(is_linked_jar_of("guava-33.0.0.jar", "guava"));
    assert!(!is_linked_jar_of("guava-33.0.0.txt", "guava"));
    assert!(!is_linked_jar_of("gson-2.jar", "guava"));
    let dev = vec!["org.junit.jupiter:junit-jupiter-api".to_string()];
    assert_eq!(module_folder("org.junit.jupiter:junit-jupiter-api", &dev), "dev-modules");
    assert_eq!(module_folder("g:a", &dev), "modules");
}

#[test]
fn lock_keeps_one_entry_per_package() {
    let pkg = |name: &str, version: &str| LockedPackage {
        name: name.to_string(),
        version: version.to_string(),
        checksum: "sha256:unknown".to_string(),
        dependencies: vec![],
    };
    let mut lock = JoltLock::new();
    lock.add_or_update_package(pkg("g:a", "1"));
    lock.add_or_update_package(pkg("g:b", "1"));
    lock.add_or_update_package(pkg("g:a", "2"));
    assert_eq!(lock.packages.len(), 2);
    assert_eq!(lock.packages[0].version, "2");
    assert!(lock.remove_package("g:a"));
    assert!(!lock.remove_package("g:a"));
    assert_eq!(lock.packages.len(), 1);
    assert_eq!(lock.packages[0].name, "g:b");
}

#[test]
fn checksums_of_content() {
    assert_eq!(
        checksum_of(Some(b"abc")),
        "sha256:ba7816bf8f01cfea414140de5dae2223b00361a396177a9cb410ff61f20015ad"
    );
    assert_eq!(checksum_of(None), "sha256:unknown");
}

#[test]
fn dependency_destinations() {
    assert_eq!(dependency_destination(true), ("dev-dependencies".to_string(), "dev-modules".to_string()));
    assert_eq!(dependency_destination(false), ("dependencies".to_string(), "modules".to_string()));
}

#[test]
fn manifest_test_add_and_remove_dev_dependency() {
    let initial_toml = "[project]\nname = \"test-pkg\"\nversion = \"0.1.0\"\n";
    let step = add_dependency_to_content(initial_toml, "com.google.guava:guava", "33.0.0-jre", false).unwrap();
    let step = add_dependency_to_content(&step, "org.junit.jupiter:junit-jupiter-api", "5.10.2", true).unwrap();
    let parsed: toml::Table = toml::from_str(&step).unwrap();
    let deps = parsed.get("dependencies").and_then(|d| d.as_table()).expect("expected dependencies");
    assert_eq!(deps.get("com.google.guava:guava").and_then(|v| v.as_str()), Some("33.0.0-jre"));
    let dev = parsed.get("dev-dependencies").and_then(|d| d.as_table()).expect("expected dev-dependencies");
    assert_eq!(dev.get("org.junit.jupiter:junit-jupiter-api").and_then(|v| v.as_str()), Some("5.10.2"));
    assert!(step.starts_with("[project]\nname = \"test-pkg\""));
    let (removed, after) = remove_dependency_from_content(&step, "org.junit.jupiter:junit-jupiter-api").unwrap();
    assert!(removed);
    let parsed: toml::Table = toml::from_str(&after).unwrap();
    assert!(parsed.get("dev-dependencies").and_then(|d| d.as_table()).map(|d| d.is_empty()).unwrap_or(true));
    let (removed_again, _) = remove_dependency_from_content(&after, "org.junit.jupiter:junit-jupiter-api").unwrap();
    assert!(!removed_again);
    assert!(add_dependency_to_content("[project\nname=", "g:a", "1", false).is_err());
}

#[test]
fn workspace_members_are_registered_once() {
    let text = add_member_to_content("[workspace]\nmembers = []\n", "core").unwrap();
    let text = add_member_to_content(&text, "core").unwrap();
    let text = add_member_to_content(&text, "app").unwrap();
    let parsed: toml::Table = toml::from_str(&text).unwrap();
    let members: Vec<&str> = parsed["workspace"]["members"].as_array().unwrap().iter().map(|v| v.as_str().unwrap()).collect();
    assert_eq!(members, vec!["core", "app"]);
    let created = add_member_to_content("[project]\nname = \"x\"\nversion = \"1\"\n", "m").unwrap();
    let parsed: toml::Table = toml::from_str(&created).unwrap();
    assert_eq!(parsed["workspace"]["members"].as_array().unwrap().len(), 1);
}

#[test]
fn dependency_is_not_added_where_the_key_holds_no_table() {
    let text = add_dependency_to_content("dependencies = 5\n", "g:a", "1", false).unwrap();
    let parsed: toml::Table = toml::from_str(&text).unwrap();
    assert_eq!(parsed["dependencies"].as_integer(), Some(5));
}

#[test]
fn dependency_replaces_an_existing_version_and_keeps_the_rest() {
    let text = "[dependencies]\n\"g:a\" = \"1\"\n\"g:b\" = \"2\"\n";
    let text = add_dependency_to_content(text, "g:a", "3", false).unwrap();
    let parsed: toml::Table = toml::from_str(&text).unwrap();
    assert_eq!(parsed["dependencies"]["g:a"].as_str(), Some("3"));
    assert_eq!(parsed["dependencies"]["g:b"].as_str(), Some("2"));
}

#[test]
fn removal_reports_either_table_and_keeps_other_entries() {
    let text = "[dependencies]\n\"g:b\" = \"2\"\n[dev-dependencies]\n\"g:a\" = \"1\"\n";
    let (removed, after) = remove_dependency_from_content(text, "g:a").unwrap();
    assert!(removed);
    let parsed: toml::Table = toml::from_str(&after).unwrap();
    assert_eq!(parsed["dependencies"]["g:b"].as_str(), Some("2"));
    assert!(parsed["dev-dependencies"].as_table().unwrap().get("g:a").is_none());
    let (removed, _) = remove_dependency_from_content("[project]\nname = \"x\"\n", "g:a").unwrap();
    assert!(!removed);
    assert!(remove_dependency_from_content("[dependencies\n", "g:a").is_err());
}

#[test]
fn member_is_not_registered_where_members_is_no_array() {
    let text = add_member_to_content("[workspace]\nmembers = \"core\"\n", "app").unwrap();
    let parsed: toml::Table = toml::from_str(&text).unwrap();
    assert_eq!(parsed["workspace"]["members"].as_str(), Some("core"));
    let text = add_member_to_content("workspace = 1\n", "app").unwrap();
    let parsed: toml::Table = toml::from_str(&text).unwrap();
    assert_eq!(parsed["workspace"].as_integer(), Some(1));
    assert!(add_member_to_content("[workspace\n", "app").is_err());
}

#[test]
fn edits_keep_sub_tables_and_root_values() {
    let text = "title = \"x\"\n[package]\nname = \"app\"\n[package.windows]\nupx = true\n[package.graalvm]\nenabled = true\n[[extra]]\nn = 1\n";
    let text = add_dependency_to_content(text, "g:a", "1", true).unwrap();
    let (removed, text) = remove_dependency_from_content(&text, "g:a").unwrap();
    assert!(removed);
    let text = add_member_to_content(&text, "core").unwrap();
    let parsed: toml::Table = toml::from_str(&text).unwrap();
    assert_eq!(parsed["title"].as_str(), Some("x"));
    assert_eq!(parsed["package"]["name"].as_str(), Some("app"));
    assert_eq!(parsed["package"]["windows"]["upx"].as_bool(), Some(true));
    assert_eq!(parsed["package"]["graalvm"]["enabled"].as_bool(), Some(true));
    assert_eq!(parsed["extra"][0]["n"].as_integer(), Some(1));
    assert_eq!(parsed["workspace"]["members"][0].as_str(), Some("core"));
}
