use jolt::scaffold::ide::{settings_updates, toml_associations, SettingValue};
use jolt::scaffold::ide::{
    classpath_descriptor, ide_project_name, merge_recommendations, project_descriptor, referenced_jars, sort_strings,
    source_paths,
};
use jolt::scaffold::{
    default_gitignore, default_package, normalize_template, resolve_group_id, resolve_package,
    resolve_project_location, scaffold_project, template_kind, workspace_manifest, TemplateKind,
};

fn file<'a>(files: &'a [(String, String)], path: &str) -> &'a str {
    &files.iter().find(|(p, _)| p == path).unwrap_or_else(|| panic!("missing {}", path)).1
}

#[test]
fn test_init_project_with_package() {
    let (base, name) = resolve_project_location(Some("/tmp/jolt_scaffold_test_pkg/my_app"));
    assert_eq!(base, "/tmp/jolt_scaffold_test_pkg/my_app");
    assert_eq!(name, "my_app");
    let kind = template_kind(&normalize_template(Some("minimal"))).unwrap();
    let pkg = resolve_package(Some("org.equipo.demo"));
    let gid = resolve_group_id(Some("org.equipo"), pkg.as_deref());
    let plan = scaffold_project(&kind, &name, pkg.as_deref(), gid.as_deref(), false);
    let main = file(&plan.files, "src/main/java/org/equipo/demo/Main.java");
    assert!(main.contains("package org.equipo.demo;"));
    assert!(main.contains("public class Main"));
    let toml = file(&plan.files, "jolt.toml");
    assert!(toml.contains("package = \"org.equipo.demo\""));
    assert!(toml.contains("group_id = \"org.equipo\""));
    assert!(toml.contains("main_class = \"org.equipo.demo.Main\""));
    assert_eq!(plan.main_class, "org.equipo.demo.Main");
}

#[test]
fn test_init_project_with_graalvm() {
    let kind = template_kind("cli").unwrap();
    let plan = scaffold_project(&kind, "cli_app", None, None, true);
    let toml = file(&plan.files, "jolt.toml");
    assert!(toml.contains("[graalvm]\nenabled = true\nname = \"cli_app-cli\""));
    assert!(plan.files.iter().any(|(p, _)| p == "src/main/resources/META-INF/native-image/reflect-config.json"));
    assert!(file(&plan.files, "src/main/resources/reflect-config.json").contains("\"name\": \"Main\""));
}

#[test]
fn test_init_project_web_template_has_test() {
    let kind = template_kind("web").unwrap();
    let plan = scaffold_project(&kind, "web_service", None, None, false);
    assert!(plan.files.iter().any(|(p, _)| p == "jolt.toml"));
    assert!(plan.files.iter().any(|(p, _)| p == "src/test/java/MainTest.java"));
}

#[test]
fn test_init_project_workspace() {
    assert_eq!(workspace_manifest(), "[workspace]\nmembers = []\n");
    assert!(default_gitignore().starts_with("target/\n.jolt/modules/\n"));
}

#[test]
fn templates_by_name() {
    assert_eq!(template_kind("spring-boot").unwrap(), TemplateKind::Spring);
    assert_eq!(template_kind(&normalize_template(Some("JavaFX"))).unwrap(), TemplateKind::JavaFx);
    assert_eq!(normalize_template(None), "minimal");
    assert_eq!(template_kind("react").unwrap_err(), "Plantilla 'react' no reconocida.");
}

#[test]
fn default_packages() {
    assert_eq!(default_package("My-App!", false), "org.example.myapp");
    assert_eq!(default_package("Web_Api", true), "org.app.web_api");
    assert_eq!(resolve_package(Some("   ")), None);
    assert_eq!(resolve_package(Some("  com.acme.tool ")), Some("com.acme.tool".to_string()));
    assert_eq!(resolve_group_id(None, Some("com.acme.tool")), Some("com.acme".to_string()));
    assert_eq!(resolve_group_id(None, Some("tool")), Some("tool".to_string()));
    assert_eq!(resolve_group_id(None, None), None);
    assert_eq!(resolve_project_location(None), ("app".to_string(), "app".to_string()));
}

#[test]
fn scaffold_directories() {
    let plan = scaffold_project(&TemplateKind::Swing, "desk", Some("a.b"), None, false);
    assert_eq!(plan.directories, vec!["src/main/java/a/b", "src/main/resources", "src/test/java/a/b"]);
    assert!(file(&plan.files, "src/test/java/a/b/SwingAppTest.java").starts_with("package a.b;\n\n"));
    let toml = file(&plan.files, "jolt.toml");
    assert!(toml.starts_with("[project]\nname = \"desk\"\nversion = \"0.1.0\"\njava_version = \"21\"\npackage = \"a.b\"\nmain_class = \"a.b.Main\"\n\n[dependencies]\n\"com.formdev:flatlaf\" = \"3.4.1\""));
}

fn check_ide_files() {
    let modules = vec!["guava-33.0.0.jar".to_string(), "notes.txt".to_string(), "aa-1.jar".to_string()];
    let dev = vec!["junit-5.jar".to_string()];
    let jars = referenced_jars(&modules, &dev);
    assert_eq!(jars, vec![".jolt/dev-modules/junit-5.jar", ".jolt/modules/aa-1.jar", ".jolt/modules/guava-33.0.0.jar"]);
    let project = project_descriptor("mi-proyecto-test");
    assert!(project.contains("<name>mi-proyecto-test</name>"));
    assert!(project.contains("org.eclipse.jdt.core.javanature"));
    let classpath = classpath_descriptor(true, false, false, false, true, &jars);
    assert!(classpath.contains("kind=\"src\" path=\"src/main/java\""));
    assert!(classpath.contains("kind=\"lib\" path=\".jolt/modules/guava-33.0.0.jar\""));
    assert!(classpath.contains("kind=\"output\" path=\"target/classes\""));
    let recs = merge_recommendations(&vec!["redhat.java".to_string(), "other.ext".to_string()]);
    assert_eq!(
        recs,
        vec!["redhat.java", "other.ext", "vscjava.vscode-java-pack", "vscjava.vscode-java-dependency", "tamasfe.even-better-toml"]
    );
}

#[test]
fn scaffold_test_ensure_ide_configuration_creates_files() {
    check_ide_files();
}

#[test]
fn mod_test_ensure_ide_configuration_creates_files() {
    check_ide_files();
}

#[test]
fn ide_source_paths_and_fallbacks() {
    assert_eq!(source_paths(true, true, true, false, true), vec!["src/main/java", "src/main/resources", "src/test/java"]);
    assert_eq!(source_paths(false, false, false, false, true), vec!["src"]);
    assert!(source_paths(false, false, false, false, false).is_empty());
    let cp = classpath_descriptor(false, false, false, false, false, &vec![]);
    assert_eq!(
        cp,
        "<?xml version=\"1.0\" encoding=\"UTF-8\"?>\n<classpath>\n\t<classpathentry kind=\"src\" path=\"src/main/java\"/>\n\t<classpathentry kind=\"src\" output=\"target/test-classes\" path=\"src/test/java\"/>\n\t<classpathentry kind=\"con\" path=\"org.eclipse.jdt.launching.JRE_CONTAINER\"/>\n\t<classpathentry kind=\"output\" path=\"target/classes\"/>\n</classpath>\n"
    );
    assert_eq!(ide_project_name(None, Some("m"), Some("d")), "m");
    assert_eq!(ide_project_name(None, None, None), "app");
}

#[test]
fn sorting_orders_by_code_point() {
    let v = vec!["b".to_string(), "a".to_string(), "B".to_string(), "ab".to_string(), "a".to_string(), "é".to_string()];
    let mut expected = v.clone();
    expected.sort();
    assert_eq!(sort_strings(&v), expected);
}

#[test]
fn template_list() {
    let t = jolt::scaffold::available_templates();
    assert_eq!(t.len(), 6);
    assert_eq!(t[0].0, "minimal");
    assert_eq!(t[5].0, "spring");
}

#[test]
fn settings_updates_keep_an_existing_output_path() {
    let updates = settings_updates(vec![".jolt/modules/a.jar".to_string()], vec!["src/main/java".to_string()], true);
    let keys: Vec<&str> = updates.iter().map(|(k, _)| k.as_str()).collect();
    assert_eq!(
        keys,
        vec!["java.project.referencedLibraries", "java.project.sourcePaths", "java.configuration.updateBuildConfiguration"]
    );
    assert!(matches!(&updates[0].1, SettingValue::List(l) if l == &vec![".jolt/modules/a.jar".to_string()]));
    assert!(matches!(&updates[2].1, SettingValue::Text(t) if t == "automatic"));
    let updates = settings_updates(vec![], vec![], false);
    assert_eq!(updates.len(), 4);
    assert_eq!(updates[2].0, "java.project.outputPath");
    assert!(matches!(&updates[2].1, SettingValue::Text(t) if t == "target/classes"));
    assert_eq!(
        toml_associations(),
        vec![("jolt.toml".to_string(), "toml".to_string()), ("jolt.lock".to_string(), "toml".to_string())]
    );
}

#[test]
fn project_name_is_the_last_component() {
    assert_eq!(resolve_project_location(Some("dir/app")), ("dir/app".to_string(), "app".to_string()));
    assert_eq!(resolve_project_location(Some("cli_app")), ("cli_app".to_string(), "cli_app".to_string()));
}
