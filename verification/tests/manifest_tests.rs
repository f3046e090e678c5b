use jolt::manifest::{DependencySpec, GraalVmConfig, JoltManifest, PackageConfig, Workspace};

fn graal(name: &str) -> GraalVmConfig {
    GraalVmConfig {
        enabled: Some(true),
        args: Some(vec!["--no-fallback".to_string()]),
        main_class: None,
        name: Some(name.to_string()),
        reflection_config: None,
        resources_config: None,
    }
}

fn package_with(graalvm: Option<GraalVmConfig>) -> PackageConfig {
    PackageConfig {
        pkg_type: Some("app-image".to_string()),
        name: None,
        main_class: None,
        icon: None,
        vendor: None,
        description: None,
        copyright: None,
        dest: None,
        java_options: None,
        windows: None,
        graalvm,
    }
}

fn empty() -> JoltManifest {
    JoltManifest { workspace: None, project: None, package: None, graalvm: None, dependencies: None, dev_dependencies: None }
}

#[test]
fn graalvm_config_prefers_top_level() {
    let mut m = empty();
    assert!(m.graalvm_config().is_none());
    m.package = Some(package_with(Some(graal("nested"))));
    assert_eq!(m.graalvm_config().unwrap().name.as_deref(), Some("nested"));
    m.graalvm = Some(graal("native-app-bin"));
    assert_eq!(m.graalvm_config().unwrap().name.as_deref(), Some("native-app-bin"));
}

#[test]
fn dependency_specs() {
    assert_eq!(
        JoltManifest::parse_dependency_spec(&DependencySpec::Version("21.0.2:linux".to_string())),
        (Some("21.0.2:linux".to_string()), None)
    );
    assert_eq!(
        JoltManifest::parse_dependency_spec(&DependencySpec::Table {
            version: Some("0.1.0".to_string()),
            path: Some("../core".to_string())
        }),
        (Some("0.1.0".to_string()), Some("../core".to_string()))
    );
    assert_eq!(JoltManifest::parse_dependency_spec(&DependencySpec::Other), (None, None));
}

#[test]
fn local_paths_and_workspace_flag() {
    let mut m = empty();
    assert!(!m.is_workspace());
    m.workspace = Some(Workspace { members: vec!["core".to_string()] });
    assert!(m.is_workspace());
    m.dependencies = Some(vec![
        ("core".to_string(), DependencySpec::Table { version: None, path: Some("../core".to_string()) }),
        ("g:a".to_string(), DependencySpec::Version("1".to_string())),
        ("ui".to_string(), DependencySpec::Table { version: Some("1".to_string()), path: Some("../ui".to_string()) }),
    ]);
    assert_eq!(m.local_dependency_paths(), vec!["../core", "../ui"]);
}
