use jolt::manifest::{JoltManifest, PackageConfig, Project, WindowsPackageConfig};
use jolt::packaging::jar::{fat_jar_manifest, jar_path, jar_tool_args, standalone_jar_path, FatJarEntries};
use jolt::packaging::jpackage::{jpackage_args, nsis_installer_path, package_output_path, plan_native_package, PackageOptions};

fn options() -> PackageOptions {
    PackageOptions {
        pkg_type: None,
        dest: None,
        name: None,
        app_version: None,
        main_class: None,
        icon: None,
        java_options: None,
        upx: None,
        add_to_path: None,
        scope: None,
        verbose: false,
    }
}

fn manifest() -> JoltManifest {
    JoltManifest {
        workspace: None,
        project: Some(Project {
            name: "desktop app".to_string(),
            version: "1.2.3-beta".to_string(),
            java_version: Some("21".to_string()),
            main_class: Some("com.example.Main".to_string()),
            package: None,
            group_id: None,
        }),
        package: Some(PackageConfig {
            pkg_type: None,
            name: None,
            main_class: None,
            icon: Some("icon.png".to_string()),
            vendor: Some("Acme Corp".to_string()),
            description: Some("A native desktop app".to_string()),
            copyright: None,
            dest: Some("out".to_string()),
            java_options: Some(vec!["-Xmx512m".to_string()]),
            windows: Some(WindowsPackageConfig {
                upx: Some(true),
                upx_args: None,
                installer: None,
                add_to_path: None,
                desktop_shortcut: Some(false),
                start_menu: None,
                scope: Some("per-machine".to_string()),
                license: Some("LICENSE".to_string()),
            }),
            graalvm: None,
        }),
        graalvm: None,
        dependencies: None,
        dev_dependencies: None,
    }
}

#[test]
fn package_plan_from_manifest() {
    let plan = plan_native_package("proj", &manifest(), &options(), Some("Detected".to_string()), "linux").unwrap();
    assert_eq!(plan.main_class, "com.example.Main");
    assert_eq!(plan.app_name, "desktop_app");
    assert_eq!(plan.version, "1.2.3");
    assert_eq!(plan.pkg_type, "app-image");
    assert_eq!(plan.dest_dir, "proj/out");
    assert_eq!(plan.vendor, "Acme Corp");
    assert!(plan.upx);
    assert!(!plan.add_to_path);
    assert!(!plan.desktop_shortcut);
    assert!(plan.start_menu);
    assert_eq!(plan.scope, "per-machine");
    assert_eq!(plan.license_file, Some("proj/LICENSE".to_string()));
    assert_eq!(plan.icon_path, Some("proj/icon.png".to_string()));
}

#[test]
fn package_plan_options_win() {
    let mut o = options();
    o.name = Some("tools/My App".to_string());
    o.app_version = Some("abc".to_string());
    o.pkg_type = Some("SETUP".to_string());
    o.upx = Some(false);
    let plan = plan_native_package("proj", &manifest(), &o, None, "windows").unwrap();
    assert_eq!(plan.app_name, "My_App");
    assert_eq!(plan.version, "1.0.0");
    assert_eq!(plan.pkg_type, "nsis");
    assert!(!plan.upx);
    let mut o = options();
    o.pkg_type = Some("msi".to_string());
    let err = plan_native_package("proj", &manifest(), &o, None, "linux").err().unwrap();
    assert_eq!(err, "Tipo de paquete 'msi' no soportado en esta plataforma (\"linux\"). Opciones válidas: app-image");
}

#[test]
fn package_paths_and_arguments() {
    assert_eq!(package_output_path("app-image", "linux", "dist", "App", "1.0", false), "dist/App/bin/App");
    assert_eq!(package_output_path("app-image", "windows", "dist", "App", "1.0", false), "dist/App/App.exe");
    assert_eq!(package_output_path("msi", "windows", "dist", "App", "1.0", true), "dist/App-1.0.msi");
    assert_eq!(package_output_path("msi", "windows", "dist", "App", "1.0", false), "dist");
    assert_eq!(nsis_installer_path("dist", "App", "1.0"), "dist/App-1.0-setup.exe");
    let m = manifest();
    let args = jpackage_args("in", "Main", "App", "1.0", "dist", "app-image", &m.package, Some("-Da=1 -Db=2"), &Some("icon.png".to_string()), false, true);
    assert_eq!(&args[..14], &["--input", "in", "--main-jar", "app.jar", "--main-class", "Main", "--name", "App", "--app-version", "1.0", "--dest", "dist", "--type", "app-image"]);
    assert!(args.windows(2).any(|w| w[0] == "--vendor" && w[1] == "Acme Corp"));
    assert!(args.windows(2).any(|w| w[0] == "--java-options" && w[1] == "-Xmx512m"));
    assert!(args.windows(2).any(|w| w[0] == "--java-options" && w[1] == "-Db=2"));
    assert!(!args.iter().any(|a| a == "--icon"));
    assert_eq!(args.last().unwrap(), "--verbose");
}

#[test]
fn jar_files() {
    assert_eq!(jar_path("target", "app", "1.0"), "target/app-1.0.jar");
    assert_eq!(standalone_jar_path("target", "app", "1.0"), "target/app-1.0-standalone.jar");
    assert_eq!(jar_tool_args("t/app.jar", "Main", "t/classes"), vec!["cfe", "t/app.jar", "Main", "-C", "t/classes", "."]);
    assert_eq!(fat_jar_manifest("com.x.Main", "0.6.0"), "Manifest-Version: 1.0\r\nMain-Class: com.x.Main\r\nCreated-By: Jolt 0.6.0\r\n\r\n");
}

#[test]
fn fat_jar_entries_are_unique_and_unsigned() {
    let mut e = FatJarEntries::new();
    assert!(e.contains("META-INF/MANIFEST.MF"));
    assert!(e.accept_class_file("com/x/Main.class", true));
    assert!(!e.accept_class_file("com/x/Main.class", true));
    assert!(!e.accept_class_file("", true));
    assert!(!e.accept_class_file("com/x", false));
    assert!(!e.accept_dependency_entry("META-INF/LIB.SF", true));
    assert!(!e.accept_dependency_entry("META-INF/INDEX.LIST", true));
    assert!(!e.accept_dependency_entry("com/x/Main.class", true));
    assert!(e.accept_dependency_entry("com/y/Util.class", true));
    assert!(e.accept_dependency_entry("META-INF/services/x", true));
}

#[test]
fn package_app_name_is_the_last_component() {
    let mut o = options();
    o.name = Some("dir/app".to_string());
    let plan = plan_native_package("proj", &manifest(), &o, None, "linux").unwrap();
    assert_eq!(plan.app_name, "app");
    o.name = Some("plain".to_string());
    let plan = plan_native_package("proj", &manifest(), &o, None, "linux").unwrap();
    assert_eq!(plan.app_name, "plain");
}
