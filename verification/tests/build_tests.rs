use jolt::build::launch::classpath_folders;
use jolt::build::launch::{
    compile_failure, extension_exec, is_upx_target, java_run_args, javac_args, junit_args, main_sources,
    makensis_candidates, native_binary_name, native_image_args, native_image_candidates, native_output_path,
    path_is_under_exec, program_exit_message, push_jar_paths, should_reload, tests_failed_message, upx_args,
    upx_candidates, UpxTotals,
};
use jolt::build::compiler::{join_classpath, main_class_from_source, test_compile_classpath_exec, test_scan_classpath_exec};
use jolt::checker::{expected_module_jar, DependencyCheck, DirStats, SystemChecker};
use jolt::manifest::GraalVmConfig;
use jolt::toolchain::probe::TargetOs;

fn check_build_classpath_separation() {
    let mut prod = vec!["target/classes".to_string()];
    push_jar_paths(&mut prod, ".jolt/modules", &vec!["gson-2.14.0.jar".to_string()]);
    let prod_cp = join_classpath(&prod, ":");
    assert!(prod_cp.contains("gson-2.14.0.jar"));
    assert!(!prod_cp.contains("junit-jupiter-api-5.10.2.jar"));
    let mut test = vec!["target/classes".to_string()];
    push_jar_paths(&mut test, ".jolt/modules", &vec!["gson-2.14.0.jar".to_string()]);
    push_jar_paths(&mut test, ".jolt/dev-modules", &vec!["junit-jupiter-api-5.10.2.jar".to_string(), "x.txt".to_string()]);
    let test_cp = join_classpath(&test, ":");
    assert!(test_cp.contains("classes"));
    assert!(test_cp.contains("gson-2.14.0.jar"));
    assert!(test_cp.contains("junit-jupiter-api-5.10.2.jar"));
    assert_eq!(test.len(), 3);
}

#[test]
fn mod_test_build_classpath_separation() {
    check_build_classpath_separation();
}

#[test]
fn engine_test_build_classpath_separation() {
    check_build_classpath_separation();
}

fn check_detect_main_class() {
    let java_code = r#"
        package com.example;

        public class MyAwesomeApp {
            public static void main(String[] args) {
                System.out.println("Hello World");
            }
        }
        "#;
    assert_eq!(main_class_from_source(java_code, Some("MyAwesomeApp")), Some("com.example.MyAwesomeApp".to_string()));
}

#[test]
fn mod_test_detect_main_class() {
    check_detect_main_class();
}

#[test]
fn engine_test_detect_main_class() {
    check_detect_main_class();
}

#[test]
fn sources_exclude_tests_without_main_dir() {
    let all = vec!["src/App.java".to_string(), "src/test/AppTest.java".to_string(), "src/testing/X.java".to_string()];
    assert_eq!(main_sources(&vec![], &vec![], false, &all, "src/test"), vec!["src/App.java", "src/testing/X.java"]);
    let mj = vec!["src/main/java/A.java".to_string()];
    assert_eq!(main_sources(&mj, &mj, true, &all, "src/test").len(), 2);
    assert!(path_is_under_exec("src/test", "src/test"));
    assert!(!path_is_under_exec("src/testing", "src/test"));
}

#[test]
fn command_lines() {
    assert_eq!(javac_args("target/classes", "", &vec!["A.java".to_string()]), vec!["-d", "target/classes", "A.java"]);
    assert_eq!(javac_args("out", "a.jar", &vec![]), vec!["-d", "out", "-cp", "a.jar"]);
    assert_eq!(java_run_args("", "Main"), vec!["Main"]);
    assert_eq!(java_run_args("cp", "Main"), vec!["-cp", "cp", "Main"]);
    assert_eq!(junit_args("j.jar", "t:c")[4], "t:c");
    assert_eq!(compile_failure("boom"), "Fallo en la compilación Java:\nboom");
    assert_eq!(program_exit_message(Some(-2)), "El programa terminó con código de salida: Some(-2)");
    assert_eq!(program_exit_message(None), "El programa terminó con código de salida: None");
    assert_eq!(tests_failed_message(Some(1)), "Las pruebas unitarias terminaron con errores (código: Some(1))");
    assert_eq!(test_compile_classpath_exec("", ":", "junit.jar"), "junit.jar");
    assert_eq!(test_scan_classpath_exec("tc", "c", ":", ""), "tc:c");
}

#[test]
fn watch_debounce() {
    assert!(should_reload(true, 300));
    assert!(!should_reload(true, 299));
    assert!(!should_reload(false, 1000));
}

#[test]
fn upx_selection_and_totals() {
    assert!(is_upx_target("app.EXE"));
    assert!(is_upx_target("libjli.so"));
    assert!(!is_upx_target("app.jar"));
    assert!(!is_upx_target(".so"));
    assert_eq!(extension_exec("a.tar.gz"), Some("gz".to_string()));
    assert_eq!(extension_exec("README"), None);
    assert_eq!(upx_args(None), vec!["--best", "--lzma"]);
    assert_eq!(upx_args(Some(&vec!["-9".to_string()])), vec!["-9"]);
    let mut t = UpxTotals::new();
    t.record(100, 40, true);
    t.record(50, 60, true);
    t.record(10, 5, false);
    assert_eq!((t.bytes_before, t.bytes_after, t.count), (160, 105, 1));
    assert!(upx_candidates(TargetOs::Linux, Some("/home/u")).is_empty());
    assert_eq!(upx_candidates(TargetOs::Windows, None), vec!["C:\\ProgramData\\chocolatey\\bin\\upx.exe"]);
    assert_eq!(makensis_candidates(TargetOs::Windows, Some("H")).len(), 4);
}

#[test]
fn native_image_command() {
    let cfg = GraalVmConfig {
        enabled: Some(true),
        args: Some(vec!["--no-fallback".to_string()]),
        main_class: None,
        name: Some("tool".to_string()),
        reflection_config: Some("reflect-config.json".to_string()),
        resources_config: Some("/abs/res.json".to_string()),
    };
    assert_eq!(native_binary_name(Some(&cfg), "app"), "tool");
    assert_eq!(native_binary_name(None, "app"), "app");
    let args = native_image_args("/w/target/app.jar", "tool", Some(&cfg), "/w", "proj");
    assert_eq!(
        args,
        vec![
            "-jar",
            "/w/target/app.jar",
            "-o",
            "tool",
            "--no-fallback",
            "-H:ReflectionConfigurationFiles=/w/proj/reflect-config.json",
            "-H:ResourceConfigurationFiles=/abs/res.json",
        ]
    );
    assert_eq!(native_output_path("dist", "tool", TargetOs::Windows), "dist/tool.exe");
    assert_eq!(native_output_path("dist", "tool", TargetOs::Linux), "dist/tool");
    let c = native_image_candidates(Some("/g"), &vec!["/usr/bin".to_string()]);
    assert_eq!(c[0], "/g/bin/native-image.cmd");
    assert_eq!(c[5], "/usr/bin/native-image");
}

#[test]
fn checker_helpers() {
    assert_eq!(SystemChecker::version_line("", "  openjdk version \"21\"\nmore\n"), Some("openjdk version \"21\"".to_string()));
    assert_eq!(SystemChecker::version_line("rustc 1.80\n", "warn"), Some("rustc 1.80".to_string()));
    assert_eq!(SystemChecker::version_line(" \n", ""), None);
    assert_eq!(expected_module_jar("com.google.guava:guava", "33.0.0-jre"), Some("guava-33.0.0-jre.jar".to_string()));
    assert_eq!(expected_module_jar("org.openjfx:javafx-base", "21:linux"), Some("javafx-base-21-linux.jar".to_string()));
    assert_eq!(expected_module_jar("bad", "1"), None);
    let mut d = DirStats::new();
    d.add_file(Some(10));
    d.add_file(None);
    assert_eq!((d.count, d.total_bytes), (2, 10));
    let mut c = DependencyCheck::new();
    c.record("g:a", "1", true);
    c.record("g:b", "2", false);
    assert_eq!(c.ok, 1);
    assert_eq!(c.missing, vec!["g:b = \"2\""]);
}

#[test]
fn classpath_folders_for_main_and_tests() {
    assert_eq!(classpath_folders(false), vec!["modules".to_string()]);
    assert_eq!(classpath_folders(true), vec!["modules".to_string(), "dev-modules".to_string()]);
}
