use jolt::toolchain::probe::{
    adoptium_url, binary_candidates, cached_toolchain, installed_jdk, jdk_bin_dir, jdk_binaries,
    missing_jdk_message, next_toolchain_step, standard_jdk_roots, BinaryScan, JdkBinaries, JdkCollector,
    TargetArch, TargetOs, ToolchainStep,
};
use jolt::toolchain::{detect_java_vendor, find_system_jdk, parse_java_major_version, InstalledJdk, Toolchain};

fn jdk(major: u32, vendor: &str, home: &str, native: bool) -> InstalledJdk {
    InstalledJdk {
        version_raw: format!("javac {}", major),
        major_version: major,
        vendor: vendor.to_string(),
        home_dir: home.to_string(),
        java_bin: format!("{}/bin/java", home),
        javac_bin: format!("{}/bin/javac", home),
        jar_bin: format!("{}/bin/jar", home),
        jpackage_bin: format!("{}/bin/jpackage", home),
        native_image_bin: if native { Some(format!("{}/bin/native-image", home)) } else { None },
    }
}

#[test]
fn mod_test_parse_version_formats() {
    assert_eq!(parse_java_major_version("javac 25.0.4"), Some(25));
    assert_eq!(parse_java_major_version("javac 21.0.2"), Some(21));
    assert_eq!(parse_java_major_version("openjdk version \"17.0.9\" 2023-10-17"), Some(17));
    assert_eq!(parse_java_major_version("java version \"1.8.0_351\""), Some(8));
    assert_eq!(parse_java_major_version("javac 17"), Some(17));
}

#[test]
fn mod_test_detect_vendors() {
    assert_eq!(detect_java_vendor("Java(TM) SE Runtime Environment Oracle GraalVM 25.0.4+7.1"), "Oracle GraalVM");
    assert_eq!(detect_java_vendor("OpenJDK Runtime Environment Temurin-21.0.2+13"), "Eclipse Temurin");
    assert_eq!(detect_java_vendor("Corretto-17.0.9.8.1"), "Amazon Corretto");
    assert_eq!(detect_java_vendor("Zulu21.32+17-CA"), "Azul Zulu");
}

fn check_find_system_jdk() {
    let discovered = vec![jdk(17, "Eclipse Temurin", "/opt/jdk17", false), jdk(21, "Eclipse Temurin", "/opt/jdk21", false)];
    let toolchain = find_system_jdk("21", discovered);
    assert!(toolchain.is_some(), "Debe detectar un JDK compatible >= 21 si existe");
    let tc = toolchain.unwrap();
    assert!(tc.major_version >= 21);
}

#[test]
fn toolchain_test_find_system_jdk() {
    check_find_system_jdk();
}

#[test]
fn mod_test_find_system_jdk() {
    check_find_system_jdk();
}

#[test]
fn system_jdk_prefers_exact_then_graalvm_then_closest() {
    let discovered = vec![
        jdk(25, "Eclipse Temurin", "/opt/jdk25", false),
        jdk(22, "Oracle GraalVM", "/opt/graal22", true),
        jdk(23, "Eclipse Temurin", "/opt/jdk23", false),
    ];
    let tc = find_system_jdk("21", discovered).unwrap();
    assert_eq!(tc.vendor, "Oracle GraalVM");
    let discovered = vec![jdk(23, "Eclipse Temurin", "/opt/jdk23", false), jdk(21, "Azul Zulu", "/opt/zulu21", false)];
    let tc = find_system_jdk("21", discovered).unwrap();
    assert_eq!(tc.major_version, 21);
    let discovered = vec![jdk(25, "Eclipse Temurin", "/opt/jdk25", false), jdk(23, "Eclipse Temurin", "/opt/jdk23", false)];
    assert_eq!(find_system_jdk("21", discovered).unwrap().major_version, 23);
    assert!(find_system_jdk("21", vec![jdk(17, "Eclipse Temurin", "/opt/jdk17", false)]).is_none());
    assert_eq!(find_system_jdk("abc", vec![jdk(21, "X", "/x", false)]).unwrap().major_version, 21);
}

#[test]
fn bin_dir_choice() {
    assert_eq!(jdk_bin_dir("/opt/jdk", true, true, false), Some("/opt/jdk/bin".to_string()));
    assert_eq!(jdk_bin_dir("/opt/jdk/bin", false, true, true), Some("/opt/jdk/bin".to_string()));
    assert_eq!(jdk_bin_dir("/opt/jdk", false, true, false), None);
    assert_eq!(jdk_bin_dir("/missing", false, false, false), None);
}

#[test]
fn binaries_prefer_exe_and_fall_back() {
    let present = vec!["javac".to_string(), "javac.exe".to_string(), "java".to_string(), "native-image".to_string(), "native-image.cmd".to_string()];
    let b = jdk_binaries("/j/bin", &present).unwrap();
    assert_eq!(b.javac, "/j/bin/javac.exe");
    assert_eq!(b.java, "/j/bin/java");
    assert_eq!(b.jar, "jar");
    assert_eq!(b.jpackage, "jpackage");
    assert_eq!(b.native_image, Some("/j/bin/native-image.cmd".to_string()));
    assert!(jdk_binaries("/j/bin", &vec!["javac".to_string()]).is_none());
    assert_eq!(binary_candidates().len(), 11);
}

#[test]
fn installed_jdk_from_outputs() {
    let bins = JdkBinaries {
        java: "/usr/lib/jvm/jdk-21/bin/java".to_string(),
        javac: "/usr/lib/jvm/jdk-21/bin/javac".to_string(),
        jar: "/usr/lib/jvm/jdk-21/bin/jar".to_string(),
        jpackage: "jpackage".to_string(),
        native_image: None,
    };
    let j = installed_jdk("/usr/lib/jvm/jdk-21", true, &bins, "javac 21.0.2\n", "", Some(("", "OpenJDK Runtime Environment Temurin-21.0.2+13"))).unwrap();
    assert_eq!(j.major_version, 21);
    assert_eq!(j.vendor, "Eclipse Temurin");
    assert_eq!(j.version_raw, "javac 21.0.2");
    assert_eq!(j.home_dir, "/usr/lib/jvm/jdk-21");
    // Without a bin directory the home is the parent of the candidate.
    let j = installed_jdk("/usr/lib/jvm/jdk-21/bin", false, &bins, "", "javac 17.0.9", None).unwrap();
    assert_eq!(j.home_dir, "/usr/lib/jvm/jdk-21");
    assert_eq!(j.version_raw, "javac 17.0.9");
    assert_eq!(j.vendor, "Java HotSpot");
    assert!(installed_jdk("/x", true, &bins, "error", "", None).is_none());
    let win = JdkBinaries {
        java: "\\\\?\\C:\\jdk\\bin\\java.exe".to_string(),
        javac: "C:\\jdk\\bin\\javac.exe".to_string(),
        jar: "jar".to_string(),
        jpackage: "jpackage".to_string(),
        native_image: Some("\\\\?\\C:\\jdk\\bin\\native-image.cmd".to_string()),
    };
    let j = installed_jdk("\\\\?\\C:\\jdk", true, &win, "javac 25", "", None).unwrap();
    assert_eq!(j.java_bin, "C:\\jdk\\bin\\java.exe");
    assert_eq!(j.home_dir, "C:\\jdk");
    assert_eq!(j.native_image_bin, Some("C:\\jdk\\bin\\native-image.cmd".to_string()));
}

#[test]
fn collector_lists_each_home_once() {
    let mut c = JdkCollector::new();
    assert!(c.visit("/opt/jdk21"));
    assert!(!c.visit("/opt/jdk21"));
    assert!(c.accept("/opt/jdk21", jdk(21, "X", "/opt/jdk21", false)));
    assert!(c.visit("/opt/jdk21/bin"));
    assert!(!c.accept("/opt/jdk21", jdk(21, "X", "/opt/jdk21", false)));
    assert_eq!(c.jdks.len(), 1);
}

#[test]
fn standard_roots_per_system() {
    let linux = standard_jdk_roots(TargetOs::Linux, Some("/home/u"), None, None);
    assert_eq!(linux, vec!["/usr/lib/jvm", "/opt/java", "/opt/graalvm", "/home/u/.sdkman/candidates/java"]);
    let mac = standard_jdk_roots(TargetOs::MacOs, None, None, None);
    assert_eq!(mac, vec!["/Library/Java/JavaVirtualMachines"]);
    let win = standard_jdk_roots(TargetOs::Windows, None, Some("D:\\PF"), None);
    assert_eq!(win.len(), 9);
    assert_eq!(win[0], "C:\\Program Files\\GraalVm");
}

#[test]
fn binary_scan_merges_files_and_subdirs() {
    let mut sub = BinaryScan::empty();
    sub.scan_file("/t/jdk/bin/java", "java");
    sub.scan_file("/t/jdk/bin/javac.exe", "javac.exe");
    sub.scan_file("/t/jdk/bin/jar", "jar");
    sub.scan_file("/t/jdk/bin/readme", "readme");
    let mut top = BinaryScan::empty();
    top.scan_file("/t/java", "java");
    top.scan_subdir(&sub);
    let (java, javac, jar, jpackage) = top.finish().unwrap();
    assert_eq!(java, "/t/java");
    assert_eq!(javac, "/t/jdk/bin/javac.exe");
    assert_eq!(jar, "/t/jdk/bin/jar");
    assert_eq!(jpackage, "jpackage");
    assert!(BinaryScan::empty().finish().is_none());
}

#[test]
fn adoptium_addresses() {
    assert_eq!(
        adoptium_url("21", TargetOs::Linux, TargetArch::X86_64).unwrap(),
        "https://api.adoptium.net/v3/binary/latest/21/ga/linux/x64/jdk/hotspot/normal/eclipse?project=jdk"
    );
    assert!(adoptium_url("21", TargetOs::MacOs, TargetArch::Aarch64).unwrap().contains("/ga/mac/aarch64/"));
    assert_eq!(adoptium_url("21", TargetOs::Other, TargetArch::X86_64).unwrap_err(), "Sistema operativo no soportado para auto-descarga de JDK");
    assert_eq!(adoptium_url("21", TargetOs::Windows, TargetArch::Other).unwrap_err(), "Arquitectura no soportada para auto-descarga de JDK");
}

#[test]
fn cached_toolchain_defaults() {
    let t = cached_toolchain("17", "Eclipse Temurin", "j".into(), "c".into(), "a".into(), "p".into());
    assert_eq!(t.major_version, 17);
    assert_eq!(t.vendor, "Eclipse Temurin");
    assert!(t.native_image_bin.is_none());
    let t = cached_toolchain("latest", "V", "j".into(), "c".into(), "a".into(), "p".into());
    assert_eq!(t.major_version, 21);
}

#[test]
fn toolchain_resolution_order() {
    let tc = |v: &str| Toolchain {
        version: v.to_string(),
        major_version: 21,
        vendor: "V".to_string(),
        java_bin: "java".to_string(),
        javac_bin: "javac".to_string(),
        jar_bin: "jar".to_string(),
        jpackage_bin: "jpackage".to_string(),
        native_image_bin: None,
    };
    match next_toolchain_step(Some(tc("cache")), Some(tc("system")), true) {
        ToolchainStep::Use(t) => assert_eq!(t.version, "cache"),
        _ => panic!("expected the cached toolchain"),
    }
    match next_toolchain_step(None, Some(tc("system")), false) {
        ToolchainStep::Use(t) => assert_eq!(t.version, "system"),
        _ => panic!("expected the system toolchain"),
    }
    assert!(matches!(next_toolchain_step(None, None, true), ToolchainStep::Download));
    assert!(matches!(next_toolchain_step(None, None, false), ToolchainStep::ReportMissing));
}

#[test]
fn missing_jdk_message_lists_found() {
    let msg = missing_jdk_message("21", &vec![jdk(17, "Amazon Corretto", "/opt/c17", false)]);
    assert!(msg.starts_with("No se encontró un JDK compatible (Java 21 o superior) instalado en tu sistema.\n"));
    assert!(msg.contains("  • Amazon Corretto (Java 17) en /opt/c17\n"));
    assert!(msg.ends_with("ejecuta con el argumento '--download-jdk'."));
    let none = missing_jdk_message("21", &vec![]);
    assert!(none.contains("No se detectó ningún JDK instalado"));
}
