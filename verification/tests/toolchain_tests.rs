use jolt::toolchain::{detect_java_vendor, parse_java_major_version};

#[test]
fn toolchain_test_parse_version_formats() {
    assert_eq!(parse_java_major_version("javac 25.0.4"), Some(25));
    assert_eq!(parse_java_major_version("javac 21.0.2"), Some(21));
    assert_eq!(parse_java_major_version("openjdk version \"17.0.9\" 2023-10-17"), Some(17));
    assert_eq!(parse_java_major_version("java version \"1.8.0_351\""), Some(8));
    assert_eq!(parse_java_major_version("javac 17"), Some(17));
}

#[test]
fn toolchain_test_detect_vendors() {
    assert_eq!(detect_java_vendor("Java(TM) SE Runtime Environment Oracle GraalVM 25.0.4+7.1"), "Oracle GraalVM");
    assert_eq!(detect_java_vendor("OpenJDK Runtime Environment Temurin-21.0.2+13"), "Eclipse Temurin");
    assert_eq!(detect_java_vendor("Corretto-17.0.9.8.1"), "Amazon Corretto");
    assert_eq!(detect_java_vendor("Zulu21.32+17-CA"), "Azul Zulu");
}

#[test]
fn numerals_parse_to_their_major_version() {
    for n in 2u32..=400 {
        assert_eq!(jolt::toolchain::detector::parse_java_major_version(&format!("javac {}.0.1", n)), Some(n));
        assert_eq!(jolt::toolchain::detector::parse_java_major_version(&format!("openjdk {}", n)), Some(n));
        assert_eq!(
            jolt::toolchain::detector::parse_java_major_version(&format!("java version \"1.{}.0_1\"", n)),
            Some(n)
        );
    }
}

#[test]
fn vendor_rules_apply_in_order() {
    assert_eq!(detect_java_vendor("OpenJDK GraalVM Temurin Corretto"), "Oracle GraalVM");
    assert_eq!(detect_java_vendor("Temurin build of OpenJDK, Oracle"), "Eclipse Temurin");
    assert_eq!(detect_java_vendor("java 21 something"), "Java HotSpot");
}
