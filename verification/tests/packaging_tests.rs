use jolt::engine::BuildEngine;
use jolt::packaging::generate_nsis_script;
use jolt::resolver::parse_pom_dependencies;

const SAMPLE_POM: &str = r#"
        <project xmlns="http://maven.apache.org/POM/4.0.0">
            <modelVersion>4.0.0</modelVersion>
            <groupId>com.example</groupId>
            <artifactId>sample-project</artifactId>
            <version>1.0.0</version>
            <dependencies>
                <dependency>
                    <groupId>com.google.guava</groupId>
                    <artifactId>guava</artifactId>
                    <version>33.0.0-jre</version>
                </dependency>
                <dependency>
                    <groupId>org.junit.jupiter</groupId>
                    <artifactId>junit-jupiter</artifactId>
                    <version>5.10.1</version>
                    <scope>test</scope>
                </dependency>
            </dependencies>
        </project>
        "#;

fn check_sample_pom() {
    let deps = parse_pom_dependencies(SAMPLE_POM).expect("Failed to parse POM");
    assert_eq!(deps.len(), 2);

    assert_eq!(deps[0].group_id, "com.google.guava");
    assert_eq!(deps[0].artifact_id, "guava");
    assert_eq!(deps[0].version, "33.0.0-jre");
    assert_eq!(deps[0].scope, None);

    assert_eq!(deps[1].group_id, "org.junit.jupiter");
    assert_eq!(deps[1].artifact_id, "junit-jupiter");
    assert_eq!(deps[1].version, "5.10.1");
    assert_eq!(deps[1].scope, Some("test".to_string()));
}

#[test]
fn maven_test_parse_pom_xml() {
    check_sample_pom();
}

#[test]
fn mod_test_parse_pom_xml() {
    check_sample_pom();
}

#[test]
fn pom_without_dependencies_is_empty() {
    let deps = parse_pom_dependencies("<project><groupId>a</groupId></project>").unwrap();
    assert!(deps.is_empty());
}

#[test]
fn pom_dependency_fields_are_trimmed() {
    let pom = "<project><dependencies><dependency>\n  <groupId> g </groupId>\n  <artifactId>a</artifactId>\n  <version>1</version>\n</dependency></dependencies></project>";
    let deps = parse_pom_dependencies(pom).unwrap();
    assert_eq!(deps.len(), 1);
    assert_eq!(deps[0].group_id, "g");
    assert_eq!(deps[0].artifact_id, "a");
    assert_eq!(deps[0].version, "1");
}

#[test]
fn pom_malformed_xml_is_an_error() {
    let pom = "<project><dependencies><dependency><groupId>g</artifactId></dependency></dependencies></project>";
    assert!(parse_pom_dependencies(pom).is_err());
}

#[test]
fn pom_exclusion_coordinates_stay_out_of_the_dependency() {
    let pom = "<project><dependencies><dependency><groupId>g</groupId><artifactId>a</artifactId><version>2</version><exclusions><exclusion><groupId>x</groupId><artifactId>y</artifactId></exclusion></exclusions></dependency></dependencies></project>";
    let deps = parse_pom_dependencies(pom).unwrap();
    assert_eq!(deps.len(), 1);
    assert_eq!(deps[0].group_id, "g");
    assert_eq!(deps[0].artifact_id, "a");
    assert_eq!(deps[0].version, "2");
    assert_eq!(deps[0].scope, None);
}

#[test]
fn pom_exclusion_before_coordinates_leaves_them_alone() {
    let pom = "<project><dependencies><dependency><exclusions><exclusion><groupId>x</groupId><artifactId>y</artifactId></exclusion></exclusions><artifactId>a</artifactId><groupId>g</groupId></dependency></dependencies></project>";
    let deps = parse_pom_dependencies(pom).unwrap();
    assert_eq!(deps.len(), 1);
    assert_eq!(deps[0].group_id, "g");
    assert_eq!(deps[0].artifact_id, "a");
    assert_eq!(deps[0].version, "");
}

#[test]
fn pom_dependency_without_group_is_skipped() {
    let pom = "<project><dependencies><dependency><artifactId>a</artifactId><exclusions><exclusion><groupId>x</groupId></exclusion></exclusions></dependency></dependencies></project>";
    let deps = parse_pom_dependencies(pom).unwrap();
    assert!(deps.is_empty());
}

fn check_nsis(script: &str) {
    assert!(script.contains("!define PRODUCT_NAME \"MyApp\""));
    assert!(script.contains("!define PRODUCT_VERSION \"1.0.0\""));
    assert!(script.contains("RequestExecutionLevel user"));
    assert!(script.contains("$LOCALAPPDATA\\Programs\\MyApp"));
    assert!(script.contains("MUI_PAGE_WELCOME"));
    assert!(script.contains("StrContains"));
    assert!(script.contains("un.StrReplace"));
    assert!(script.contains("WriteRegExpandStr HKCU \"Environment\" \"PATH\""));
    assert!(script.contains("CreateShortCut \"$DESKTOP\\MyApp.lnk\""));
}

#[test]
fn engine_test_generate_nsis_script_content() {
    let script = BuildEngine::generate_nsis_script(
        "MyApp",
        "1.0.0",
        "Acme Corp",
        None,
        "target/staging",
        "MyApp.exe",
        true,
        true,
        true,
        "per-user",
        None,
        "dist/MyApp-setup.exe",
    );
    check_nsis(&script);
}

#[test]
fn mod_test_generate_nsis_script_content() {
    let script = generate_nsis_script(
        "MyApp",
        "1.0.0",
        "Acme Corp",
        None,
        "target/staging",
        "MyApp.exe",
        true,
        true,
        true,
        "per-user",
        None,
        "dist/MyApp-setup.exe",
    );
    check_nsis(&script);
}

#[test]
fn nsis_per_machine_scope_any_case() {
    let script = generate_nsis_script(
        "MyApp",
        "1.0.0",
        "Acme Corp",
        Some("C:\\icons\\app.ico"),
        "target\\staging",
        "MyApp.exe",
        false,
        false,
        false,
        "Per-Machine",
        Some("LICENSE"),
        "dist\\MyApp-setup.exe",
    );
    assert!(script.contains("RequestExecutionLevel admin"));
    assert!(script.contains("$PROGRAMFILES64\\MyApp"));
    assert!(script.contains("C:/icons/app.ico"));
    assert!(script.contains("target/staging"));
    assert!(!script.contains("CreateShortCut \"$DESKTOP\\MyApp.lnk\""));
}
