use release_gate::extract::{extract, parse_version, ExtractError, SourceFormat};
use release_gate::semver::check_should_release;
use release_gate::tag::normalize_tag;

#[test]
fn test_parse_cargo_toml() {
    let input = r#"
        [package]
        name = "test"
        version = "1.2.3"
        "#;
    let expected = "1.2.3";
    let (ver, file_type) = parse_version(input.to_string()).unwrap();
    assert_eq!(ver, expected);
    assert!(file_type == "Cargo.toml");
    let input = r#"
        [workspace]
        resolver = "2"

        [workspace.package]
        version = "1.2.3"
        "#;
    let expected = "1.2.3";
    let (ver, _) = parse_version(input.to_string()).unwrap();
    assert_eq!(ver, expected);
    let input = r#"
        [workspace]
        resolver = "2"
        [workspace.package]
        foo = "bar"
        "#;
    let (_, file_type) = parse_version(input.to_string()).unwrap();
    // a workspace section without a version field yields no structured
    // candidate, and the catch-all file type is version.txt
    assert_eq!(file_type, "version.txt");
}

#[test]
fn test_parse_package_json() {
    let input = r#"
        { 
            "version": "1.2.3"
        }"#;
    let expected = "1.2.3";
    let (ver, _) = parse_version(input.to_string()).unwrap();
    assert_eq!(ver, expected);
}

#[test]
fn test_parse_version_txt() {
    let input = r#"
        1.2.3
        "#;
    let expected = "1.2.3";
    assert_eq!(parse_version(input.to_string()).unwrap().0, expected);
}

#[test]
fn test_check_should_release() {
    assert!(check_should_release("1.2.3", "1.2.2"));
    assert!(check_should_release("1.2.3", "1.2.2-beta"));
    assert!(check_should_release("1.2.3", "ver-1.2.2"));
    assert!(check_should_release("1.2.3", "v1.2.2"));
    assert!(check_should_release("v1.2.3", "1.2.2"));
    assert!(check_should_release("1.2.3", ""));

    assert!(!check_should_release("1.2.3", "1.2.3"));
    assert!(!check_should_release("1.2.3", "1.2.4"));
    assert!(!check_should_release("1.2.3", "v1.2.4"));
    assert!(!check_should_release("v1.2.3", "1.2.4"));
    assert!(check_should_release("1.2.3", ""));
}

#[test]
fn test_normalize_tag_strips_prefix() {
    for (input, expected) in [
        ("v1.2.3", "1.2.3"),
        ("1.2.3", "1.2.3"),
        ("package-1.2.3", "1.2.3"),
        ("name_1.2.3", "1.2.3"),
    ] {
        assert_eq!(normalize_tag(Some(input)), expected);
    }
}

#[test]
fn test_normalize_tag_keeps_suffix() {
    for (input, not_expected) in [
        ("1.2.3.", "1.2.3"),
        ("1.2.3-alpha", "1.2.3"),
        ("1.2.3-beta", "1.2.3"),
        ("1.2.3-rc", "1.2.3"),
    ] {
        assert_ne!(normalize_tag(Some(input)), not_expected);
        assert_eq!(normalize_tag(Some(input)), input);
    }
}

#[test]
fn test_normalize_tag_default() {
    assert_eq!(normalize_tag(None), "0");
    assert_eq!(normalize_tag(Some("")), "0");
}

#[test]
fn test_normalize_tag_no_digits() {
    assert_eq!(normalize_tag(Some("abc")), "");
}

#[test]
fn test_normalize_tag_idempotent() {
    for input in ["v1.2.3", "package-1.2.3", "007", "1.2.3-rc"] {
        let once = normalize_tag(Some(input));
        let twice = normalize_tag(Some(once.as_str()));
        assert_eq!(twice, once);
    }
    let once = normalize_tag(None);
    assert_eq!(normalize_tag(Some(once.as_str())), once);
}

#[test]
fn test_extract_cargo_manifest() {
    let ev = extract("[package]\nname=\"test\"\nversion=\"1.2.3\"").unwrap();
    assert_eq!(ev.value, "1.2.3");
    assert_eq!(ev.format, SourceFormat::CargoManifest);
}

#[test]
fn test_extract_workspace_manifest() {
    let ev = extract("[workspace]\n[workspace.package]\nversion=\"1.2.3\"").unwrap();
    assert_eq!(ev.value, "1.2.3");
    assert_eq!(ev.format, SourceFormat::CargoManifest);
}

#[test]
fn test_extract_workspace_takes_precedence() {
    let content = r#"
        [package]
        name = "test"
        version = "1.0.0"

        [workspace]

        [workspace.package]
        version = "2.0.0"
        "#;
    let ev = extract(content).unwrap();
    assert_eq!(ev.value, "2.0.0");
    assert_eq!(ev.format, SourceFormat::CargoManifest);
}

#[test]
fn test_extract_package_json() {
    let ev = extract("{\"version\":\"1.2.3\"}").unwrap();
    assert_eq!(ev.value, "1.2.3");
    assert_eq!(ev.format, SourceFormat::PackageManifest);
}

#[test]
fn test_extract_plain_text() {
    let ev = extract("1.2.3").unwrap();
    assert_eq!(ev.value, "1.2.3");
    assert_eq!(ev.format, SourceFormat::PlainText);
}

#[test]
fn test_extract_trims_plain_text() {
    let ev = extract("  2.4.6-beta \n").unwrap();
    assert_eq!(ev.value, "2.4.6-beta");
    assert_eq!(ev.format, SourceFormat::PlainText);
}

#[test]
fn test_extract_unparseable() {
    let err = extract("abc").unwrap_err();
    let ExtractError::UnparseableVersion(candidate) = err;
    assert_eq!(candidate, "abc");

    let err = parse_version("abc".to_string()).unwrap_err();
    let ExtractError::UnparseableVersion(candidate) = err;
    assert_eq!(candidate, "abc");
}

#[test]
fn test_extract_empty_content() {
    // empty content is valid TOML without either manifest section, so it
    // falls through every structured format to the verbatim candidate
    let ev = extract("").unwrap();
    assert_eq!(ev.value, "");
    assert_eq!(ev.format, SourceFormat::PlainText);
}

#[test]
fn test_file_names() {
    assert_eq!(SourceFormat::CargoManifest.file_name(), "Cargo.toml");
    assert_eq!(SourceFormat::PackageManifest.file_name(), "package.json");
    assert_eq!(SourceFormat::PlainText.file_name(), "version.txt");
}
