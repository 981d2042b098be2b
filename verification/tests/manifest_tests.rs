use xcode_build::manifest::{xcode_build_section, ManifestError, TomlValue};

#[test]
fn unreadable_manifest_means_default() {
    assert_eq!(xcode_build_section(None).unwrap(), None);
}

#[test]
fn invalid_toml_is_an_error() {
    let r = xcode_build_section(Some("[package\nname = "));
    assert!(matches!(r, Err(ManifestError::InvalidToml(ref m)) if !m.is_empty()));
}

#[test]
fn manifest_without_section_means_default() {
    let text = "[package]\nname = \"demo\"\nversion = \"0.1.0\"\n";
    assert_eq!(xcode_build_section(Some(text)).unwrap(), None);
    let text = "[package]\nname = \"demo\"\n[package.metadata.other]\nx = 1\n";
    assert_eq!(xcode_build_section(Some(text)).unwrap(), None);
}

#[test]
fn package_that_is_no_table_means_default() {
    assert_eq!(xcode_build_section(Some("package = 3\n")).unwrap(), None);
}

#[test]
fn section_is_found() {
    let text = "[package]\nname = \"demo\"\n\n[package.metadata.xcode-build-rs.ios]\nfeatures = [\"metal\"]\ndefault_features = false\n";
    let section = xcode_build_section(Some(text)).unwrap().unwrap();
    let expected = TomlValue::Table(vec![(
        "ios".to_string(),
        TomlValue::Table(vec![
            ("default_features".to_string(), TomlValue::Boolean(false)),
            ("features".to_string(), TomlValue::Array(vec![TomlValue::String("metal".to_string())])),
        ]),
    )]);
    assert_eq!(section, expected);
}

#[test]
fn scalar_values_are_kept() {
    let text = "[package.metadata.xcode-build-rs]\nn = 7\nx = 1.5\nd = 1979-05-27\n";
    let section = xcode_build_section(Some(text)).unwrap().unwrap();
    let expected = TomlValue::Table(vec![
        ("d".to_string(), TomlValue::Datetime("1979-05-27".to_string())),
        ("n".to_string(), TomlValue::Integer(7)),
        ("x".to_string(), TomlValue::Float("1.5".to_string())),
    ]);
    assert_eq!(section, expected);
}

#[test]
fn take_moves_out_an_entry() {
    let table = || {
        TomlValue::Table(vec![
            ("a".to_string(), TomlValue::Integer(1)),
            ("b".to_string(), TomlValue::Boolean(true)),
        ])
    };
    assert_eq!(table().take("b"), Some(TomlValue::Boolean(true)));
    assert_eq!(table().take("c"), None);
    assert_eq!(TomlValue::Integer(3).take("a"), None);
}
