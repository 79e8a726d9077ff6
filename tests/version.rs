use latest_json::{node_version, pick_version, resolve_version, version_from_cargo_toml, GenerateError};

#[test]
fn node_manifest_version_is_used() {
    let r = resolve_version(Some("{\"version\": \"1.2.3\"}"), None);
    assert_eq!(r, Ok("1.2.3".to_string()));
}

#[test]
fn node_manifest_wins_over_cargo() {
    let r = resolve_version(Some("{\"name\": \"a\", \"version\": \"2.0.0\"}"), Some("version = \"9.9.9\""));
    assert_eq!(r, Ok("2.0.0".to_string()));
}

#[test]
fn cargo_manifest_first_version_line() {
    let cargo = "[package]\nname = \"app\"\nversion = \"0.4.0\"\nedition = \"2021\"\n\n[dependencies.serde]\nversion = \"1.0\"\n";
    assert_eq!(resolve_version(None, Some(cargo)), Ok("0.4.0".to_string()));
}

#[test]
fn node_manifest_without_version_falls_back() {
    let r = resolve_version(Some("{\"version\": 3}"), Some("version=\"0.1.0\"\r\n"));
    assert_eq!(r, Ok("0.1.0".to_string()));
}

#[test]
fn malformed_node_manifest_is_an_error() {
    let r = resolve_version(Some("{\"version\": "), Some("version = \"0.1.0\""));
    assert_eq!(r, Err(GenerateError::MalformedConfig));
}

#[test]
fn no_version_anywhere() {
    assert_eq!(resolve_version(None, None), Err(GenerateError::VersionNotFound));
    assert_eq!(
        resolve_version(Some("{}"), Some("[package]\nname = \"x\"\n")),
        Err(GenerateError::VersionNotFound)
    );
}

#[test]
fn cargo_line_parsing_details() {
    assert_eq!(version_from_cargo_toml("version =   \"1.2\"  "), Some("1.2".to_string()));
    assert_eq!(version_from_cargo_toml("version = \"\"\nversion = \"3\""), Some("3".to_string()));
    assert_eq!(version_from_cargo_toml("  version = \"1\""), Some("1".to_string()));
    assert_eq!(version_from_cargo_toml("[package]\n\tversion = \"2.0\"\n"), Some("2.0".to_string()));
    assert_eq!(version_from_cargo_toml("version \"1\""), None);
    assert_eq!(version_from_cargo_toml(""), None);
    assert_eq!(version_from_cargo_toml("versions = 7"), Some("7".to_string()));
}

#[test]
fn pick_version_prefers_node() {
    assert_eq!(pick_version(Some("5".to_string()), Some("version = \"6\"")), Ok("5".to_string()));
    assert_eq!(pick_version(None, Some("version = \"6\"")), Ok("6".to_string()));
    assert_eq!(pick_version(None, None), Err(GenerateError::VersionNotFound));
}

#[test]
fn node_version_field() {
    assert_eq!(node_version("{\"version\": \"1.2.3\"}"), Ok(Some("1.2.3".to_string())));
    assert_eq!(node_version("[1, 2]"), Ok(None));
    assert_eq!(node_version("{"), Err(GenerateError::MalformedConfig));
}
