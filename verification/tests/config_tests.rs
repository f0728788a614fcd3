use backend_slot::config::{load_languages_from_document, ConfigDocument, ConfigError, RawEntry};

fn doc(schema_version: Option<u32>, languages: Vec<RawEntry>) -> ConfigDocument {
    ConfigDocument { schema_version, languages }
}

#[test]
fn load_well_formed_entries_in_order() {
    let d = doc(
        Some(1),
        vec![
            RawEntry::Bare("Rust".to_string()),
            RawEntry::Full { name: "  Go  ".to_string(), color: None },
            RawEntry::Full { name: "Zig".to_string(), color: Some("  GREEN ".to_string()) },
        ],
    );
    let list = load_languages_from_document(&d, "conf.toml").unwrap();
    assert_eq!(list.len(), 3);
    assert_eq!(list[0].name, "Rust");
    assert_eq!(list[0].color, "red");
    assert_eq!(list[1].name, "Go");
    assert_eq!(list[1].color, "cyan");
    assert_eq!(list[2].name, "Zig");
    assert_eq!(list[2].color, "green");
}

#[test]
fn load_rejects_unsupported_schema_version() {
    let d = doc(Some(2), vec![RawEntry::Bare("Rust".to_string())]);
    let err = load_languages_from_document(&d, "conf.toml").unwrap_err();
    assert_eq!(
        err,
        ConfigError::UnsupportedSchemaVersion { path: "conf.toml".to_string(), found: 2 }
    );

    let d0 = doc(Some(0), vec![RawEntry::Bare("Rust".to_string())]);
    let err0 = load_languages_from_document(&d0, "conf.toml").unwrap_err();
    assert_eq!(
        err0,
        ConfigError::UnsupportedSchemaVersion { path: "conf.toml".to_string(), found: 0 }
    );
}

#[test]
fn load_accepts_absent_schema_version_as_one() {
    let d = doc(None, vec![RawEntry::Bare("Rust".to_string())]);
    assert!(load_languages_from_document(&d, "conf.toml").is_ok());
}

#[test]
fn load_rejects_empty_languages() {
    let d = doc(None, vec![]);
    let err = load_languages_from_document(&d, "conf.toml").unwrap_err();
    assert_eq!(err, ConfigError::EmptyLanguages { path: "conf.toml".to_string() });
}

#[test]
fn load_rejects_whitespace_only_name_at_its_index() {
    let d = doc(
        None,
        vec![RawEntry::Bare("Rust".to_string()), RawEntry::Bare("  \t ".to_string())],
    );
    let err = load_languages_from_document(&d, "conf.toml").unwrap_err();
    assert_eq!(err, ConfigError::EmptyLanguageName { path: "conf.toml".to_string(), index: 1 });
}

#[test]
fn load_rejects_unrecognized_color_with_token_and_index() {
    let d = doc(
        None,
        vec![
            RawEntry::Bare("Go".to_string()),
            RawEntry::Full { name: "Rust".to_string(), color: Some("teal".to_string()) },
        ],
    );
    let err = load_languages_from_document(&d, "conf.toml").unwrap_err();
    assert_eq!(
        err,
        ConfigError::InvalidColor {
            path: "conf.toml".to_string(),
            index: 1,
            color: "teal".to_string(),
        }
    );
}

#[test]
fn load_resolves_default_colors_from_registry() {
    let d = doc(
        None,
        vec![
            RawEntry::Bare("Rust".to_string()),
            RawEntry::Bare("Go".to_string()),
            RawEntry::Bare("Zig".to_string()),
        ],
    );
    let list = load_languages_from_document(&d, "conf.toml").unwrap();
    assert_eq!(list[0].color, "red");
    assert_eq!(list[1].color, "cyan");
    assert_eq!(list[2].color, "white");
}

#[test]
fn load_single_bare_haskell_defaults_to_white() {
    let d = doc(None, vec![RawEntry::Bare("Haskell".to_string())]);
    let list = load_languages_from_document(&d, "conf.toml").unwrap();
    assert_eq!(list.len(), 1);
    assert_eq!(list[0].name, "Haskell");
    assert_eq!(list[0].color, "white");
}

#[test]
fn load_reports_uppercase_color_lowercased() {
    let d = doc(
        None,
        vec![RawEntry::Full { name: "Rust".to_string(), color: Some("TEAL".to_string()) }],
    );
    let err = load_languages_from_document(&d, "conf.toml").unwrap_err();
    assert_eq!(
        err,
        ConfigError::InvalidColor {
            path: "conf.toml".to_string(),
            index: 0,
            color: "teal".to_string(),
        }
    );
}

#[test]
fn load_accepts_uppercase_supported_color() {
    let d = doc(
        None,
        vec![RawEntry::Full { name: "Rust".to_string(), color: Some(" MAGENTA ".to_string()) }],
    );
    let list = load_languages_from_document(&d, "conf.toml").unwrap();
    assert_eq!(list[0].color, "magenta");
}

#[test]
fn load_fails_fast_on_schema_version_before_entries() {
    let d = doc(Some(3), vec![RawEntry::Bare("   ".to_string())]);
    let err = load_languages_from_document(&d, "conf.toml").unwrap_err();
    assert_eq!(
        err,
        ConfigError::UnsupportedSchemaVersion { path: "conf.toml".to_string(), found: 3 }
    );
}

#[test]
fn load_reports_first_failing_entry() {
    let d = doc(
        None,
        vec![
            RawEntry::Full { name: "Rust".to_string(), color: Some("teal".to_string()) },
            RawEntry::Bare("   ".to_string()),
        ],
    );
    let err = load_languages_from_document(&d, "conf.toml").unwrap_err();
    assert_eq!(
        err,
        ConfigError::InvalidColor {
            path: "conf.toml".to_string(),
            index: 0,
            color: "teal".to_string(),
        }
    );
}
