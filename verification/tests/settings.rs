use atlas_core::db::SqliteConnection;
use atlas_core::ids::WorkspaceId;
use atlas_core::settings::{ConfigLayer, LayeredSettingsProvider, SettingEntry, SettingsScope, SqliteSettingsProvider};

fn entry(key: &str, value: &str) -> SettingEntry {
    SettingEntry {
        key: key.to_string(),
        value: value.to_string(),
        value_type: "string".to_string(),
        scope: SettingsScope::Global,
        workspace_id: None,
        updated_at: "1970-01-01T00:00:00Z".to_string(),
    }
}

fn sqlite_provider() -> SqliteSettingsProvider {
    SqliteSettingsProvider::new(SqliteConnection::open(":memory:"))
}

#[test]
fn missing_key_resolves_to_none() {
    let provider = LayeredSettingsProvider::new();
    assert!(provider.get_global("does.not.exist").unwrap().is_none());
}

#[test]
fn set_via_settings_provider_trait_routes_by_scope() {
    let mut provider = LayeredSettingsProvider::new();
    provider.set(entry("ollama.host", "from-trait")).unwrap();
    assert_eq!(provider.get_global("ollama.host").unwrap().unwrap().value, "from-trait");
}

#[test]
fn falls_back_to_default_when_no_override_exists() {
    let mut provider = LayeredSettingsProvider::new();
    provider.set_in_layer(ConfigLayer::Default, entry("ollama.host", "localhost")).unwrap();
    assert_eq!(provider.get_global("ollama.host").unwrap().unwrap().value, "localhost");
}

#[test]
fn runtime_layer_overrides_everything() {
    let mut provider = LayeredSettingsProvider::new();
    provider.set_in_layer(ConfigLayer::Default, entry("ollama.host", "localhost")).unwrap();
    provider.set_in_layer(ConfigLayer::User, entry("ollama.host", "192.168.1.10")).unwrap();
    assert_eq!(provider.get_global("ollama.host").unwrap().unwrap().value, "192.168.1.10");
    provider.set_in_layer(ConfigLayer::Runtime, entry("ollama.host", "test-double")).unwrap();
    assert_eq!(provider.get_global("ollama.host").unwrap().unwrap().value, "test-double");
}

#[test]
fn workspace_scoped_lookup_prefers_workspace_override() {
    let mut provider = LayeredSettingsProvider::new();
    provider.set_in_layer(ConfigLayer::Default, entry("indexing.ocr_enabled", "true")).unwrap();
    let mut workspace_entry = entry("indexing.ocr_enabled", "false");
    workspace_entry.scope = SettingsScope::Workspace;
    workspace_entry.workspace_id = Some(WorkspaceId(7));
    provider.set_in_layer(ConfigLayer::Workspace, workspace_entry).unwrap();
    assert_eq!(
        provider.get_for_workspace("indexing.ocr_enabled", WorkspaceId(7)).unwrap().unwrap().value,
        "false"
    );
    assert_eq!(
        provider.get_for_workspace("indexing.ocr_enabled", WorkspaceId(8)).unwrap().unwrap().value,
        "true"
    );
}

#[test]
fn set_in_layer_rejects_invalid_entry() {
    let mut provider = LayeredSettingsProvider::new();
    let bad = entry("", "value");
    let err = provider.set_in_layer(ConfigLayer::Default, bad).unwrap_err();
    assert_eq!(err.message, "settings.key must not be empty");
    assert!(provider.get_global("").unwrap().is_none());
}

#[test]
fn get_global_returns_none_for_an_unset_key() {
    assert!(sqlite_provider().get_global("ollama.host").unwrap().is_none());
}

#[test]
fn set_then_get_global_round_trips() {
    let provider = sqlite_provider();
    provider.set(entry("ollama.host", "localhost")).unwrap();
    assert_eq!(provider.get_global("ollama.host").unwrap().unwrap().value, "localhost");
}

#[test]
fn set_twice_updates_in_place_rather_than_duplicating() {
    let provider = sqlite_provider();
    provider.set(entry("ollama.host", "localhost")).unwrap();
    provider.set(entry("ollama.host", "192.168.1.10")).unwrap();
    assert_eq!(provider.get_global("ollama.host").unwrap().unwrap().value, "192.168.1.10");
}

#[test]
fn workspace_scoped_value_overrides_global_for_that_workspace() {
    let provider = sqlite_provider();
    provider.set(entry("ollama.host", "localhost")).unwrap();
    provider
        .set(SettingEntry {
            scope: SettingsScope::Workspace,
            workspace_id: Some(WorkspaceId(1)),
            value: "workspace-override".to_string(),
            ..entry("ollama.host", "unused")
        })
        .unwrap();
    assert_eq!(
        provider.get_for_workspace("ollama.host", WorkspaceId(1)).unwrap().unwrap().value,
        "workspace-override"
    );
    assert_eq!(provider.get_for_workspace("ollama.host", WorkspaceId(2)).unwrap().unwrap().value, "localhost");
}

use atlas_core::settings::validate_setting_entry;
use atlas_core::settings::{ollama_endpoint, parse_port};

fn base_entry() -> SettingEntry {
    entry("ollama.host", "localhost")
}

#[test]
fn user_layer_overrides_default_layer() {
    let mut provider = LayeredSettingsProvider::new();
    provider.set_in_layer(ConfigLayer::Default, entry("ollama.host", "localhost")).unwrap();
    provider.set_in_layer(ConfigLayer::User, entry("ollama.host", "192.168.1.10")).unwrap();
    assert_eq!(provider.get_global("ollama.host").unwrap().unwrap().value, "192.168.1.10");
}

#[test]
fn valid_global_entry_passes() {
    assert!(validate_setting_entry(&base_entry()).is_ok());
}

#[test]
fn empty_key_is_rejected() {
    let mut e = base_entry();
    e.key = String::new();
    assert!(validate_setting_entry(&e).is_err());
}

#[test]
fn unknown_value_type_is_rejected() {
    let mut e = base_entry();
    e.value_type = "float".to_string();
    assert!(validate_setting_entry(&e).is_err());
}

#[test]
fn workspace_scope_without_workspace_id_is_rejected() {
    let mut e = base_entry();
    e.scope = SettingsScope::Workspace;
    assert!(validate_setting_entry(&e).is_err());
}

#[test]
fn global_scope_with_workspace_id_is_rejected() {
    let mut e = base_entry();
    e.workspace_id = Some(WorkspaceId(1));
    assert!(validate_setting_entry(&e).is_err());
}

#[test]
fn workspace_scope_with_workspace_id_passes() {
    let mut e = base_entry();
    e.scope = SettingsScope::Workspace;
    e.workspace_id = Some(WorkspaceId(1));
    assert!(validate_setting_entry(&e).is_ok());
}

#[test]
fn the_model_server_address_falls_back_to_its_defaults() {
    assert_eq!(parse_port("8080"), Some(8080));
    assert_eq!(parse_port("+80"), Some(80));
    assert_eq!(parse_port("65535"), Some(65535));
    assert_eq!(parse_port("65536"), None);
    assert_eq!(parse_port(""), None);
    assert_eq!(parse_port("+"), None);
    assert_eq!(parse_port("80a"), None);
    let (host, port) = ollama_endpoint(Ok(None), Ok(None));
    assert_eq!(host, "localhost");
    assert_eq!(port, 11434);
    let (host, port) = ollama_endpoint(Ok(Some(entry("ollama.host", "gpu-box"))), Ok(Some(entry("ollama.port", "nope"))));
    assert_eq!(host, "gpu-box");
    assert_eq!(port, 11434);
    let (_, port) = ollama_endpoint(Ok(None), Ok(Some(entry("ollama.port", "9000"))));
    assert_eq!(port, 9000);
}

use atlas_core::settings::{embedding_dimensions, parse_count};

#[test]
fn a_count_reads_like_usize_from_str() {
    assert_eq!(parse_count("768"), Some(768));
    assert_eq!(parse_count("+12"), Some(12));
    assert_eq!(parse_count(""), None);
    assert_eq!(parse_count("-1"), None);
    assert_eq!(parse_count("12a"), None);
    assert_eq!(parse_count("99999999999999999999999"), None);
}

#[test]
fn embedding_dimensions_fall_back_to_the_default() {
    assert_eq!(embedding_dimensions(Ok(Some(entry("embedding.dimensions", "768")))), 768);
    assert_eq!(embedding_dimensions(Ok(Some(entry("embedding.dimensions", "many")))), 1024);
    assert_eq!(embedding_dimensions(Ok(None)), 1024);
    assert_eq!(
        embedding_dimensions(Err(atlas_core::error::AppError::storage("locked".to_string()))),
        1024
    );
}
