use jdnotes::config::{
    config_json, decode_config, migrate_config, versioned_base_url, AIProvider, AISettings,
    AppConfig,
};
use jdnotes::store::{
    change_database_location, get_ai_settings, get_database_path, get_database_url, load_config,
    recovered_database_path, save_ai_settings, set_database_path, FileRead, RelocateStep,
    RelocationFacts,
};

fn text(s: &str) -> FileRead {
    FileRead::Text(s.to_string())
}

fn custom_config() -> AppConfig {
    AppConfig {
        database_path: Some("/data/notes/jdnotes.db".to_string()),
        ai_settings: AISettings {
            provider: AIProvider::Anthropic,
            base_url: "https://api.example.com/v1".to_string(),
            api_key: "sk-example".to_string(),
            model: "model-large".to_string(),
        },
    }
}

#[test]
fn missing_file_gives_defaults_and_writes_nothing() {
    let plan = load_config(&FileRead::Missing, &FileRead::Missing);
    assert_eq!(plan.config, AppConfig::default());
    assert_eq!(plan.config.database_path, None);
    assert_eq!(plan.config.ai_settings.provider, AIProvider::OpenAICompatible);
    assert_eq!(plan.config.ai_settings.base_url, "https://api.deepseek.com/v1");
    assert_eq!(plan.config.ai_settings.api_key, "");
    assert_eq!(plan.config.ai_settings.model, "deepseek-chat");
    assert!(!plan.backup_first);
    assert!(plan.rewrite.is_none());
    let with_backup = load_config(&FileRead::Missing, &text("{\"database_path\": \"/b.db\"}"));
    assert_eq!(with_backup.config, AppConfig::default());
    assert!(with_backup.rewrite.is_none());
}

#[test]
fn default_document_text() {
    let expected = "{\n  \"database_path\": null,\n  \"ai_settings\": {\n    \"provider\": \"OpenAICompatible\",\n    \"base_url\": \"https://api.deepseek.com/v1\",\n    \"api_key\": \"\",\n    \"model\": \"deepseek-chat\"\n  }\n}";
    assert_eq!(config_json(&AppConfig::default()), expected);
}

#[test]
fn current_document_round_trips() {
    let fresh = custom_config();
    let written = config_json(&fresh);
    let plan = load_config(&text(&written), &FileRead::Missing);
    assert_eq!(plan.config, fresh);
    assert!(plan.rewrite.is_none());
    assert!(!plan.backup_first);
    assert_eq!(config_json(&plan.config), config_json(&custom_config()));
    assert_eq!(config_json(&plan.config), written);
}

#[test]
fn current_document_in_other_key_order_is_taken_as_is() {
    let doc = "{\"ai_settings\": {\"model\": \"m\", \"api_key\": \"k\", \"base_url\": \"https://h\", \"provider\": \"Google\"}, \"database_path\": \"/p.db\", \"extra\": 5}";
    let plan = load_config(&text(doc), &FileRead::Missing);
    assert!(plan.rewrite.is_none());
    assert_eq!(plan.config.database_path, Some("/p.db".to_string()));
    assert_eq!(plan.config.ai_settings.provider, AIProvider::Google);
    assert_eq!(plan.config.ai_settings.base_url, "https://h");
    assert_eq!(plan.config.ai_settings.api_key, "k");
    assert_eq!(plan.config.ai_settings.model, "m");
}

#[test]
fn round_trip_keeps_escaped_text() {
    let mut c = custom_config();
    c.database_path = Some("C:\\Users\\a \"b\"\n\u{4e2d}.db".to_string());
    c.ai_settings.api_key = "tab\there".to_string();
    let written = config_json(&c);
    assert!(written.contains("\\\"b\\\""));
    assert!(written.contains("tab\\there"));
    assert_eq!(decode_config(&written), Some(c));
}

#[test]
fn every_provider_round_trips() {
    for p in [AIProvider::OpenAICompatible, AIProvider::Anthropic, AIProvider::Google, AIProvider::Ollama] {
        let mut c = AppConfig::default();
        c.ai_settings.provider = p;
        assert_eq!(decode_config(&config_json(&c)), Some(c.clone()));
        assert_eq!(AIProvider::from_label(p.label()), Some(p));
    }
}

#[test]
fn legacy_document_is_migrated() {
    let doc = "{\"database_path\": \"/x/y.db\", \"ai_settings\": {\"base_url\": \"https://h\", \"model\": \"m\"}}";
    let plan = load_config(&text(doc), &FileRead::Missing);
    assert_eq!(plan.config.database_path, Some("/x/y.db".to_string()));
    assert_eq!(plan.config.ai_settings.base_url, "https://h/v1");
    assert_eq!(plan.config.ai_settings.provider, AIProvider::OpenAICompatible);
    assert_eq!(plan.config.ai_settings.model, "m");
    assert_eq!(plan.config.ai_settings.api_key, "");
    assert!(!plan.backup_first);
    let rewritten = plan.rewrite.clone().expect("a migrated document is written back");
    assert_eq!(decode_config(&rewritten), Some(plan.config.clone()));
    let again = load_config(&text(&rewritten), &FileRead::Missing);
    assert!(again.rewrite.is_none());
    assert_eq!(again.config, plan.config);
}

#[test]
fn legacy_provider_names() {
    let doc = "{\"ai_settings\": {\"provider\": \"Ollama\", \"base_url\": \"http://localhost:11434/v1\", \"api_key\": \"k\"}}";
    let c = migrate_config(doc);
    assert_eq!(c.ai_settings.provider, AIProvider::Ollama);
    assert_eq!(c.ai_settings.base_url, "http://localhost:11434/v1");
    assert_eq!(c.ai_settings.api_key, "k");
    assert_eq!(c.ai_settings.model, "deepseek-chat");
    let unknown = migrate_config("{\"ai_settings\": {\"provider\": \"Mistral\"}}");
    assert_eq!(unknown.ai_settings.provider, AIProvider::OpenAICompatible);
    assert_eq!(AIProvider::from_legacy_label("Anthropic"), AIProvider::Anthropic);
    assert_eq!(AIProvider::from_legacy_label("anthropic"), AIProvider::OpenAICompatible);
    assert_eq!(AIProvider::from_label("Mistral"), None);
}

#[test]
fn unknown_provider_sends_document_to_migration() {
    let doc = "{\"database_path\": \"/a.db\", \"ai_settings\": {\"provider\": \"Mistral\", \"base_url\": \"https://m/\", \"api_key\": \"k\", \"model\": \"x\"}}";
    assert_eq!(decode_config(doc), None);
    let plan = load_config(&text(doc), &FileRead::Missing);
    assert!(plan.rewrite.is_some());
    assert_eq!(plan.config.ai_settings.provider, AIProvider::OpenAICompatible);
    assert_eq!(plan.config.ai_settings.base_url, "https://m/v1");
    assert_eq!(plan.config.database_path, Some("/a.db".to_string()));
}

#[test]
fn base_url_version_segment() {
    assert_eq!(versioned_base_url("https://h"), "https://h/v1");
    assert_eq!(versioned_base_url("https://h/"), "https://h/v1");
    assert_eq!(versioned_base_url("https://h///"), "https://h/v1");
    assert_eq!(versioned_base_url("https://h/v1"), "https://h/v1");
    assert_eq!(versioned_base_url("https://open.bigmodel.cn/api/paas/v4"), "https://open.bigmodel.cn/api/paas/v4");
    assert_eq!(versioned_base_url("https://h/v4/x"), "https://h/v4/x");
    assert_eq!(versioned_base_url(""), "/v1");
}

#[test]
fn null_database_path_is_no_override() {
    let current = "{\"database_path\": null, \"ai_settings\": {\"provider\": \"OpenAICompatible\", \"base_url\": \"u\", \"api_key\": \"\", \"model\": \"m\"}}";
    let plan = load_config(&text(current), &FileRead::Missing);
    assert_eq!(plan.config.database_path, None);
    assert!(plan.rewrite.is_none());
    let legacy = "{\"database_path\": null, \"ai_settings\": {\"base_url\": \"u\"}}";
    let plan = load_config(&text(legacy), &FileRead::Missing);
    assert_eq!(plan.config.database_path, None);
    assert!(plan.rewrite.is_some());
}

#[test]
fn empty_database_path_in_legacy_document_is_no_override() {
    let c = migrate_config("{\"database_path\": \"\", \"other\": 1}");
    assert_eq!(c.database_path, None);
    assert_eq!(c.ai_settings, AISettings::default());
}

#[test]
fn valid_json_that_is_no_object_gives_migrated_defaults() {
    let plan = load_config(&text("[1, 2, 3]"), &FileRead::Missing);
    assert_eq!(plan.config, AppConfig::default());
    assert!(!plan.backup_first);
    assert!(plan.rewrite.is_some());
}

#[test]
fn corrupt_file_is_backed_up_and_reset() {
    let plan = load_config(&text("this is {not json"), &FileRead::Missing);
    assert!(plan.backup_first);
    assert_eq!(plan.config, AppConfig::default());
    let rewritten = plan.rewrite.clone().expect("a corrupt file is replaced");
    assert_eq!(rewritten, config_json(&AppConfig::default()));
    let second = load_config(&text(&rewritten), &text("this is {not json"));
    assert_eq!(second.config, AppConfig::default());
    assert!(second.rewrite.is_none());
    assert!(!second.backup_first);
}

#[test]
fn corrupt_file_recovers_path_from_backup() {
    let backup = text("{\"database_path\": \"/safe/jdnotes.db\", \"ai_settings\": 3}");
    let plan = load_config(&text("\u{0}\u{1}garbage"), &backup);
    assert!(!plan.backup_first);
    assert_eq!(plan.config.database_path, Some("/safe/jdnotes.db".to_string()));
    assert_eq!(plan.config.ai_settings, AISettings::default());
    assert_eq!(decode_config(&plan.rewrite.unwrap()), Some(plan.config));
    let unreadable = load_config(&FileRead::Unreadable, &FileRead::Unreadable);
    assert!(!unreadable.backup_first);
    assert_eq!(unreadable.config, AppConfig::default());
    assert!(unreadable.rewrite.is_some());
    assert_eq!(recovered_database_path(&text("not json")), None);
    assert_eq!(recovered_database_path(&text("{\"database_path\": 7}")), None);
    assert_eq!(recovered_database_path(&FileRead::Missing), None);
}

#[test]
fn override_falls_back_only_while_directory_is_unusable() {
    let c = custom_config();
    let default_path = "/home/u/.local/share/app/jdnotes.db";
    assert_eq!(get_database_path(&c, false, default_path), default_path);
    assert_eq!(c.database_path, Some("/data/notes/jdnotes.db".to_string()));
    assert_eq!(get_database_path(&c, true, default_path), "/data/notes/jdnotes.db");
    assert_eq!(get_database_path(&AppConfig::default(), true, default_path), default_path);
    assert_eq!(get_database_url("/a/jdnotes.db"), "sqlite:/a/jdnotes.db");
}

fn facts(config: bool, dir: bool, db: bool, target: bool) -> RelocationFacts {
    RelocationFacts {
        config_exists: config,
        target_dir_exists: dir,
        database_exists: db,
        target_exists: target,
    }
}

#[test]
fn relocation_without_database_copies_nothing() {
    let steps = change_database_location(facts(true, false, false, false));
    assert_eq!(steps, vec![RelocateStep::BackupConfig, RelocateStep::CreateTargetDir]);
    let mut c = custom_config();
    set_database_path(&mut c, "/new/jdnotes.db".to_string());
    assert_eq!(c.database_path, Some("/new/jdnotes.db".to_string()));
    assert_eq!(c.ai_settings, custom_config().ai_settings);
}

#[test]
fn relocation_backs_up_existing_target() {
    let steps = change_database_location(facts(true, true, true, true));
    assert_eq!(
        steps,
        vec![RelocateStep::BackupConfig, RelocateStep::BackupTarget, RelocateStep::CopyDatabase]
    );
    let steps = change_database_location(facts(false, true, true, false));
    assert_eq!(steps, vec![RelocateStep::CopyDatabase]);
    assert!(!RelocateStep::CopyDatabase.failure_message().is_empty());
}

#[test]
fn ai_settings_read_and_replaced() {
    let mut c = custom_config();
    assert_eq!(get_ai_settings(&c), custom_config().ai_settings);
    save_ai_settings(&mut c, AISettings::default());
    assert_eq!(c.ai_settings, AISettings::default());
    assert_eq!(c.database_path, custom_config().database_path);
}
