use toolbox::config::{AppConfig, AppLanguage, ConfigError, ConfigLoadPlan, ConfigLoadResult, ConfigSource, TomlEntry, TomlValue};
use toolbox::config::config_from_toml_entries;

#[test]
fn locale_strings_of_languages() {
    assert_eq!(AppLanguage::ZhCn.as_locale_str(), "zh-CN");
    assert_eq!(AppLanguage::EnUs.as_locale_str(), "en-US");
}

#[test]
fn default_language_is_english() {
    assert_eq!(AppLanguage::default(), AppLanguage::EnUs);
    assert_eq!(AppConfig::default(), AppConfig { language: AppLanguage::EnUs });
}

#[test]
fn locale_strings_read_back() {
    assert_eq!(AppLanguage::from_locale_str("zh-CN"), Some(AppLanguage::ZhCn));
    assert_eq!(AppLanguage::from_locale_str("en-US"), Some(AppLanguage::EnUs));
    assert_eq!(AppLanguage::from_locale_str("en-us"), None);
    assert_eq!(AppLanguage::from_locale_str(""), None);
    for language in [AppLanguage::ZhCn, AppLanguage::EnUs] {
        assert_eq!(AppLanguage::from_locale_str(language.as_locale_str()), Some(language));
    }
}

#[test]
fn parses_valid_config() {
    assert_eq!(
        AppConfig::parse_config("LANGUAGE = \"zh-CN\"\n"),
        Ok(AppConfig { language: AppLanguage::ZhCn })
    );
    assert_eq!(
        AppConfig::parse_config("# comment\nLANGUAGE = 'en-US'"),
        Ok(AppConfig { language: AppLanguage::EnUs })
    );
}

#[test]
fn rejects_unknown_field() {
    assert_eq!(
        AppConfig::parse_config("LANGUAGE = \"en-US\"\nTHEME = \"dark\"\n"),
        Err(ConfigError::UnknownField("THEME".to_string()))
    );
    assert_eq!(
        AppConfig::parse_config("language = \"en-US\"\n"),
        Err(ConfigError::UnknownField("language".to_string()))
    );
}

#[test]
fn rejects_missing_language() {
    assert_eq!(AppConfig::parse_config(""), Err(ConfigError::MissingLanguage));
}

#[test]
fn rejects_language_of_wrong_type() {
    assert_eq!(AppConfig::parse_config("LANGUAGE = 5\n"), Err(ConfigError::LanguageWrongType));
    assert_eq!(AppConfig::parse_config("LANGUAGE = [\"en-US\"]\n"), Err(ConfigError::LanguageWrongType));
    assert_eq!(AppConfig::parse_config("LANGUAGE = true\n"), Err(ConfigError::LanguageWrongType));
}

#[test]
fn accepts_language_as_one_entry_table() {
    let english = Ok(AppConfig { language: AppLanguage::EnUs });
    let chinese = Ok(AppConfig { language: AppLanguage::ZhCn });
    assert_eq!(AppConfig::parse_config("LANGUAGE = { en-US = {} }\n"), english);
    assert_eq!(AppConfig::parse_config("LANGUAGE = { \"zh-CN\" = [] }\n"), chinese);
    assert_eq!(AppConfig::parse_config("[LANGUAGE.zh-CN]\n"), chinese);
}

#[test]
fn rejects_malformed_language_table() {
    let malformed = Err(ConfigError::LanguageTableMalformed);
    assert_eq!(AppConfig::parse_config("LANGUAGE = {}\n"), malformed);
    assert_eq!(AppConfig::parse_config("LANGUAGE = { en-US = {}, zh-CN = {} }\n"), malformed);
    assert_eq!(AppConfig::parse_config("LANGUAGE = { en-US = [1] }\n"), malformed);
    assert_eq!(AppConfig::parse_config("LANGUAGE = { en-US = { a = 1 } }\n"), malformed);
    assert_eq!(AppConfig::parse_config("LANGUAGE = { en-US = 1 }\n"), malformed);
    assert_eq!(AppConfig::parse_config("LANGUAGE = { en-US = \"x\" }\n"), malformed);
    assert_eq!(
        AppConfig::parse_config("LANGUAGE = { fr-FR = {} }\n"),
        Err(ConfigError::UnknownLanguage("fr-FR".to_string()))
    );
}

#[test]
fn rejects_unknown_language() {
    assert_eq!(
        AppConfig::parse_config("LANGUAGE = \"fr-FR\"\n"),
        Err(ConfigError::UnknownLanguage("fr-FR".to_string()))
    );
}

#[test]
fn rejects_invalid_toml() {
    match AppConfig::parse_config("LANGUAGE = \n") {
        Err(ConfigError::Syntax(message)) => assert!(!message.is_empty()),
        other => panic!("unexpected {:?}", other),
    }
    assert!(matches!(
        AppConfig::parse_config("LANGUAGE = \"en-US\"\nLANGUAGE = \"zh-CN\"\n"),
        Err(ConfigError::Syntax(_))
    ));
}

#[test]
fn written_config_reads_back() {
    for language in [AppLanguage::ZhCn, AppLanguage::EnUs] {
        let config = AppConfig { language };
        let text = config.to_toml_string().unwrap();
        assert_eq!(AppConfig::parse_config(&text), Ok(config));
    }
    assert_eq!(
        AppConfig { language: AppLanguage::EnUs }.to_toml_string().unwrap(),
        "LANGUAGE = \"en-US\"\n"
    );
}

#[test]
fn entries_are_checked_in_order() {
    let entries = vec![
        TomlEntry { key: "LANGUAGE".to_string(), value: TomlValue::Text("zh-CN".to_string()) },
        TomlEntry { key: "OTHER".to_string(), value: TomlValue::Other },
    ];
    assert_eq!(config_from_toml_entries(&entries), Err(ConfigError::UnknownField("OTHER".to_string())));
    let entries = vec![TomlEntry { key: "LANGUAGE".to_string(), value: TomlValue::Text("zh-CN".to_string()) }];
    assert_eq!(config_from_toml_entries(&entries), Ok(AppConfig { language: AppLanguage::ZhCn }));
    let entries = vec![TomlEntry {
        key: "LANGUAGE".to_string(),
        value: TomlValue::Table(vec![("en-US".to_string(), Some(0))]),
    }];
    assert_eq!(config_from_toml_entries(&entries), Ok(AppConfig { language: AppLanguage::EnUs }));
}

#[test]
fn load_outcome_of_each_source() {
    assert_eq!(
        AppConfig::load_config_content(ConfigSource::NoConfigDirectory),
        ConfigLoadResult::NotFound(AppConfig::default())
    );
    assert_eq!(
        AppConfig::load_config_content(ConfigSource::FileMissing),
        ConfigLoadResult::NotFound(AppConfig::default())
    );
    assert_eq!(
        AppConfig::load_config_content(ConfigSource::ReadFailed("denied".to_string())),
        ConfigLoadResult::ParseFailed(ConfigError::ReadFailed("denied".to_string()))
    );
    assert_eq!(
        AppConfig::load_config_content(ConfigSource::Contents("LANGUAGE = \"zh-CN\"".to_string())),
        ConfigLoadResult::Loaded(AppConfig { language: AppLanguage::ZhCn })
    );
    assert_eq!(
        AppConfig::load_config_content(ConfigSource::Contents("LANGUAGE = \"xx\"".to_string())),
        ConfigLoadResult::ParseFailed(ConfigError::UnknownLanguage("xx".to_string()))
    );
}

#[test]
fn load_plan_of_each_outcome() {
    let chinese = AppConfig { language: AppLanguage::ZhCn };
    assert_eq!(
        AppConfig::load(ConfigLoadResult::Loaded(chinese)),
        ConfigLoadPlan { config: chinese, error_to_report: None, save_config: false }
    );
    assert_eq!(
        AppConfig::load(ConfigLoadResult::NotFound(chinese)),
        ConfigLoadPlan { config: chinese, error_to_report: None, save_config: true }
    );
    assert_eq!(
        AppConfig::load(ConfigLoadResult::ParseFailed(ConfigError::MissingLanguage)),
        ConfigLoadPlan {
            config: AppConfig::default(),
            error_to_report: Some(ConfigError::MissingLanguage),
            save_config: true
        }
    );
}

#[test]
fn language_change_replaces_language() {
    let config = AppConfig { language: AppLanguage::EnUs };
    assert_eq!(config.with_language(AppLanguage::ZhCn), AppConfig { language: AppLanguage::ZhCn });
}

#[test]
fn error_messages_name_the_problem() {
    assert_eq!(ConfigError::UnknownField("THEME".to_string()).message(), "unknown field `THEME`");
    assert_eq!(ConfigError::UnknownLanguage("fr-FR".to_string()).message(), "unknown language `fr-FR`");
    assert_eq!(ConfigError::LanguageWrongType.message(), "LANGUAGE must be a string or a table");
    assert_eq!(
        ConfigError::LanguageTableMalformed.message(),
        "LANGUAGE table must hold one language with an empty value"
    );
    assert_eq!(ConfigError::MissingLanguage.message(), "missing field `LANGUAGE`");
    assert_eq!(ConfigError::Syntax("expected `=`".to_string()).message(), "expected `=`");
    assert_eq!(ConfigError::ReadFailed("denied".to_string()).message(), "denied");
    assert_eq!(ConfigError::SerializeFailed("bad".to_string()).message(), "bad");
}
