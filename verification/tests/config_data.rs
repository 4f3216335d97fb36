use ph::config::{Data, PathOpt, TomlScalar, TomlValue, USizeOpt};
use ph::error::ConfigError;
use ph::log::LogLevel;

#[test]
fn test_data_default_values() {
    let data = Data::default();
    assert_eq!(data.log_level(), LogLevel::Warning);
    assert_eq!(data.path(PathOpt::LogDir).as_str(), "/tmp/patch-hub/logs");
    assert_eq!(data.usize(USizeOpt::MaxAge), 0);
    assert_eq!(data.usize(USizeOpt::Timeout), 30);
}

#[test]
fn test_data_setters_and_getters() {
    let mut data = Data::default();

    // Test log level
    data.set_log_level(LogLevel::Info);
    assert_eq!(data.log_level(), LogLevel::Info);

    // Test path
    let new_path = String::from("/var/log");
    data.set_path(PathOpt::LogDir, new_path.clone());
    assert_eq!(data.path(PathOpt::LogDir), new_path);

    // Test max age
    data.set_usize(USizeOpt::MaxAge, 60);
    assert_eq!(data.usize(USizeOpt::MaxAge), 60);

    // Test timeout
    data.set_usize(USizeOpt::Timeout, 120);
    assert_eq!(data.usize(USizeOpt::Timeout), 120);
}

#[test]
fn test_data_serialization() {
    let mut data = Data::default();
    data.set_log_level(LogLevel::Error);
    data.set_path(PathOpt::LogDir, String::from("/custom/log"));
    data.set_usize(USizeOpt::MaxAge, 45);
    data.set_usize(USizeOpt::Timeout, 180);

    let toml = data.to_toml("config.toml").unwrap();
    let deserialized: Data = Data::from_toml("config.toml", &toml).unwrap();

    assert_eq!(data.log_level(), deserialized.log_level());
    assert_eq!(data.path(PathOpt::LogDir), deserialized.path(PathOpt::LogDir));
    assert_eq!(data.usize(USizeOpt::MaxAge), deserialized.usize(USizeOpt::MaxAge));
    assert_eq!(data.usize(USizeOpt::Timeout), deserialized.usize(USizeOpt::Timeout));
}

#[test]
fn config_setters_touch_one_option() {
    let mut data = Data::default();
    data.set_usize(USizeOpt::Timeout, 5);
    assert_eq!(data.usize(USizeOpt::MaxAge), 0);
    assert_eq!(data.log_level(), LogLevel::Warning);
    assert_eq!(data.path(PathOpt::LogDir).as_str(), "/tmp/patch-hub/logs");
    data.set_usize(USizeOpt::Timeout, 7);
    assert_eq!(data.usize(USizeOpt::Timeout), 7);
}

#[test]
fn config_from_values_holds_them() {
    let data = Data::from_values(String::from("/x"), LogLevel::Info, 3, 4);
    assert_eq!(data.path(PathOpt::LogDir).as_str(), "/x");
    assert_eq!(data.log_level(), LogLevel::Info);
    assert_eq!(data.usize(USizeOpt::MaxAge), 3);
    assert_eq!(data.usize(USizeOpt::Timeout), 4);
}

#[test]
fn config_toml_entries_in_key_order() {
    let data = Data::default();
    let entries = data.toml_entries().unwrap();
    let keys: Vec<&str> = entries.iter().map(|(k, _)| k.as_str()).collect();
    assert_eq!(keys, vec!["log_dir", "log_level", "max_age", "timeout"]);
    assert_eq!(entries[1].1, TomlValue::Str(String::from("Warning")));
    assert_eq!(entries[3].1, TomlValue::Int(30));
}

#[test]
fn config_text_names_the_level() {
    let data = Data::from_values(String::from("/l"), LogLevel::Error, 1, 2);
    let text = data.to_toml("config.toml").unwrap();
    assert!(text.contains("log_level = \"Error\""));
    assert!(text.contains("timeout = 2"));
}

#[test]
fn config_numbers_beyond_toml_integers_are_refused() {
    let data = Data::from_values(String::from("/l"), LogLevel::Error, usize::MAX, 2);
    assert!(data.toml_entries().is_none());
    match data.to_toml("/etc/ph.toml") {
        Err(ConfigError::InvalidValue { key, message }) => {
            assert!(key.is_none());
            assert!(message.starts_with("Failed to serialize configuration to TOML: /etc/ph.toml. Error: "));
        }
        other => panic!("unexpected: {:?}", other),
    }
}

#[test]
fn config_reads_a_valid_file() {
    let text = "log_dir = \"/a/b\"\nlog_level = \"Info\"\nmax_age = 9\ntimeout = 11\n";
    let data = Data::from_toml("cfg.toml", text).unwrap();
    assert_eq!(data.path(PathOpt::LogDir).as_str(), "/a/b");
    assert_eq!(data.log_level(), LogLevel::Info);
    assert_eq!(data.usize(USizeOpt::MaxAge), 9);
    assert_eq!(data.usize(USizeOpt::Timeout), 11);
}

#[test]
fn config_invalid_toml_is_a_parse_failure() {
    match Data::from_toml("bad.toml", "this is = = not toml") {
        Err(ConfigError::ParseFailed { message, .. }) => {
            assert_eq!(message, "Failed to parse TOML configuration file: bad.toml")
        }
        other => panic!("unexpected: {:?}", other),
    }
}

#[test]
fn config_missing_key_is_a_parse_failure() {
    let text = "log_dir = \"/a\"\nlog_level = \"Info\"\nmax_age = 1\n";
    assert!(matches!(Data::from_toml("m.toml", text), Err(ConfigError::ParseFailed { .. })));
}

#[test]
fn config_unknown_level_is_a_parse_failure() {
    let text = "log_dir = \"/a\"\nlog_level = \"info\"\nmax_age = 1\ntimeout = 2\n";
    assert!(matches!(Data::from_toml("m.toml", text), Err(ConfigError::ParseFailed { .. })));
}

#[test]
fn config_negative_number_is_a_parse_failure() {
    let text = "log_dir = \"/a\"\nlog_level = \"Info\"\nmax_age = -1\ntimeout = 2\n";
    assert!(matches!(Data::from_toml("m.toml", text), Err(ConfigError::ParseFailed { .. })));
}

#[test]
fn config_entries_decode_back() {
    let data = Data::from_values(String::from("/q"), LogLevel::Warning, 8, 9);
    let entries: Vec<(String, TomlScalar)> = data
        .toml_entries()
        .unwrap()
        .into_iter()
        .map(|(k, v)| match v {
            TomlValue::Str(s) => (k, TomlScalar::Str(s)),
            TomlValue::Int(i) => (k, TomlScalar::Int(i)),
        })
        .collect();
    let back = Data::from_toml_entries(&entries).unwrap();
    assert_eq!(back.path(PathOpt::LogDir).as_str(), "/q");
    assert_eq!(back.usize(USizeOpt::MaxAge), 8);
    let wrong = vec![(String::from("log_dir"), TomlScalar::Int(1))];
    assert!(Data::from_toml_entries(&wrong).is_none());
}

#[test]
fn config_wrong_value_type_is_a_parse_failure() {
    let text = "log_dir = \"/a\"\nlog_level = \"Info\"\nmax_age = 1\ntimeout = true\n";
    assert!(matches!(Data::from_toml("m.toml", text), Err(ConfigError::ParseFailed { .. })));
    let text = "log_dir = \"/a\"\nlog_level = \"Info\"\nmax_age = 1\ntimeout = 2\nextra = [1, 2]\n";
    assert_eq!(Data::from_toml("m.toml", text).unwrap().usize(USizeOpt::Timeout), 2);
}
