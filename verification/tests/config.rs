use log_time_analyzer::config::{Config, ConfigError};

fn texts(items: &[&str]) -> Vec<String> {
    items.iter().map(|i| i.to_string()).collect()
}

fn loaded() -> Config {
    Config {
        timestamp_regex: r"(\d+)".to_string(),
        timestamp_format: "%s".to_string(),
        message_patterns: texts(&["A", "B"]),
        is_auto_detect: false,
    }
}

#[test]
fn auto_detection_needs_two_patterns() {
    assert_eq!(Config::for_auto_detection(Vec::new()).unwrap_err(), ConfigError::TooFewPatterns);
    assert_eq!(
        Config::for_auto_detection(texts(&["only"])).unwrap_err(),
        ConfigError::TooFewPatterns
    );
    let config = Config::for_auto_detection(texts(&["one", "two"])).unwrap();
    assert!(config.is_auto_detect);
    assert_eq!(config.timestamp_regex, "");
    assert_eq!(config.timestamp_format, "");
    assert_eq!(config.message_patterns, texts(&["one", "two"]));
}

#[test]
fn validate_reports_the_first_broken_rule() {
    let mut config = loaded();
    assert_eq!(config.validate(), Ok(()));
    config.message_patterns = texts(&["A"]);
    assert_eq!(config.validate(), Err(ConfigError::TooFewPatterns));
    config.timestamp_format = String::new();
    assert_eq!(config.validate(), Err(ConfigError::EmptyTimestampFormat));
    config.timestamp_regex = String::new();
    assert_eq!(config.validate(), Err(ConfigError::EmptyTimestampRegex));
    config.is_auto_detect = true;
    assert_eq!(config.validate(), Err(ConfigError::TooFewPatterns));
    config.message_patterns = texts(&["A", "B", "C"]);
    assert_eq!(config.validate(), Ok(()));
}

#[test]
fn nothing_given_is_an_error() {
    let result = Config::from_file_with_overrides(None, None, None, None);
    assert_eq!(result.unwrap_err(), ConfigError::MissingPatterns);
    let result =
        Config::from_file_with_overrides(None, Some("(x)".to_string()), Some("%s".to_string()), None);
    assert_eq!(result.unwrap_err(), ConfigError::MissingPatterns);
}

#[test]
fn patterns_alone_ask_for_auto_detection() {
    let config =
        Config::from_file_with_overrides(None, None, None, Some(texts(&["A", "B"]))).unwrap();
    assert!(config.is_auto_detect);
    assert_eq!(config.message_patterns, texts(&["A", "B"]));
    let result = Config::from_file_with_overrides(None, None, None, Some(texts(&["A"])));
    assert_eq!(result.unwrap_err(), ConfigError::TooFewPatterns);
}

#[test]
fn half_a_timestamp_rule_is_an_error() {
    let result = Config::from_file_with_overrides(
        None,
        Some("(x)".to_string()),
        None,
        Some(texts(&["A", "B"])),
    );
    assert_eq!(result.unwrap_err(), ConfigError::IncompleteTimestampRule);
    let result = Config::from_file_with_overrides(
        None,
        None,
        Some("%s".to_string()),
        Some(texts(&["A", "B"])),
    );
    assert_eq!(result.unwrap_err(), ConfigError::IncompleteTimestampRule);
}

#[test]
fn full_timestamp_rule_makes_an_explicit_configuration() {
    let config = Config::from_file_with_overrides(
        None,
        Some("(x)".to_string()),
        Some("%s".to_string()),
        Some(texts(&["A", "B"])),
    )
    .unwrap();
    assert!(!config.is_auto_detect);
    assert_eq!(config.timestamp_regex, "(x)");
    assert_eq!(config.timestamp_format, "%s");
    assert_eq!(config.message_patterns, texts(&["A", "B"]));
}

#[test]
fn explicit_configuration_is_checked_after_merging() {
    let give = |regex: &str, format: &str, patterns: &[&str]| {
        Config::from_file_with_overrides(
            None,
            Some(regex.to_string()),
            Some(format.to_string()),
            Some(texts(patterns)),
        )
    };
    assert_eq!(give("", "%s", &["A", "B"]).unwrap_err(), ConfigError::EmptyTimestampRegex);
    assert_eq!(give("(x)", "", &["A", "B"]).unwrap_err(), ConfigError::EmptyTimestampFormat);
    assert_eq!(give("", "", &["A"]).unwrap_err(), ConfigError::EmptyTimestampRegex);
    assert_eq!(give("(x)", "%s", &["A"]).unwrap_err(), ConfigError::TooFewPatterns);
    assert_eq!(give("(x)", "%s", &[]).unwrap_err(), ConfigError::TooFewPatterns);
}

#[test]
fn loaded_configuration_is_kept_where_nothing_is_given() {
    let config = Config::from_file_with_overrides(Some(loaded()), None, None, None).unwrap();
    assert_eq!(config.timestamp_regex, r"(\d+)");
    assert_eq!(config.timestamp_format, "%s");
    assert_eq!(config.message_patterns, texts(&["A", "B"]));
    assert!(!config.is_auto_detect);
}

#[test]
fn given_values_go_over_the_loaded_ones() {
    let config = Config::from_file_with_overrides(
        Some(loaded()),
        Some("(y)".to_string()),
        None,
        Some(texts(&["C", "D", "E"])),
    )
    .unwrap();
    assert_eq!(config.timestamp_regex, "(y)");
    assert_eq!(config.timestamp_format, "%s");
    assert_eq!(config.message_patterns, texts(&["C", "D", "E"]));
    let config =
        Config::from_file_with_overrides(Some(loaded()), None, Some("%F".to_string()), None).unwrap();
    assert_eq!(config.timestamp_regex, r"(\d+)");
    assert_eq!(config.timestamp_format, "%F");
}

#[test]
fn no_patterns_given_leave_the_loaded_ones() {
    let config =
        Config::from_file_with_overrides(Some(loaded()), None, None, Some(Vec::new())).unwrap();
    assert_eq!(config.message_patterns, texts(&["A", "B"]));
}

#[test]
fn one_given_pattern_is_refused() {
    let result = Config::from_file_with_overrides(Some(loaded()), None, None, Some(texts(&["Z"])));
    assert_eq!(result.unwrap_err(), ConfigError::TooFewPatterns);
}

#[test]
fn given_timestamp_value_ends_auto_detection() {
    let mut base = loaded();
    base.is_auto_detect = true;
    base.timestamp_format = String::new();
    let kept = Config::from_file_with_overrides(Some(base.clone()), None, None, None).unwrap();
    assert!(kept.is_auto_detect);
    let result =
        Config::from_file_with_overrides(Some(base), Some("(z)".to_string()), None, None);
    assert_eq!(result.unwrap_err(), ConfigError::EmptyTimestampFormat);
}

#[test]
fn error_messages() {
    assert_eq!(ConfigError::EmptyTimestampRegex.message(), "timestamp_regex cannot be empty");
    assert_eq!(ConfigError::EmptyTimestampFormat.message(), "timestamp_format cannot be empty");
    assert_eq!(
        ConfigError::TooFewPatterns.message(),
        "Configuration must have at least 2 message patterns"
    );
    assert_eq!(
        ConfigError::IncompleteTimestampRule.message(),
        "When providing timestamp configuration, both --timestamp-regex and --timestamp-format are required"
    );
    assert_eq!(
        ConfigError::MissingPatterns.message(),
        "When no config file is provided, at least 2 --pattern arguments must be specified.\nTimestamp format will be auto-detected, or you can manually specify:\n--timestamp-regex and --timestamp-format"
    );
}
