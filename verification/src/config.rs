//! The configuration of an analysis, and the rules that it must meet.

use crate::text::texts;
use vstd::prelude::*;
use vstd::string::*;

verus! {

/// What to look for in a log.
#[derive(Debug, Clone)]
pub struct Config {
    /// Regular expression to extract timestamps from log lines
    pub timestamp_regex: String,
    /// Format string for parsing timestamps
    pub timestamp_format: String,
    /// Array of message patterns to search for in order
    pub message_patterns: Vec<String>,
    /// Whether this config is for auto-detection mode
    pub is_auto_detect: bool,
}

/// What a [`Config`] stands for.
pub struct ConfigView {
    pub timestamp_regex: Seq<char>,
    pub timestamp_format: Seq<char>,
    pub message_patterns: Seq<Seq<char>>,
    pub is_auto_detect: bool,
}

impl View for Config {
    type V = ConfigView;

    open spec fn view(&self) -> ConfigView {
        ConfigView {
            timestamp_regex: self.timestamp_regex@,
            timestamp_format: self.timestamp_format@,
            message_patterns: texts(self.message_patterns@),
            is_auto_detect: self.is_auto_detect,
        }
    }
}

/// Why a configuration is refused.
#[derive(Debug, Clone, Copy, PartialEq, Eq, Structural)]
pub enum ConfigError {
    /// An explicit configuration has an empty timestamp expression.
    EmptyTimestampRegex,
    /// An explicit configuration has an empty timestamp format.
    EmptyTimestampFormat,
    /// There are fewer than two message patterns.
    TooFewPatterns,
    /// Only one of timestamp expression and timestamp format was given.
    IncompleteTimestampRule,
    /// Neither a loaded configuration nor message patterns were given.
    MissingPatterns,
}

/// The text of an error.
pub open spec fn error_text(error: ConfigError) -> Seq<char> {
    match error {
        ConfigError::EmptyTimestampRegex => "timestamp_regex cannot be empty"@,
        ConfigError::EmptyTimestampFormat => "timestamp_format cannot be empty"@,
        ConfigError::TooFewPatterns => "Configuration must have at least 2 message patterns"@,
        ConfigError::IncompleteTimestampRule =>
            "When providing timestamp configuration, both --timestamp-regex and --timestamp-format are required"@,
        ConfigError::MissingPatterns =>
            "When no config file is provided, at least 2 --pattern arguments must be specified.\nTimestamp format will be auto-detected, or you can manually specify:\n--timestamp-regex and --timestamp-format"@,
    }
}

impl ConfigError {
    /// The error as a message for the user.
    pub fn message(&self) -> (text: String)
        ensures
            text@ == error_text(*self),
    {
        match self {
            ConfigError::EmptyTimestampRegex => String::from_str("timestamp_regex cannot be empty"),
            ConfigError::EmptyTimestampFormat => String::from_str(
                "timestamp_format cannot be empty",
            ),
            ConfigError::TooFewPatterns => String::from_str(
                "Configuration must have at least 2 message patterns",
            ),
            ConfigError::IncompleteTimestampRule => String::from_str(
                "When providing timestamp configuration, both --timestamp-regex and --timestamp-format are required",
            ),
            ConfigError::MissingPatterns => String::from_str(
                "When no config file is provided, at least 2 --pattern arguments must be specified.\nTimestamp format will be auto-detected, or you can manually specify:\n--timestamp-regex and --timestamp-format",
            ),
        }
    }
}

/// The first rule that `config` breaks, if it breaks one. An explicit
/// configuration needs a timestamp expression and a timestamp format; every
/// configuration needs two message patterns.
pub open spec fn violation(config: ConfigView) -> Option<ConfigError> {
    if !config.is_auto_detect && config.timestamp_regex.len() == 0 {
        Some(ConfigError::EmptyTimestampRegex)
    } else if !config.is_auto_detect && config.timestamp_format.len() == 0 {
        Some(ConfigError::EmptyTimestampFormat)
    } else if config.message_patterns.len() < 2 {
        Some(ConfigError::TooFewPatterns)
    } else {
        None
    }
}

/// `config`, where it breaks no rule.
pub open spec fn checked(config: ConfigView) -> Result<ConfigView, ConfigError> {
    match violation(config) {
        Some(error) => Err(error),
        None => Ok(config),
    }
}

/// The configuration that detects timestamps by itself and looks for
/// `message_patterns`.
pub open spec fn auto_detection(message_patterns: Seq<Seq<char>>) -> ConfigView {
    ConfigView {
        timestamp_regex: Seq::empty(),
        timestamp_format: Seq::empty(),
        message_patterns,
        is_auto_detect: true,
    }
}

/// `base` with the given values put over it. A timestamp expression or
/// format that is given makes the configuration explicit; patterns replace
/// those of `base` only where at least one is given.
pub open spec fn overridden(
    base: ConfigView,
    timestamp_regex: Option<Seq<char>>,
    timestamp_format: Option<Seq<char>>,
    message_patterns: Option<Seq<Seq<char>>>,
) -> ConfigView {
    ConfigView {
        timestamp_regex: match timestamp_regex {
            Some(regex) => regex,
            None => base.timestamp_regex,
        },
        timestamp_format: match timestamp_format {
            Some(format) => format,
            None => base.timestamp_format,
        },
        message_patterns: match message_patterns {
            Some(patterns) if patterns.len() > 0 => patterns,
            _ => base.message_patterns,
        },
        is_auto_detect: base.is_auto_detect && timestamp_regex is None && timestamp_format is None,
    }
}

/// The configuration that a loaded configuration and the values given beside
/// it make together.
///
/// Without a loaded configuration, patterns alone ask for automatic
/// detection; patterns with both timestamp values make an explicit
/// configuration; with only one timestamp value, or without patterns, there
/// is none.
pub open spec fn merged(
    loaded: Option<ConfigView>,
    timestamp_regex: Option<Seq<char>>,
    timestamp_format: Option<Seq<char>>,
    message_patterns: Option<Seq<Seq<char>>>,
) -> Result<ConfigView, ConfigError> {
    match loaded {
        Some(base) => checked(overridden(base, timestamp_regex, timestamp_format, message_patterns)),
        None => match message_patterns {
            None => Err(ConfigError::MissingPatterns),
            Some(patterns) => {
                if timestamp_regex is None && timestamp_format is None {
                    checked(auto_detection(patterns))
                } else if timestamp_regex is None || timestamp_format is None {
                    Err(ConfigError::IncompleteTimestampRule)
                } else {
                    checked(
                        overridden(
                            ConfigView {
                                timestamp_regex: Seq::empty(),
                                timestamp_format: Seq::empty(),
                                message_patterns: Seq::empty(),
                                is_auto_detect: false,
                            },
                            timestamp_regex,
                            timestamp_format,
                            message_patterns,
                        ),
                    )
                }
            },
        },
    }
}

/// The view of an optional string.
pub open spec fn optional_text(value: Option<String>) -> Option<Seq<char>> {
    match value {
        Some(text) => Some(text@),
        None => None,
    }
}

/// The view of an optional list of strings.
pub open spec fn optional_texts(value: Option<Vec<String>>) -> Option<Seq<Seq<char>>> {
    match value {
        Some(list) => Some(texts(list@)),
        None => None,
    }
}

/// The view of an optional configuration.
pub open spec fn optional_config(value: Option<Config>) -> Option<ConfigView> {
    match value {
        Some(config) => Some(config@),
        None => None,
    }
}

/// The view of a configuration or an error.
pub open spec fn outcome(result: Result<Config, ConfigError>) -> Result<ConfigView, ConfigError> {
    match result {
        Ok(config) => Ok(config@),
        Err(error) => Err(error),
    }
}

impl Config {
    /// Create a config for auto-detection mode
    pub fn for_auto_detection(message_patterns: Vec<String>) -> (result: Result<Self, ConfigError>)
        ensures
            outcome(result) == checked(auto_detection(texts(message_patterns@))),
    {
        let config = Config {
            timestamp_regex: String::new(),
            timestamp_format: String::new(),
            message_patterns,
            is_auto_detect: true,
        };
        // Only the message patterns are checked for auto-detection
        if config.message_patterns.len() < 2 {
            return Err(ConfigError::TooFewPatterns);
        }
        Ok(config)
    }

    /// Merge a loaded configuration with the values given beside it
    pub fn from_file_with_overrides(
        loaded: Option<Config>,
        timestamp_regex: Option<String>,
        timestamp_format: Option<String>,
        message_patterns: Option<Vec<String>>,
    ) -> (result: Result<Self, ConfigError>)
        ensures
            outcome(result) == merged(
                optional_config(loaded),
                optional_text(timestamp_regex),
                optional_text(timestamp_format),
                optional_texts(message_patterns),
            ),
    {
        // Start with the loaded configuration if there is one
        let mut config = match loaded {
            Some(config) => config,
            None => {
                // Auto-detection requires message patterns but no timestamp values
                if message_patterns.is_none() {
                    return Err(ConfigError::MissingPatterns);
                }
                if timestamp_regex.is_none() && timestamp_format.is_none() {
                    return Config::for_auto_detection(message_patterns.unwrap());
                }
                // Some timestamp values were given, but not all
                if timestamp_regex.is_none() || timestamp_format.is_none() {
                    return Err(ConfigError::IncompleteTimestampRule);
                }
                Config {
                    timestamp_regex: String::new(),
                    timestamp_format: String::new(),
                    message_patterns: Vec::new(),
                    is_auto_detect: false,
                }
            },
        };

        if let Some(regex) = timestamp_regex {
            config.timestamp_regex = regex;
            config.is_auto_detect = false;
        }
        if let Some(format) = timestamp_format {
            config.timestamp_format = format;
            config.is_auto_detect = false;
        }
        if let Some(patterns) = message_patterns {
            if patterns.len() > 0 {
                config.message_patterns = patterns;
            }
        }

        match config.validate() {
            Ok(()) => Ok(config),
            Err(error) => Err(error),
        }
    }

    /// Validate configuration
    pub fn validate(&self) -> (result: Result<(), ConfigError>)
        ensures
            match result {
                Ok(()) => violation(self@) is None,
                Err(error) => violation(self@) == Some(error),
            },
    {
        // Timestamp values are not needed for auto-detection mode
        if !self.is_auto_detect {
            if self.timestamp_regex.as_str().is_empty() {
                return Err(ConfigError::EmptyTimestampRegex);
            }
            if self.timestamp_format.as_str().is_empty() {
                return Err(ConfigError::EmptyTimestampFormat);
            }
        }
        if self.message_patterns.len() < 2 {
            return Err(ConfigError::TooFewPatterns);
        }
        Ok(())
    }
}

/// A configuration with fewer than two message patterns is refused.
pub proof fn lemma_single_pattern_refused(config: ConfigView)
    requires
        config.message_patterns.len() < 2,
    ensures
        checked(config) is Err,
{
}

/// Whatever is merged, a configuration that comes out breaks no rule: it has
/// at least two message patterns, and where it is explicit, a timestamp
/// expression and a timestamp format.
pub proof fn lemma_merged_is_valid(
    loaded: Option<ConfigView>,
    timestamp_regex: Option<Seq<char>>,
    timestamp_format: Option<Seq<char>>,
    message_patterns: Option<Seq<Seq<char>>>,
)
    ensures
        merged(loaded, timestamp_regex, timestamp_format, message_patterns) matches Ok(config) ==> {
            &&& violation(config) is None
            &&& config.message_patterns.len() >= 2
            &&& !config.is_auto_detect ==> config.timestamp_regex.len() > 0
                && config.timestamp_format.len() > 0
        },
{
}

} // verus!
