//! Reading matches out of log lines.
//!
//! A line yields a match where it carries a timestamp and one of the message
//! patterns matches it. The timestamp is read either by the configured
//! expression and format, or by the first built-in format that can read one
//! from the line.

use crate::config::{Config, ConfigView};
use crate::pattern::{first_group, regex_compiles, regex_first_group, regex_is_match, regex_source};
use crate::search::{first_true, lemma_first_true_at, lemma_first_true_least, lemma_first_true_none};
use crate::text::texts;
use crate::time::{timestamp_parse, Moment, Timestamp};
use crate::timestamp_formats::{builtin_formats, get_builtin_formats, TimestampFormat};
use regex::Regex;
use vstd::prelude::*;
use vstd::string::*;

verus! {

/// A line that carried a timestamp and matched a message pattern.
#[derive(Debug, Clone)]
pub struct LogMatch {
    /// The text of the pattern that matched.
    pub pattern: String,
    /// The timestamp read from the line.
    pub timestamp: Timestamp,
}

/// What a [`LogMatch`] stands for.
pub struct LogMatchView {
    pub pattern: Seq<char>,
    pub timestamp: Moment,
}

impl View for LogMatch {
    type V = LogMatchView;

    open spec fn view(&self) -> LogMatchView {
        LogMatchView { pattern: self.pattern@, timestamp: self.timestamp@ }
    }
}

/// The views of a sequence of matches.
pub open spec fn match_views(matches: Seq<LogMatch>) -> Seq<LogMatchView> {
    Seq::new(matches.len(), |i: int| matches[i]@)
}

/// Why a parser could not be built, or why reading a log was given up.
#[derive(Debug, Clone, PartialEq, Eq)]
pub enum ParseError {
    /// The configured timestamp expression does not compile.
    InvalidTimestampRegex { pattern: String },
    /// The expression of a built-in format does not compile.
    InvalidBuiltinRegex { name: String },
    /// A message pattern does not compile.
    InvalidMessagePattern { pattern: String },
    /// The configured timestamp expression captured a text that the
    /// configured format cannot read.
    TimestampParse { text: String },
}

/// What a [`ParseError`] stands for.
pub enum ParseErrorView {
    InvalidTimestampRegex { pattern: Seq<char> },
    InvalidBuiltinRegex { name: Seq<char> },
    InvalidMessagePattern { pattern: Seq<char> },
    TimestampParse { text: Seq<char> },
}

impl View for ParseError {
    type V = ParseErrorView;

    open spec fn view(&self) -> ParseErrorView {
        match self {
            ParseError::InvalidTimestampRegex { pattern } => ParseErrorView::InvalidTimestampRegex {
                pattern: pattern@,
            },
            ParseError::InvalidBuiltinRegex { name } => ParseErrorView::InvalidBuiltinRegex {
                name: name@,
            },
            ParseError::InvalidMessagePattern { pattern } => ParseErrorView::InvalidMessagePattern {
                pattern: pattern@,
            },
            ParseError::TimestampParse { text } => ParseErrorView::TimestampParse { text: text@ },
        }
    }
}

/// The text of an error.
pub open spec fn error_text(error: ParseErrorView) -> Seq<char> {
    match error {
        ParseErrorView::InvalidTimestampRegex { pattern } => "Invalid timestamp regex"@,
        ParseErrorView::InvalidBuiltinRegex { name } =>
            "Failed to compile built-in regex for format: "@ + name,
        ParseErrorView::InvalidMessagePattern { pattern } => "Invalid message pattern regex: "@
            + pattern,
        ParseErrorView::TimestampParse { text } => "Failed to parse timestamp: "@ + text,
    }
}

impl ParseError {
    /// The error as a message for the user.
    pub fn message(&self) -> (text: String)
        ensures
            text@ == error_text(self@),
    {
        match self {
            ParseError::InvalidTimestampRegex { pattern } => String::from_str(
                "Invalid timestamp regex",
            ),
            ParseError::InvalidBuiltinRegex { name } => String::from_str(
                "Failed to compile built-in regex for format: ",
            ).concat(name.as_str()),
            ParseError::InvalidMessagePattern { pattern } => String::from_str(
                "Invalid message pattern regex: ",
            ).concat(pattern.as_str()),
            ParseError::TimestampParse { text } => String::from_str(
                "Failed to parse timestamp: ",
            ).concat(text.as_str()),
        }
    }
}

/// How the timestamp of a line is found.
pub enum TimestampRule {
    /// By the first built-in format that reads one.
    Detect,
    /// By the text that `regex` captures, read under `format`.
    Explicit { regex: Seq<char>, format: Seq<char> },
}

/// What a [`LogParser`] stands for: the rule for timestamps and the message
/// patterns, in the order of the configuration.
pub struct Rules {
    pub timestamps: TimestampRule,
    pub patterns: Seq<Seq<char>>,
}

/// For each pattern, whether it does not compile.
pub open spec fn invalid_flags(patterns: Seq<Seq<char>>) -> Seq<bool> {
    Seq::new(patterns.len(), |i: int| !regex_compiles(patterns[i]))
}

/// For each format, whether its expression does not compile.
pub open spec fn invalid_format_flags(formats: Seq<TimestampFormat>) -> Seq<bool> {
    Seq::new(formats.len(), |i: int| !regex_compiles(formats[i].regex@))
}

/// The rule for timestamps that `config` asks for, or the error of the first
/// expression in it that does not compile.
pub open spec fn timestamp_rule_of(config: ConfigView) -> Result<TimestampRule, ParseErrorView> {
    if config.is_auto_detect {
        match first_true(invalid_format_flags(builtin_formats())) {
            Some(i) => Err(ParseErrorView::InvalidBuiltinRegex { name: builtin_formats()[i].name@ }),
            None => Ok(TimestampRule::Detect),
        }
    } else if regex_compiles(config.timestamp_regex) {
        Ok(
            TimestampRule::Explicit {
                regex: config.timestamp_regex,
                format: config.timestamp_format,
            },
        )
    } else {
        Err(ParseErrorView::InvalidTimestampRegex { pattern: config.timestamp_regex })
    }
}

/// The rules that `config` asks for. The expressions for timestamps are
/// compiled first, then the message patterns in their order; the first one
/// that does not compile gives the error.
pub open spec fn rules_of(config: ConfigView) -> Result<Rules, ParseErrorView> {
    match timestamp_rule_of(config) {
        Err(error) => Err(error),
        Ok(timestamps) => match first_true(invalid_flags(config.message_patterns)) {
            Some(i) => Err(
                ParseErrorView::InvalidMessagePattern { pattern: config.message_patterns[i] },
            ),
            None => Ok(Rules { timestamps, patterns: config.message_patterns }),
        },
    }
}

/// The timestamp that `format` reads from `line`: what its expression
/// captures, read under its format string.
pub open spec fn detected_by(format: TimestampFormat, line: Seq<char>) -> Option<Moment> {
    match regex_first_group(format.regex@, line) {
        Some(text) => timestamp_parse(text, format.format@),
        None => None,
    }
}

/// For each format, whether it reads a timestamp from `line`.
pub open spec fn detection_flags(formats: Seq<TimestampFormat>, line: Seq<char>) -> Seq<bool> {
    Seq::new(formats.len(), |i: int| detected_by(formats[i], line) is Some)
}

/// The timestamp that the first of `formats` to read one reads from `line`.
pub open spec fn detected(formats: Seq<TimestampFormat>, line: Seq<char>) -> Option<Moment> {
    match first_true(detection_flags(formats, line)) {
        Some(i) => detected_by(formats[i], line),
        None => None,
    }
}

/// The timestamp of `line` under `rule`. Under an explicit rule a line that
/// the expression captures nothing from has none, and a captured text that
/// the format cannot read is an error.
pub open spec fn line_timestamp(rule: TimestampRule, line: Seq<char>) -> Result<
    Option<Moment>,
    ParseErrorView,
> {
    match rule {
        TimestampRule::Detect => Ok(detected(builtin_formats(), line)),
        TimestampRule::Explicit { regex, format } => match regex_first_group(regex, line) {
            None => Ok(None),
            Some(text) => match timestamp_parse(text, format) {
                Some(moment) => Ok(Some(moment)),
                None => Err(ParseErrorView::TimestampParse { text }),
            },
        },
    }
}

/// Whether `rule` is explicit and its expression matches nowhere in `line`.
pub open spec fn passes_by(rule: TimestampRule, line: Seq<char>) -> bool {
    rule matches TimestampRule::Explicit { regex, .. } && !regex_is_match(regex, line)
}

/// For each pattern, whether it matches `line`.
pub open spec fn match_flags(patterns: Seq<Seq<char>>, line: Seq<char>) -> Seq<bool> {
    Seq::new(patterns.len(), |i: int| regex_is_match(patterns[i], line))
}

/// The index of the first pattern that matches `line`.
pub open spec fn first_matching(patterns: Seq<Seq<char>>, line: Seq<char>) -> Option<int> {
    first_true(match_flags(patterns, line))
}

/// What `line` yields under `rules`: a match where it has a timestamp and a
/// pattern matches it, made of that timestamp and the first such pattern.
/// A line without a timestamp is not held against the patterns.
pub open spec fn classify(rules: Rules, line: Seq<char>) -> Result<
    Option<LogMatchView>,
    ParseErrorView,
> {
    match line_timestamp(rules.timestamps, line) {
        Err(error) => Err(error),
        Ok(None) => Ok(None),
        Ok(Some(timestamp)) => match first_matching(rules.patterns, line) {
            Some(i) => Ok(Some(LogMatchView { pattern: rules.patterns[i], timestamp })),
            None => Ok(None),
        },
    }
}

/// What `lines` yield under `rules`: the matches of the lines in the order of
/// the lines, or the error of the first line that has one.
pub open spec fn extract(rules: Rules, lines: Seq<Seq<char>>) -> Result<
    Seq<LogMatchView>,
    ParseErrorView,
>
    decreases lines.len(),
{
    if lines.len() == 0 {
        Ok(Seq::empty())
    } else {
        match extract(rules, lines.drop_last()) {
            Err(error) => Err(error),
            Ok(found) => match classify(rules, lines.last()) {
                Err(error) => Err(error),
                Ok(None) => Ok(found),
                Ok(Some(m)) => Ok(found.push(m)),
            },
        }
    }
}

/// A message pattern with its compiled expression.
struct CompiledPattern {
    source: String,
    regex: Regex,
}

/// A built-in format with its compiled expression.
struct CompiledFormat {
    regex: Regex,
    format: TimestampFormat,
}

/// Reads matches out of log lines under the rules of one configuration.
pub struct LogParser {
    timestamp_regex: Option<Regex>,
    timestamp_format: Option<String>,
    pattern_regexes: Vec<CompiledPattern>,
    builtin_formats: Vec<CompiledFormat>,
    is_auto_detect: bool,
}

impl View for LogParser {
    type V = Rules;

    closed spec fn view(&self) -> Rules {
        Rules {
            timestamps: if self.is_auto_detect {
                TimestampRule::Detect
            } else {
                TimestampRule::Explicit {
                    regex: regex_source(self.timestamp_regex->0),
                    format: self.timestamp_format->0@,
                }
            },
            patterns: Seq::new(
                self.pattern_regexes@.len(),
                |i: int| self.pattern_regexes@[i].source@,
            ),
        }
    }
}

impl LogParser {
    #[verifier::type_invariant]
    spec fn well_formed(self) -> bool {
        &&& forall|i: int|
            0 <= i < self.pattern_regexes@.len() ==> regex_source(
                (#[trigger] self.pattern_regexes@[i]).regex,
            ) == self.pattern_regexes@[i].source@
        &&& self.is_auto_detect ==> {
            &&& self.builtin_formats@.len() == builtin_formats().len()
            &&& forall|i: int|
                0 <= i < self.builtin_formats@.len() ==> {
                    &&& (#[trigger] self.builtin_formats@[i]).format == builtin_formats()[i]
                    &&& regex_source(self.builtin_formats@[i].regex) == builtin_formats()[i].regex@
                }
        }
        &&& !self.is_auto_detect ==> self.timestamp_regex is Some && self.timestamp_format is Some
    }

    /// Compiles the expressions of `config`.
    pub fn new(config: &Config) -> (result: Result<Self, ParseError>)
        ensures
            match result {
                Ok(parser) => rules_of(config@) == Ok::<Rules, ParseErrorView>(parser@),
                Err(error) => rules_of(config@) == Err::<Rules, ParseErrorView>(error@),
            },
    {
        let mut timestamp_regex: Option<Regex> = None;
        let mut timestamp_format: Option<String> = None;
        let mut compiled_formats: Vec<CompiledFormat> = Vec::new();
        if config.is_auto_detect {
            // Prepare all built-in formats for auto-detection
            let formats = get_builtin_formats();
            let mut i: usize = 0;
            while i < formats.len()
                invariant
                    config.is_auto_detect,
                    i <= formats.len(),
                    formats@ == builtin_formats(),
                    compiled_formats@.len() == i,
                    forall|k: int| 0 <= k < i ==> !invalid_format_flags(builtin_formats())[k],
                    forall|k: int|
                        0 <= k < i ==> {
                            &&& (#[trigger] compiled_formats@[k]).format == builtin_formats()[k]
                            &&& regex_source(compiled_formats@[k].regex)
                                == builtin_formats()[k].regex@
                        },
                decreases formats.len() - i,
            {
                let format = formats[i];
                match Regex::new(format.regex) {
                    Ok(regex) => {
                        compiled_formats.push(CompiledFormat { regex, format });
                    },
                    Err(_) => {
                        proof {
                            lemma_first_true_at(invalid_format_flags(builtin_formats()), i as int);
                        }
                        return Err(
                            ParseError::InvalidBuiltinRegex { name: String::from_str(format.name) },
                        );
                    },
                }
                i += 1;
            }
            proof {
                lemma_first_true_none(invalid_format_flags(builtin_formats()));
            }
        } else {
            match Regex::new(config.timestamp_regex.as_str()) {
                Ok(regex) => {
                    timestamp_regex = Some(regex);
                    timestamp_format = Some(config.timestamp_format.clone());
                },
                Err(_) => {
                    return Err(
                        ParseError::InvalidTimestampRegex {
                            pattern: config.timestamp_regex.clone(),
                        },
                    );
                },
            }
        }

        let mut pattern_regexes: Vec<CompiledPattern> = Vec::new();
        let mut idx: usize = 0;
        while idx < config.message_patterns.len()
            invariant
                timestamp_rule_of(config@) is Ok,
                idx <= config.message_patterns.len(),
                pattern_regexes@.len() == idx,
                forall|k: int| 0 <= k < idx ==> !invalid_flags(config@.message_patterns)[k],
                forall|k: int|
                    0 <= k < idx ==> {
                        &&& (#[trigger] pattern_regexes@[k]).source@ == config@.message_patterns[k]
                        &&& regex_source(pattern_regexes@[k].regex) == pattern_regexes@[k].source@
                    },
            decreases config.message_patterns.len() - idx,
        {
            let pattern = &config.message_patterns[idx];
            match Regex::new(pattern.as_str()) {
                Ok(regex) => {
                    pattern_regexes.push(CompiledPattern { source: pattern.clone(), regex });
                },
                Err(_) => {
                    proof {
                        lemma_first_true_at(invalid_flags(config@.message_patterns), idx as int);
                    }
                    return Err(ParseError::InvalidMessagePattern { pattern: pattern.clone() });
                },
            }
            idx += 1;
        }
        proof {
            lemma_first_true_none(invalid_flags(config@.message_patterns));
        }

        let parser = LogParser {
            timestamp_regex,
            timestamp_format,
            pattern_regexes,
            builtin_formats: compiled_formats,
            is_auto_detect: config.is_auto_detect,
        };
        assert(parser@.patterns =~= config@.message_patterns);
        Ok(parser)
    }

    /// Parse log lines and return all matches in order
    pub fn parse_reader(&self, lines: &Vec<String>) -> (result: Result<Vec<LogMatch>, ParseError>)
        ensures
            match result {
                Ok(matches) => extract(self@, texts(lines@)) == Ok::<
                    Seq<LogMatchView>,
                    ParseErrorView,
                >(match_views(matches@)),
                Err(error) => extract(self@, texts(lines@)) == Err::<
                    Seq<LogMatchView>,
                    ParseErrorView,
                >(error@),
            },
    {
        let mut matches: Vec<LogMatch> = Vec::new();
        let mut i: usize = 0;
        assert(match_views(matches@) =~= Seq::<LogMatchView>::empty());
        while i < lines.len()
            invariant
                i <= lines.len(),
                extract(self@, texts(lines@).take(i as int)) == Ok::<
                    Seq<LogMatchView>,
                    ParseErrorView,
                >(match_views(matches@)),
            decreases lines.len() - i,
        {
            let ghost found = match_views(matches@);
            assert(texts(lines@).take(i + 1).drop_last() =~= texts(lines@).take(i as int));
            match self.parse_line(lines[i].as_str()) {
                Ok(Some(log_match)) => {
                    matches.push(log_match);
                    assert(match_views(matches@) =~= found.push(log_match@));
                },
                Ok(None) => {},
                Err(error) => {
                    proof {
                        lemma_extract_fails_on(self@, texts(lines@), i as int);
                    }
                    return Err(error);
                },
            }
            i += 1;
        }
        assert(texts(lines@).take(i as int) =~= texts(lines@));
        Ok(matches)
    }

    /// Parse a single log line and return a match if found
    pub fn parse_line(&self, line: &str) -> (result: Result<Option<LogMatch>, ParseError>)
        ensures
            match result {
                Ok(Some(found)) => classify(self@, line@) == Ok::<
                    Option<LogMatchView>,
                    ParseErrorView,
                >(Some(found@)),
                Ok(None) => classify(self@, line@) == Ok::<Option<LogMatchView>, ParseErrorView>(
                    None,
                ),
                Err(error) => classify(self@, line@) == Err::<Option<LogMatchView>, ParseErrorView>(
                    error@,
                ),
            },
            passes_by(self@.timestamps, line@) ==> result matches Ok(None),
    {
        // First, extract the timestamp
        let timestamp = match self.extract_timestamp(line) {
            Ok(Some(timestamp)) => timestamp,
            Ok(None) => {
                return Ok(None);
            },
            Err(error) => {
                return Err(error);
            },
        };
        proof {
            use_type_invariant(self);
        }
        // Check each pattern to see if it matches
        let mut i: usize = 0;
        while i < self.pattern_regexes.len()
            invariant
                line_timestamp(self@.timestamps, line@) == Ok::<Option<Moment>, ParseErrorView>(
                    Some(timestamp@),
                ),
                !passes_by(self@.timestamps, line@),
                i <= self.pattern_regexes@.len(),
                self.pattern_regexes@.len() == self@.patterns.len(),
                forall|k: int|
                    0 <= k < self.pattern_regexes@.len() ==> regex_source(
                        (#[trigger] self.pattern_regexes@[k]).regex,
                    ) == self@.patterns[k] && self.pattern_regexes@[k].source@ == self@.patterns[k],
                forall|k: int| 0 <= k < i ==> !match_flags(self@.patterns, line@)[k],
            decreases self.pattern_regexes@.len() - i,
        {
            let compiled = &self.pattern_regexes[i];
            if compiled.regex.is_match(line) {
                proof {
                    lemma_first_true_at(match_flags(self@.patterns, line@), i as int);
                }
                return Ok(Some(LogMatch { pattern: compiled.source.clone(), timestamp }));
            }
            i += 1;
        }
        proof {
            lemma_first_true_none(match_flags(self@.patterns, line@));
        }
        Ok(None)
    }

    /// Extract timestamp from a log line
    fn extract_timestamp(&self, line: &str) -> (result: Result<Option<Timestamp>, ParseError>)
        ensures
            match result {
                Ok(Some(timestamp)) => line_timestamp(self@.timestamps, line@) == Ok::<
                    Option<Moment>,
                    ParseErrorView,
                >(Some(timestamp@)),
                Ok(None) => line_timestamp(self@.timestamps, line@) == Ok::<
                    Option<Moment>,
                    ParseErrorView,
                >(None),
                Err(error) => line_timestamp(self@.timestamps, line@) == Err::<
                    Option<Moment>,
                    ParseErrorView,
                >(error@),
            },
            passes_by(self@.timestamps, line@) ==> result matches Ok(None),
    {
        proof {
            use_type_invariant(self);
        }
        if self.is_auto_detect {
            // Try each built-in format until one works
            let mut i: usize = 0;
            while i < self.builtin_formats.len()
                invariant
                    self.is_auto_detect,
                    i <= self.builtin_formats@.len(),
                    self.builtin_formats@.len() == builtin_formats().len(),
                    forall|k: int|
                        0 <= k < self.builtin_formats@.len() ==> {
                            &&& (#[trigger] self.builtin_formats@[k]).format == builtin_formats()[k]
                            &&& regex_source(self.builtin_formats@[k].regex)
                                == builtin_formats()[k].regex@
                        },
                    forall|k: int| 0 <= k < i ==> !detection_flags(builtin_formats(), line@)[k],
                decreases self.builtin_formats@.len() - i,
            {
                let entry = &self.builtin_formats[i];
                if let Some(text) = first_group(&entry.regex, line) {
                    // Try to parse with this format
                    if let Some(timestamp) = Timestamp::parse_from_str(
                        text.as_str(),
                        entry.format.format,
                    ) {
                        proof {
                            lemma_first_true_at(
                                detection_flags(builtin_formats(), line@),
                                i as int,
                            );
                        }
                        return Ok(Some(timestamp));
                    }
                }
                i += 1;
            }
            proof {
                lemma_first_true_none(detection_flags(builtin_formats(), line@));
            }
            Ok(None)
        } else {
            // Use the configured format
            let timestamp_regex = self.timestamp_regex.as_ref().unwrap();
            let timestamp_format = self.timestamp_format.as_ref().unwrap();
            match first_group(timestamp_regex, line) {
                Some(text) => match Timestamp::parse_from_str(
                    text.as_str(),
                    timestamp_format.as_str(),
                ) {
                    Some(timestamp) => Ok(Some(timestamp)),
                    None => Err(ParseError::TimestampParse { text }),
                },
                None => Ok(None),
            }
        }
    }
}

/// Reading is given up at the first line that has an error: where line
/// `index` has one and no line before it has, the whole log yields that
/// error.
pub proof fn lemma_extract_fails_on(rules: Rules, lines: Seq<Seq<char>>, index: int)
    requires
        0 <= index < lines.len(),
        extract(rules, lines.take(index)) is Ok,
        classify(rules, lines[index]) is Err,
    ensures
        extract(rules, lines) == Err::<Seq<LogMatchView>, ParseErrorView>(
            classify(rules, lines[index])->Err_0,
        ),
{
    let upto = lines.take(index + 1);
    assert(upto.drop_last() =~= lines.take(index));
    lemma_extract_error_stays(rules, lines, index + 1);
}

/// An error that the first `count` lines yield is what every longer log
/// that starts with them yields.
pub proof fn lemma_extract_error_stays(rules: Rules, lines: Seq<Seq<char>>, count: int)
    requires
        0 <= count <= lines.len(),
        extract(rules, lines.take(count)) is Err,
    ensures
        extract(rules, lines) == extract(rules, lines.take(count)),
    decreases lines.len() - count,
{
    if count == lines.len() {
        assert(lines.take(count) =~= lines);
    } else {
        let next = lines.take(count + 1);
        assert(next.drop_last() =~= lines.take(count));
        lemma_extract_error_stays(rules, lines, count + 1);
    }
}

/// Under an explicit rule, a line from which the expression captures a text
/// that the format cannot read ends the reading of every log that holds it
/// in an error.
pub proof fn lemma_unreadable_timestamp_aborts(rules: Rules, lines: Seq<Seq<char>>, index: int)
    requires
        0 <= index < lines.len(),
        rules.timestamps matches TimestampRule::Explicit { regex, format } && regex_first_group(
            regex,
            lines[index],
        ) matches Some(text) && timestamp_parse(text, format) is None,
    ensures
        classify(rules, lines[index]) is Err,
        extract(rules, lines) is Err,
{
    if extract(rules, lines.take(index)) is Ok {
        lemma_extract_fails_on(rules, lines, index);
    } else {
        lemma_extract_error_stays(rules, lines, index);
    }
}

/// Under an explicit rule, a line from which the expression captures nothing
/// yields no match and no error.
pub proof fn lemma_uncaptured_line_is_skipped(rules: Rules, line: Seq<char>)
    requires
        rules.timestamps matches TimestampRule::Explicit { regex, .. } && regex_first_group(
            regex,
            line,
        ) is None,
    ensures
        classify(rules, line) == Ok::<Option<LogMatchView>, ParseErrorView>(None),
{
}

/// A line yields at most one match, and its pattern is the first of the
/// configured patterns that matches the line: that pattern matches, and no
/// pattern before it does.
pub proof fn lemma_classify_picks_lowest(rules: Rules, line: Seq<char>)
    ensures
        classify(rules, line) matches Ok(Some(found)) ==> exists|i: int|
            {
                &&& 0 <= i < rules.patterns.len()
                &&& found.pattern == #[trigger] rules.patterns[i]
                &&& regex_is_match(rules.patterns[i], line)
                &&& forall|j: int| 0 <= j < i ==> !regex_is_match(#[trigger] rules.patterns[j], line)
            },
        classify(rules, line) matches Ok(None) ==> line_timestamp(rules.timestamps, line)
            matches Ok(None) || forall|j: int|
            0 <= j < rules.patterns.len() ==> !regex_is_match(#[trigger] rules.patterns[j], line),
{
    let flags = match_flags(rules.patterns, line);
    lemma_first_true_least(flags);
    match first_true(flags) {
        Some(i) => {
            assert forall|j: int| 0 <= j < i implies !regex_is_match(
                #[trigger] rules.patterns[j],
                line,
            ) by {
                assert(!flags[j]);
            }
        },
        None => {
            assert forall|j: int| 0 <= j < rules.patterns.len() implies !regex_is_match(
                #[trigger] rules.patterns[j],
                line,
            ) by {
                assert(!flags[j]);
            }
        },
    }
}

/// Automatic detection reads the timestamp by the first built-in format, in
/// the order of the table, that reads one from the line.
pub proof fn lemma_detection_picks_first(formats: Seq<TimestampFormat>, line: Seq<char>)
    ensures
        match detected(formats, line) {
            Some(moment) => exists|i: int|
                {
                    &&& 0 <= i < formats.len()
                    &&& #[trigger] detected_by(formats[i], line) == Some(moment)
                    &&& forall|j: int| 0 <= j < i ==> #[trigger] detected_by(formats[j], line) is None
                },
            None => forall|j: int|
                0 <= j < formats.len() ==> #[trigger] detected_by(formats[j], line) is None,
        },
{
    let flags = detection_flags(formats, line);
    lemma_first_true_least(flags);
    match first_true(flags) {
        Some(i) => {
            assert forall|j: int| 0 <= j < i implies #[trigger] detected_by(formats[j], line)
                is None by {
                assert(!flags[j]);
            }
        },
        None => {
            assert forall|j: int| 0 <= j < formats.len() implies #[trigger] detected_by(
                formats[j],
                line,
            ) is None by {
                assert(!flags[j]);
            }
        },
    }
}

/// The matches of a log are those of its first part followed by those of the
/// rest: no line changes what another yields, and the order of the lines is
/// kept.
pub proof fn lemma_extract_concat(rules: Rules, first: Seq<Seq<char>>, rest: Seq<Seq<char>>)
    requires
        extract(rules, first) is Ok,
        extract(rules, rest) is Ok,
    ensures
        extract(rules, first + rest) == Ok::<Seq<LogMatchView>, ParseErrorView>(
            extract(rules, first)->Ok_0 + extract(rules, rest)->Ok_0,
        ),
    decreases rest.len(),
{
    if rest.len() == 0 {
    } else {
        let whole = first + rest;
        assert(whole.drop_last() =~= first + rest.drop_last());
        lemma_extract_concat(rules, first, rest.drop_last());
        let head = extract(rules, first)->Ok_0;
        let tail = extract(rules, rest.drop_last())->Ok_0;
        match classify(rules, rest.last()) {
            Ok(Some(m)) => {
            },
            _ => {},
        }
    }
}

/// A log yields at most one match for each of its lines.
pub proof fn lemma_extract_at_most_one_per_line(rules: Rules, lines: Seq<Seq<char>>)
    ensures
        extract(rules, lines) matches Ok(found) ==> found.len() <= lines.len(),
    decreases lines.len(),
{
    if lines.len() > 0 {
        lemma_extract_at_most_one_per_line(rules, lines.drop_last());
    }
}

} // verus!
