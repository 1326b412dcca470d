use log_time_analyzer::analyzer::Interval;
use log_time_analyzer::output::{OutputFormat, OutputFormatter};
use log_time_analyzer::time::Duration;

fn interval(from: &str, to: &str, millis: i64) -> Interval {
    Interval {
        from_pattern: from.to_string(),
        to_pattern: to.to_string(),
        duration: Duration::milliseconds(millis),
    }
}

fn sample() -> Vec<Interval> {
    vec![
        interval("START", "MIDDLE", 5000),
        interval("MIDDLE", "END of \"run\"", 3_661_500),
        interval("END of \"run\"", "START", -250),
    ]
}

#[test]
fn format_names_are_read_in_any_case() {
    assert_eq!(OutputFormat::from_str("human"), Some(OutputFormat::Human));
    assert_eq!(OutputFormat::from_str("JSON"), Some(OutputFormat::Json));
    assert_eq!(OutputFormat::from_str("Csv"), Some(OutputFormat::Csv));
    assert_eq!(OutputFormat::from_str("tSv"), Some(OutputFormat::Tsv));
    assert_eq!(OutputFormat::from_str("TABLE"), Some(OutputFormat::Table));
    assert_eq!(OutputFormat::from_str("Simple"), Some(OutputFormat::Simple));
    assert_eq!(OutputFormat::from_str("WaterFall"), Some(OutputFormat::Waterfall));
    assert_eq!(OutputFormat::from_str(""), None);
    assert_eq!(OutputFormat::from_str("xml"), None);
    assert_eq!(OutputFormat::from_str(" json"), None);
    assert_eq!(OutputFormat::from_str("jsonl"), None);
}

#[test]
fn format_names_in_lower_case_only() {
    assert_eq!(OutputFormat::from_lowercase("table"), Some(OutputFormat::Table));
    assert_eq!(OutputFormat::from_lowercase("Table"), None);
    assert_eq!(OutputFormat::from_lowercase("waterfall"), Some(OutputFormat::Waterfall));
}

#[test]
fn human_format() {
    assert_eq!(OutputFormatter::format_human(&[]), "");
    assert_eq!(
        OutputFormatter::format_human(&sample()),
        "START :::: 5s 0ms ::::> MIDDLE\n\
         MIDDLE :::: 1h 1m 1s ::::> END of \"run\"\n\
         END of \"run\" :::: -250ms ::::> START"
    );
}

#[test]
fn simple_format() {
    assert_eq!(OutputFormatter::format_simple(&[]), "");
    assert_eq!(
        OutputFormatter::format_simple(&sample()),
        "START|MIDDLE|5000\nMIDDLE|END of \"run\"|3661500\nEND of \"run\"|START|-250"
    );
}

#[test]
fn csv_format() {
    assert_eq!(
        OutputFormatter::format_csv(&[]),
        "from_pattern,to_pattern,duration_ms,duration_human"
    );
    assert_eq!(
        OutputFormatter::format_csv(&sample()),
        "from_pattern,to_pattern,duration_ms,duration_human\n\
         \"START\",\"MIDDLE\",5000,\"5s 0ms\"\n\
         \"MIDDLE\",\"END of \"\"run\"\"\",3661500,\"1h 1m 1s\"\n\
         \"END of \"\"run\"\"\",\"START\",-250,\"-250ms\""
    );
}

#[test]
fn tsv_format() {
    assert_eq!(
        OutputFormatter::format_tsv(&[]),
        "from_pattern\tto_pattern\tduration_ms\tduration_human"
    );
    assert_eq!(
        OutputFormatter::format_tsv(&[interval("a\tb", "c\nd", 1), interval("x", "y", -61_000)]),
        "from_pattern\tto_pattern\tduration_ms\tduration_human\n\
         a    b\tc d\t1\t1ms\n\
         x\ty\t-61000\t-1m 1s"
    );
}

#[test]
fn table_format() {
    assert_eq!(OutputFormatter::format_table(&[]), "");
    assert_eq!(
        OutputFormatter::format_table(&[interval("START", "END", 5000)]),
        "| From Pattern | To Pattern | Duration | Duration (ms) |\n\
         |--------------|------------|----------|---------------|\n\
         | START        | END        | 5s 0ms   |          5000 |"
    );
}

#[test]
fn table_columns_grow_with_their_cells() {
    let intervals = vec![
        interval("a pattern of some length", "b", 360_000_000),
        interval("c", "another long pattern", -12_345_678_901_234),
    ];
    assert_eq!(
        OutputFormatter::format_table(&intervals),
        "| From Pattern             | To Pattern           | Duration         |   Duration (ms) |\n\
         |--------------------------|----------------------|------------------|-----------------|\n\
         | a pattern of some length | b                    | 100h 0m 0s       |       360000000 |\n\
         | c                        | another long pattern | -3429355h 15m 1s | -12345678901234 |"
    );
}

#[test]
fn table_width_counts_bytes_and_padding_counts_characters() {
    // Fourteen characters in fifteen bytes: the column is fifteen wide, and
    // each cell is filled up to fifteen characters.
    let intervals = vec![interval("caf\u{e9} au lait x", "y", 0)];
    assert_eq!(
        OutputFormatter::format_table(&intervals),
        "| From Pattern    | To Pattern | Duration | Duration (ms) |\n\
         |-----------------|------------|----------|---------------|\n\
         | caf\u{e9} au lait x  | y          | 0ms      |             0 |"
    );
}

#[test]
fn escapes() {
    assert_eq!(OutputFormatter::escape_csv("plain"), "plain");
    assert_eq!(OutputFormatter::escape_csv("say \"hi\""), "say \"\"hi\"\"");
    assert_eq!(OutputFormatter::escape_csv("\"\""), "\"\"\"\"");
    assert_eq!(OutputFormatter::escape_tsv("plain"), "plain");
    assert_eq!(OutputFormatter::escape_tsv("a\tb\nc"), "a    b c");
    assert_eq!(OutputFormatter::escape_tsv("\t\t"), "        ");
    assert_eq!(OutputFormatter::escape_tsv(""), "");
}

#[test]
fn labels_are_cut_to_length() {
    assert_eq!(OutputFormatter::truncate_label("short", 8), "short");
    assert_eq!(OutputFormatter::truncate_label("12345678", 8), "12345678");
    assert_eq!(OutputFormatter::truncate_label("123456789", 8), "12345...");
    assert_eq!(OutputFormatter::truncate_label("abcdef", 2), "...");
    assert_eq!(OutputFormatter::truncate_label("abcdef", 4), "a...");
    assert_eq!(OutputFormatter::truncate_label("", 0), "");
    // Nine bytes, cut after five, which is between two characters.
    assert_eq!(OutputFormatter::truncate_label("abc\u{e9}\u{e9}\u{e9}", 8), "abc\u{e9}...");
}

#[test]
fn labels_cannot_split_a_character() {
    assert!(OutputFormatter::can_truncate("anything short", 20));
    assert!(OutputFormatter::can_truncate("123456789", 8));
    assert!(OutputFormatter::can_truncate("abc\u{e9}\u{e9}\u{e9}", 8));
    // Ten bytes, and byte five is the second byte of a character.
    assert!(!OutputFormatter::can_truncate("abcd\u{e9}\u{e9}\u{e9}", 8));
    // It fits, so nothing is cut.
    assert!(OutputFormatter::can_truncate("\u{e9}\u{e9}\u{e9}\u{e9}", 8));
}

#[test]
fn waterfall_of_nothing_is_empty() {
    assert_eq!(OutputFormatter::format_waterfall(&[], &[]), "");
    assert!(OutputFormatter::can_draw(&[], &[]));
}

#[test]
fn waterfall_needs_a_height_for_each_interval() {
    let intervals = sample();
    assert!(OutputFormatter::can_draw(&intervals, &[1, 2, 3]));
    assert!(!OutputFormatter::can_draw(&intervals, &[1, 2]));
    assert!(!OutputFormatter::can_draw(&[interval("abcd\u{e9}\u{e9}\u{e9}", "x", 1)], &[1]));
    assert!(!OutputFormatter::can_draw(&[interval("x", "abcd\u{e9}\u{e9}\u{e9}", 1)], &[1]));
}

#[test]
fn waterfall_of_one_interval() {
    let drawn = OutputFormatter::format_waterfall(&[interval("START", "END", 5000)], &[3]);
    assert_eq!(drawn, "|\n|\n|\n=\n\n1: START\u{2192}END (5s 0ms)");
}

#[test]
fn waterfall_spreads_bars_over_the_screen() {
    let intervals = vec![
        interval("START", "a long pattern", 1000),
        interval("a long pattern", "END", 2000),
        interval("END", "START", -5),
    ];
    let drawn = OutputFormatter::format_waterfall(&intervals, &[2, 3, 1]);
    let gap = " ".repeat(32);
    let expected = format!(
        " {gap}|{gap} \n|{gap}|{gap} \n|{gap}|{gap}|\n{line}\n\n1: START\u{2192}a lon... (1s 0ms)\n2: a lon...\u{2192}END (2s 0ms)\n3: END\u{2192}START (-5ms)",
        gap = gap,
        line = "=".repeat(67)
    );
    assert_eq!(drawn, expected);
}

#[test]
fn waterfall_bars_touch_when_there_are_many() {
    let intervals: Vec<Interval> = (0..120).map(|_| interval("a", "b", 1)).collect();
    let heights: Vec<usize> = (0..120).map(|i| 1 + i % 2).collect();
    let drawn = OutputFormatter::format_waterfall(&intervals, &heights);
    let rows: Vec<&str> = drawn.split('\n').collect();
    assert_eq!(rows[0], " |".repeat(60));
    assert_eq!(rows[1], "|".repeat(120));
    assert_eq!(rows[2], "=".repeat(120));
    assert_eq!(rows[3], "");
    assert_eq!(rows[4], "1: a\u{2192}b (1ms)");
    assert_eq!(rows[123], "120: a\u{2192}b (1ms)");
    assert_eq!(rows.len(), 124);
}

#[test]
fn waterfall_without_bars_has_only_baseline_and_labels() {
    let drawn = OutputFormatter::format_waterfall(&[interval("a", "b", 1), interval("b", "a", 2)], &[0, 0]);
    assert_eq!(drawn, format!("{}\n\n1: a\u{2192}b (1ms)\n2: b\u{2192}a (2ms)", "=".repeat(51)));
}
