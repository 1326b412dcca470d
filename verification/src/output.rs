//! Intervals as text.

use crate::analyzer::{duration_text, interval_text, interval_views, Interval, IntervalView};
use crate::text::{
    append_decimal, append_padded_left, append_padded_right, append_repeated,
    append_signed_decimal, byte_len, decimal, join_lines, joined, lowercase, padded_left,
    padded_right, repeated, replace_char, replaced, signed_decimal, texts, to_lowercase,
};
use crate::time::truncated_quotient;
use vstd::prelude::*;
use vstd::string::*;
use vstd::utf8::{decode_utf8, encode_utf8, encode_utf8_decode_utf8, is_char_boundary};

verus! {

/// The ways in which intervals can be written out.
#[derive(Debug, Clone, Copy, PartialEq, Eq, Structural)]
pub enum OutputFormat {
    /// One line per interval: "Pattern A :::: duration ::::> Pattern B"
    Human,
    /// JSON format for easy parsing
    Json,
    /// CSV format for spreadsheets
    Csv,
    /// TSV (tab-separated) format
    Tsv,
    /// Table format with aligned columns
    Table,
    /// Simple format with milliseconds: "from_pattern|to_pattern|milliseconds"
    Simple,
    /// Waterfall visualization with vertical bars
    Waterfall,
}

/// The format that goes by `name`, a name in lower case.
pub open spec fn format_named(name: Seq<char>) -> Option<OutputFormat> {
    if name == "human"@ {
        Some(OutputFormat::Human)
    } else if name == "json"@ {
        Some(OutputFormat::Json)
    } else if name == "csv"@ {
        Some(OutputFormat::Csv)
    } else if name == "tsv"@ {
        Some(OutputFormat::Tsv)
    } else if name == "table"@ {
        Some(OutputFormat::Table)
    } else if name == "simple"@ {
        Some(OutputFormat::Simple)
    } else if name == "waterfall"@ {
        Some(OutputFormat::Waterfall)
    } else {
        None
    }
}

impl OutputFormat {
    /// The format that goes by `s`, whatever the case of its letters.
    pub fn from_str(s: &str) -> (format: Option<Self>)
        ensures
            format == format_named(lowercase(s@)),
    {
        let lowered = to_lowercase(s);
        OutputFormat::from_lowercase(lowered.as_str())
    }

    /// The format that goes by `name`, a name in lower case.
    pub fn from_lowercase(name: &str) -> (format: Option<Self>)
        ensures
            format == format_named(name@),
    {
        let name = String::from_str(name);
        if name == String::from_str("human") {
            Some(OutputFormat::Human)
        } else if name == String::from_str("json") {
            Some(OutputFormat::Json)
        } else if name == String::from_str("csv") {
            Some(OutputFormat::Csv)
        } else if name == String::from_str("tsv") {
            Some(OutputFormat::Tsv)
        } else if name == String::from_str("table") {
            Some(OutputFormat::Table)
        } else if name == String::from_str("simple") {
            Some(OutputFormat::Simple)
        } else if name == String::from_str("waterfall") {
            Some(OutputFormat::Waterfall)
        } else {
            None
        }
    }
}

/// The whole milliseconds of a duration of `nanos` nanoseconds.
pub open spec fn millis_of(nanos: int) -> int {
    truncated_quotient(nanos, 1_000_000)
}

/// The whole milliseconds of an interval, in base ten.
pub open spec fn millis_text(interval: IntervalView) -> Seq<char> {
    signed_decimal(millis_of(interval.duration))
}

/// The lines of the human-readable format: one for each interval.
pub open spec fn human_lines(intervals: Seq<IntervalView>) -> Seq<Seq<char>> {
    Seq::new(intervals.len(), |i: int| interval_text(intervals[i]))
}

/// The line of an interval in the simple format.
pub open spec fn simple_line(interval: IntervalView) -> Seq<char> {
    interval.from_pattern + "|"@ + interval.to_pattern + "|"@ + millis_text(interval)
}

/// The lines of the simple format: one for each interval.
pub open spec fn simple_lines(intervals: Seq<IntervalView>) -> Seq<Seq<char>> {
    Seq::new(intervals.len(), |i: int| simple_line(intervals[i]))
}

/// `text` as it stands between the quotes of a CSV field: each quote is
/// doubled.
pub open spec fn escaped_csv(text: Seq<char>) -> Seq<char> {
    replaced(text, '"', "\"\""@)
}

/// `text` as it stands in a TSV field: four spaces for each tab, then one
/// space for each line feed.
pub open spec fn escaped_tsv(text: Seq<char>) -> Seq<char> {
    replaced(replaced(text, '\t', "    "@), '\n', " "@)
}

/// The first line of the CSV format.
pub open spec fn csv_header() -> Seq<char> {
    "from_pattern,to_pattern,duration_ms,duration_human"@
}

/// The line of an interval in the CSV format.
pub open spec fn csv_row(interval: IntervalView) -> Seq<char> {
    "\""@ + escaped_csv(interval.from_pattern) + "\",\""@ + escaped_csv(interval.to_pattern)
        + "\","@ + millis_text(interval) + ",\""@ + duration_text(interval.duration) + "\""@
}

/// The lines of the CSV format: the header, then one line for each interval.
pub open spec fn csv_lines(intervals: Seq<IntervalView>) -> Seq<Seq<char>> {
    Seq::new(
        intervals.len() + 1,
        |i: int|
            if i == 0 {
                csv_header()
            } else {
                csv_row(intervals[i - 1])
            },
    )
}

/// The first line of the TSV format.
pub open spec fn tsv_header() -> Seq<char> {
    "from_pattern\tto_pattern\tduration_ms\tduration_human"@
}

/// The line of an interval in the TSV format.
pub open spec fn tsv_row(interval: IntervalView) -> Seq<char> {
    escaped_tsv(interval.from_pattern) + "\t"@ + escaped_tsv(interval.to_pattern) + "\t"@
        + millis_text(interval) + "\t"@ + duration_text(interval.duration)
}

/// The lines of the TSV format: the header, then one line for each interval.
pub open spec fn tsv_lines(intervals: Seq<IntervalView>) -> Seq<Seq<char>> {
    Seq::new(
        intervals.len() + 1,
        |i: int|
            if i == 0 {
                tsv_header()
            } else {
                tsv_row(intervals[i - 1])
            },
    )
}

/// The widths of the four columns of a table.
pub struct ColumnWidths {
    pub from_pattern: usize,
    pub to_pattern: usize,
    pub duration: usize,
    pub millis: usize,
}

/// The four texts of one line of a table.
pub struct Cells {
    pub from_pattern: Seq<char>,
    pub to_pattern: Seq<char>,
    pub duration: Seq<char>,
    pub millis: Seq<char>,
}

/// The cells of the header of a table.
pub open spec fn header_cells() -> Cells {
    Cells {
        from_pattern: "From Pattern"@,
        to_pattern: "To Pattern"@,
        duration: "Duration"@,
        millis: "Duration (ms)"@,
    }
}

/// The cells of an interval in a table.
pub open spec fn cells_of(interval: IntervalView) -> Cells {
    Cells {
        from_pattern: interval.from_pattern,
        to_pattern: interval.to_pattern,
        duration: duration_text(interval.duration),
        millis: millis_text(interval),
    }
}

/// The wider of two widths.
pub open spec fn wider(a: usize, b: usize) -> usize {
    if a >= b {
        a
    } else {
        b
    }
}

/// The widths that the columns of a table of `intervals` need: each column
/// is as wide as its header and as the longest of its cells, in bytes.
pub open spec fn column_widths(intervals: Seq<IntervalView>) -> ColumnWidths
    decreases intervals.len(),
{
    if intervals.len() == 0 {
        ColumnWidths { from_pattern: 12, to_pattern: 10, duration: 8, millis: 13 }
    } else {
        let before = column_widths(intervals.drop_last());
        let cells = cells_of(intervals.last());
        ColumnWidths {
            from_pattern: wider(before.from_pattern, byte_len(cells.from_pattern)),
            to_pattern: wider(before.to_pattern, byte_len(cells.to_pattern)),
            duration: wider(before.duration, byte_len(cells.duration)),
            millis: wider(before.millis, byte_len(cells.millis)),
        }
    }
}

/// One line of a table: the cells filled up to the widths of their columns,
/// the first three on the left, the last on the right.
pub open spec fn table_row(cells: Cells, widths: ColumnWidths) -> Seq<char> {
    "| "@ + padded_right(cells.from_pattern, widths.from_pattern as int) + " | "@ + padded_right(
        cells.to_pattern,
        widths.to_pattern as int,
    ) + " | "@ + padded_right(cells.duration, widths.duration as int) + " | "@ + padded_left(
        cells.millis,
        widths.millis as int,
    ) + " |"@
}

/// The rule below the header of a table.
pub open spec fn table_rule(widths: ColumnWidths) -> Seq<char> {
    "|"@ + repeated('-', widths.from_pattern + 2) + "|"@ + repeated('-', widths.to_pattern + 2)
        + "|"@ + repeated('-', widths.duration + 2) + "|"@ + repeated('-', widths.millis + 2)
        + "|"@
}

/// The lines of a table: the header, the rule, then one line for each
/// interval.
pub open spec fn table_lines(intervals: Seq<IntervalView>) -> Seq<Seq<char>> {
    let widths = column_widths(intervals);
    Seq::new(
        intervals.len() + 2,
        |i: int|
            if i == 0 {
                table_row(header_cells(), widths)
            } else if i == 1 {
                table_rule(widths)
            } else {
                table_row(cells_of(intervals[i - 2]), widths)
            },
    )
}

/// The table of `intervals`; nothing where there are none.
pub open spec fn table_text(intervals: Seq<IntervalView>) -> Seq<char> {
    if intervals.len() == 0 {
        Seq::empty()
    } else {
        joined(table_lines(intervals), "\n"@)
    }
}

/// The number of bytes that a label of at most `max_len` bytes keeps of a
/// text that is too long for it: room is left for three dots.
pub open spec fn label_cut(max_len: usize) -> int {
    if max_len >= 3 {
        max_len - 3
    } else {
        0
    }
}

/// `text` as a label of at most `max_len` bytes: the text itself where it
/// fits, else its first bytes with three dots behind them.
pub open spec fn truncated_label(text: Seq<char>, max_len: usize) -> Seq<char> {
    if byte_len(text) <= max_len {
        text
    } else {
        decode_utf8(encode_utf8(text).subrange(0, label_cut(max_len))) + "..."@
    }
}

/// The height of the tallest bar of a waterfall.
pub const MAX_HEIGHT: usize = 40;

/// The least height of a bar of a waterfall.
pub const MIN_HEIGHT: usize = 1;

/// The width of a waterfall, which its bars are spread over.
pub const SCREEN_WIDTH: usize = 100;

/// The longest label of a pattern below a waterfall, in bytes.
pub const LABEL_WIDTH: usize = 8;

/// Whether `text` can be made a label of at most `max_len` bytes: it fits,
/// or the place where it is cut does not split a character.
pub open spec fn label_fits(text: Seq<char>, max_len: usize) -> bool {
    byte_len(text) > max_len ==> is_char_boundary(encode_utf8(text), label_cut(max_len))
}

/// `cells` with `gap` times the character `filler` between each two
/// neighbours.
pub open spec fn spaced(cells: Seq<char>, filler: char, gap: int) -> Seq<char>
    decreases cells.len(),
{
    if cells.len() == 0 {
        Seq::empty()
    } else if cells.len() == 1 {
        cells
    } else {
        spaced(cells.drop_last(), filler, gap) + repeated(filler, gap).push(cells.last())
    }
}

/// The number of columns between two neighbouring bars of `count` bars.
pub open spec fn bar_gap(count: int) -> int {
    if 0 < count <= SCREEN_WIDTH {
        (SCREEN_WIDTH as int) / count - 1
    } else {
        0
    }
}

/// The height of the tallest of the bars.
pub open spec fn tallest(heights: Seq<usize>) -> usize
    decreases heights.len(),
{
    if heights.len() == 0 {
        0
    } else {
        wider(tallest(heights.drop_last()), heights.last())
    }
}

/// What stands in row `row` of the picture for each bar: a stroke where the
/// bar reaches the row, else a blank.
pub open spec fn bar_cells(heights: Seq<usize>, row: int) -> Seq<char> {
    Seq::new(
        heights.len(),
        |i: int|
            if row <= heights[i] {
                '|'
            } else {
                ' '
            },
    )
}

/// The rows of the picture from row `rows` down to row 1, each with a line
/// feed behind it.
pub open spec fn bar_rows(heights: Seq<usize>, rows: int, gap: int) -> Seq<char>
    decreases rows,
{
    if rows <= 0 {
        Seq::empty()
    } else {
        spaced(bar_cells(heights, rows), ' ', gap) + "\n"@ + bar_rows(heights, rows - 1, gap)
    }
}

/// The line below the bars.
pub open spec fn baseline(count: int, gap: int) -> Seq<char> {
    spaced(repeated('=', count), '=', gap)
}

/// The label of interval number `number`: the number, both patterns as
/// labels, and the duration.
pub open spec fn label_line(interval: IntervalView, number: int) -> Seq<char> {
    "\n"@ + decimal(number as nat) + ": "@ + truncated_label(interval.from_pattern, LABEL_WIDTH)
        + "\u{2192}"@ + truncated_label(interval.to_pattern, LABEL_WIDTH) + " ("@ + duration_text(
        interval.duration,
    ) + ")"@
}

/// The labels of all intervals, numbered from 1.
pub open spec fn label_lines(intervals: Seq<IntervalView>) -> Seq<char>
    decreases intervals.len(),
{
    if intervals.len() == 0 {
        Seq::empty()
    } else {
        label_lines(intervals.drop_last()) + label_line(intervals.last(), intervals.len() as int)
    }
}

/// The waterfall of `intervals` with bars of the given heights: the bars
/// from the top row down, the baseline, and the labels; nothing where there
/// are no intervals.
pub open spec fn waterfall_text(intervals: Seq<IntervalView>, heights: Seq<usize>) -> Seq<char> {
    if intervals.len() == 0 {
        Seq::empty()
    } else {
        let gap = bar_gap(intervals.len() as int);
        bar_rows(heights, tallest(heights) as int, gap) + baseline(intervals.len() as int, gap)
            + "\n"@ + label_lines(intervals)
    }
}

/// Whether a waterfall of `intervals` can be drawn with `heights`: each
/// interval has its height, and each pattern can be made a label.
pub open spec fn drawable(intervals: Seq<IntervalView>, heights: Seq<usize>) -> bool {
    &&& heights.len() == intervals.len()
    &&& forall|i: int|
        0 <= i < intervals.len() ==> label_fits(
            (#[trigger] intervals[i]).from_pattern,
            LABEL_WIDTH,
        ) && label_fits(intervals[i].to_pattern, LABEL_WIDTH)
}

/// Writes intervals out as text.
pub struct OutputFormatter;

impl OutputFormatter {
    /// One line per interval, as [`Interval::format`] writes it.
    pub fn format_human(intervals: &[Interval]) -> (output: String)
        ensures
            output@ == joined(human_lines(interval_views(intervals@)), "\n"@),
    {
        let mut lines: Vec<String> = Vec::new();
        let mut i: usize = 0;
        while i < intervals.len()
            invariant
                i <= intervals@.len(),
                lines@.len() == i,
                forall|k: int| 0 <= k < i ==> (#[trigger] lines@[k])@ == interval_text(intervals@[k]@),
            decreases intervals@.len() - i,
        {
            lines.push(intervals[i].format());
            i += 1;
        }
        assert(texts(lines@) =~= human_lines(interval_views(intervals@)));
        join_lines(&lines)
    }

    /// One line per interval: both patterns and the whole milliseconds,
    /// with `|` between them.
    pub fn format_simple(intervals: &[Interval]) -> (output: String)
        ensures
            output@ == joined(simple_lines(interval_views(intervals@)), "\n"@),
    {
        let mut lines: Vec<String> = Vec::new();
        let mut i: usize = 0;
        while i < intervals.len()
            invariant
                i <= intervals@.len(),
                lines@.len() == i,
                forall|k: int| 0 <= k < i ==> (#[trigger] lines@[k])@ == simple_line(intervals@[k]@),
            decreases intervals@.len() - i,
        {
            let interval = &intervals[i];
            let mut line = interval.from_pattern.clone();
            line.append("|");
            line.append(interval.to_pattern.as_str());
            line.append("|");
            append_signed_decimal(&mut line, interval.duration.num_milliseconds());
            lines.push(line);
            i += 1;
        }
        assert(texts(lines@) =~= simple_lines(interval_views(intervals@)));
        join_lines(&lines)
    }

    /// A header and one line per interval, the fields separated by commas
    /// and the texts among them in quotes.
    pub fn format_csv(intervals: &[Interval]) -> (output: String)
        ensures
            output@ == joined(csv_lines(interval_views(intervals@)), "\n"@),
    {
        let mut lines: Vec<String> = Vec::new();
        lines.push(String::from_str("from_pattern,to_pattern,duration_ms,duration_human"));
        let mut i: usize = 0;
        while i < intervals.len()
            invariant
                i <= intervals@.len(),
                lines@.len() == i + 1,
                lines@[0]@ == csv_header(),
                forall|k: int| 0 <= k < i ==> (#[trigger] lines@[k + 1])@ == csv_row(intervals@[k]@),
            decreases intervals@.len() - i,
        {
            let interval = &intervals[i];
            let mut line = String::from_str("\"");
            line.append(OutputFormatter::escape_csv(interval.from_pattern.as_str()).as_str());
            line.append("\",\"");
            line.append(OutputFormatter::escape_csv(interval.to_pattern.as_str()).as_str());
            line.append("\",");
            append_signed_decimal(&mut line, interval.duration.num_milliseconds());
            line.append(",\"");
            line.append(interval.format_duration().as_str());
            line.append("\"");
            lines.push(line);
            i += 1;
        }
        assert(texts(lines@) =~= csv_lines(interval_views(intervals@))) by {
            assert forall|k: int| 0 <= k < lines@.len() implies texts(lines@)[k] == csv_lines(
                interval_views(intervals@),
            )[k] by {
                if k > 0 {
                    assert(lines@[(k - 1) + 1]@ == csv_row(intervals@[k - 1]@));
                }
            }
        }
        join_lines(&lines)
    }

    /// A header and one line per interval, the fields separated by tabs.
    pub fn format_tsv(intervals: &[Interval]) -> (output: String)
        ensures
            output@ == joined(tsv_lines(interval_views(intervals@)), "\n"@),
    {
        let mut lines: Vec<String> = Vec::new();
        lines.push(String::from_str("from_pattern\tto_pattern\tduration_ms\tduration_human"));
        let mut i: usize = 0;
        while i < intervals.len()
            invariant
                i <= intervals@.len(),
                lines@.len() == i + 1,
                lines@[0]@ == tsv_header(),
                forall|k: int| 0 <= k < i ==> (#[trigger] lines@[k + 1])@ == tsv_row(intervals@[k]@),
            decreases intervals@.len() - i,
        {
            let interval = &intervals[i];
            let mut line = OutputFormatter::escape_tsv(interval.from_pattern.as_str());
            line.append("\t");
            line.append(OutputFormatter::escape_tsv(interval.to_pattern.as_str()).as_str());
            line.append("\t");
            append_signed_decimal(&mut line, interval.duration.num_milliseconds());
            line.append("\t");
            line.append(interval.format_duration().as_str());
            lines.push(line);
            i += 1;
        }
        assert(texts(lines@) =~= tsv_lines(interval_views(intervals@))) by {
            assert forall|k: int| 0 <= k < lines@.len() implies texts(lines@)[k] == tsv_lines(
                interval_views(intervals@),
            )[k] by {
                if k > 0 {
                    assert(lines@[(k - 1) + 1]@ == tsv_row(intervals@[k - 1]@));
                }
            }
        }
        join_lines(&lines)
    }

    /// A table with a header, a rule and one line per interval, its columns
    /// as wide as their longest cells.
    pub fn format_table(intervals: &[Interval]) -> (output: String)
        ensures
            output@ == table_text(interval_views(intervals@)),
    {
        if intervals.len() == 0 {
            return String::new();
        }
        let ghost views = interval_views(intervals@);

        // Calculate column widths
        let mut widths = ColumnWidths { from_pattern: 12, to_pattern: 10, duration: 8, millis: 13 };
        let mut durations: Vec<String> = Vec::new();
        let mut millis: Vec<String> = Vec::new();
        let mut i: usize = 0;
        while i < intervals.len()
            invariant
                i <= intervals@.len(),
                views == interval_views(intervals@),
                widths == column_widths(views.take(i as int)),
                durations@.len() == i,
                millis@.len() == i,
                forall|k: int|
                    0 <= k < i ==> (#[trigger] durations@[k])@ == duration_text(
                        intervals@[k]@.duration,
                    ),
                forall|k: int| 0 <= k < i ==> (#[trigger] millis@[k])@ == millis_text(intervals@[k]@),
            decreases intervals@.len() - i,
        {
            let interval = &intervals[i];
            let duration = interval.format_duration();
            let mut count = String::new();
            append_signed_decimal(&mut count, interval.duration.num_milliseconds());
            assert(views.take(i + 1).drop_last() =~= views.take(i as int));
            widths =
            ColumnWidths {
                from_pattern: larger(widths.from_pattern, interval.from_pattern.as_str().len()),
                to_pattern: larger(widths.to_pattern, interval.to_pattern.as_str().len()),
                duration: larger(widths.duration, duration.as_str().len()),
                millis: larger(widths.millis, count.as_str().len()),
            };
            durations.push(duration);
            millis.push(count);
            i += 1;
        }
        assert(views.take(i as int) =~= views);

        let mut lines: Vec<String> = Vec::new();
        // Header
        lines.push(
            OutputFormatter::table_line(
                "From Pattern",
                "To Pattern",
                "Duration",
                "Duration (ms)",
                &widths,
            ),
        );
        // Separator
        lines.push(OutputFormatter::table_separator(&widths));
        // Rows
        let mut i: usize = 0;
        while i < intervals.len()
            invariant
                i <= intervals@.len(),
                views == interval_views(intervals@),
                widths == column_widths(views),
                durations@.len() == intervals@.len(),
                millis@.len() == intervals@.len(),
                forall|k: int|
                    0 <= k < intervals@.len() ==> (#[trigger] durations@[k])@ == duration_text(
                        intervals@[k]@.duration,
                    ),
                forall|k: int|
                    0 <= k < intervals@.len() ==> (#[trigger] millis@[k])@ == millis_text(
                        intervals@[k]@,
                    ),
                lines@.len() == i + 2,
                lines@[0]@ == table_row(header_cells(), widths),
                lines@[1]@ == table_rule(widths),
                forall|k: int|
                    0 <= k < i ==> (#[trigger] lines@[k + 2])@ == table_row(
                        cells_of(intervals@[k]@),
                        widths,
                    ),
            decreases intervals@.len() - i,
        {
            let interval = &intervals[i];
            lines.push(
                OutputFormatter::table_line(
                    interval.from_pattern.as_str(),
                    interval.to_pattern.as_str(),
                    durations[i].as_str(),
                    millis[i].as_str(),
                    &widths,
                ),
            );
            i += 1;
        }
        assert(texts(lines@) =~= table_lines(views)) by {
            assert forall|k: int| 0 <= k < lines@.len() implies texts(lines@)[k] == table_lines(
                views,
            )[k] by {
                if k > 1 {
                    assert(lines@[(k - 2) + 2]@ == table_row(cells_of(intervals@[k - 2]@), widths));
                }
            }
        }
        join_lines(&lines)
    }

    /// One line of a table.
    fn table_line(
        from_pattern: &str,
        to_pattern: &str,
        duration: &str,
        millis: &str,
        widths: &ColumnWidths,
    ) -> (line: String)
        ensures
            line@ == table_row(
                Cells {
                    from_pattern: from_pattern@,
                    to_pattern: to_pattern@,
                    duration: duration@,
                    millis: millis@,
                },
                *widths,
            ),
    {
        let mut line = String::from_str("| ");
        append_padded_right(&mut line, from_pattern, widths.from_pattern);
        line.append(" | ");
        append_padded_right(&mut line, to_pattern, widths.to_pattern);
        line.append(" | ");
        append_padded_right(&mut line, duration, widths.duration);
        line.append(" | ");
        append_padded_left(&mut line, millis, widths.millis);
        line.append(" |");
        line
    }

    /// The rule below the header of a table.
    fn table_separator(widths: &ColumnWidths) -> (line: String)
        ensures
            line@ == table_rule(*widths),
    {
        proof {
            reveal_strlit("-");
            reveal_strlit("--");
        }
        let mut line = String::from_str("|");
        append_repeated(&mut line, "-", widths.from_pattern);
        line.append("--|");
        append_repeated(&mut line, "-", widths.to_pattern);
        line.append("--|");
        append_repeated(&mut line, "-", widths.duration);
        line.append("--|");
        append_repeated(&mut line, "-", widths.millis);
        line.append("--|");
        proof {
            reveal_strlit("--|");
            reveal_strlit("|");
        }
        line
    }

    /// Whether `s` can be made a label of at most `max_len` bytes.
    pub fn can_truncate(s: &str, max_len: usize) -> (fits: bool)
        ensures
            fits == label_fits(s@, max_len),
    {
        if s.len() <= max_len {
            true
        } else {
            let keep: usize = if max_len >= 3 {
                max_len - 3
            } else {
                0
            };
            s.is_char_boundary(keep)
        }
    }

    /// Whether a waterfall of `intervals` can be drawn with `heights`.
    pub fn can_draw(intervals: &[Interval], heights: &[usize]) -> (possible: bool)
        ensures
            possible == drawable(interval_views(intervals@), heights@),
    {
        if heights.len() != intervals.len() {
            return false;
        }
        let mut i: usize = 0;
        while i < intervals.len()
            invariant
                i <= intervals@.len(),
                heights@.len() == intervals@.len(),
                forall|k: int|
                    0 <= k < i ==> label_fits(
                        (#[trigger] interval_views(intervals@)[k]).from_pattern,
                        LABEL_WIDTH,
                    ) && label_fits(interval_views(intervals@)[k].to_pattern, LABEL_WIDTH),
            decreases intervals@.len() - i,
        {
            let interval = &intervals[i];
            assert(interval@ == interval_views(intervals@)[i as int]);
            if !OutputFormatter::can_truncate(interval.from_pattern.as_str(), LABEL_WIDTH)
                || !OutputFormatter::can_truncate(interval.to_pattern.as_str(), LABEL_WIDTH) {
                return false;
            }
            i += 1;
        }
        true
    }

    /// A picture of the intervals as bars over a baseline, with a numbered
    /// label for each below it. The bar of interval `i` is `heights[i]` rows
    /// high.
    pub fn format_waterfall(intervals: &[Interval], heights: &[usize]) -> (output: String)
        requires
            drawable(interval_views(intervals@), heights@),
        ensures
            output@ == waterfall_text(interval_views(intervals@), heights@),
    {
        if intervals.len() == 0 {
            return String::new();
        }
        let ghost views = interval_views(intervals@);
        let num_intervals = intervals.len();
        // Spread the bars evenly over the width of the screen
        let gap: usize = if num_intervals <= SCREEN_WIDTH {
            assert(100usize / num_intervals >= 1) by (nonlinear_arith)
                requires
                    0 < num_intervals <= 100,
            ;
            SCREEN_WIDTH / num_intervals - 1
        } else {
            0
        };

        // Find the maximum height that is actually used
        let mut top: usize = 0;
        let mut i: usize = 0;
        while i < heights.len()
            invariant
                i <= heights@.len(),
                top == tallest(heights@.take(i as int)),
            decreases heights@.len() - i,
        {
            assert(heights@.take(i + 1).drop_last() =~= heights@.take(i as int));
            top = larger(top, heights[i]);
            i += 1;
        }
        assert(heights@.take(i as int) =~= heights@);

        let mut output = String::new();
        // Draw from top to bottom
        let mut row: usize = top;
        while row > 0
            invariant
                output@ + bar_rows(heights@, row as int, gap as int) == bar_rows(
                    heights@,
                    top as int,
                    gap as int,
                ),
            decreases row,
        {
            OutputFormatter::append_bars(&mut output, heights, row, gap);
            output.append("\n");
            row -= 1;
        }

        // Add a baseline
        OutputFormatter::append_baseline(&mut output, num_intervals, gap);
        output.append("\n");

        // Add labels for each interval (showing pattern transitions)
        let ghost drawn = output@;
        let mut i: usize = 0;
        while i < intervals.len()
            invariant
                i <= intervals@.len(),
                views == interval_views(intervals@),
                drawable(views, heights@),
                output@ == drawn + label_lines(views.take(i as int)),
            decreases intervals@.len() - i,
        {
            let interval = &intervals[i];
            assert(views.take(i + 1).drop_last() =~= views.take(i as int));
            assert(interval@ == views[i as int]);
            output.append(OutputFormatter::label(interval, i + 1).as_str());
            i += 1;
        }
        assert(views.take(i as int) =~= views);
        output
    }

    /// The label of `interval`, which is interval number `number`.
    fn label(interval: &Interval, number: usize) -> (line: String)
        requires
            label_fits(interval@.from_pattern, LABEL_WIDTH),
            label_fits(interval@.to_pattern, LABEL_WIDTH),
        ensures
            line@ == label_line(interval@, number as int),
    {
        let mut line = String::from_str("\n");
        append_decimal(&mut line, number as u64);
        line.append(": ");
        line.append(
            OutputFormatter::truncate_label(interval.from_pattern.as_str(), LABEL_WIDTH).as_str(),
        );
        line.append("\u{2192}");
        line.append(
            OutputFormatter::truncate_label(interval.to_pattern.as_str(), LABEL_WIDTH).as_str(),
        );
        line.append(" (");
        line.append(interval.format_duration().as_str());
        line.append(")");
        line
    }

    /// Appends one row of bars: a stroke for each bar that reaches `row`,
    /// a blank for each other.
    fn append_bars(out: &mut String, heights: &[usize], row: usize, gap: usize)
        ensures
            final(out)@ == old(out)@ + spaced(bar_cells(heights@, row as int), ' ', gap as int),
    {
        let ghost cells = bar_cells(heights@, row as int);
        let mut i: usize = 0;
        while i < heights.len()
            invariant
                i <= heights@.len(),
                cells == bar_cells(heights@, row as int),
                out@ == old(out)@ + spaced(cells.take(i as int), ' ', gap as int),
            decreases heights@.len() - i,
        {
            proof {
                reveal_strlit(" ");
                reveal_strlit("|");
            }
            if i > 0 {
                append_repeated(out, " ", gap);
            }
            // Draw the bar if this row is within its height
            if row <= heights[i] {
                out.append("|");
            } else {
                out.append(" ");
            }
            assert(cells.take(i + 1).drop_last() =~= cells.take(i as int));
            i += 1;
        }
        assert(cells.take(i as int) =~= cells);
    }

    /// Appends the line below `count` bars.
    fn append_baseline(out: &mut String, count: usize, gap: usize)
        ensures
            final(out)@ == old(out)@ + baseline(count as int, gap as int),
    {
        let ghost cells = repeated('=', count as int);
        let mut i: usize = 0;
        while i < count
            invariant
                i <= count,
                cells == repeated('=', count as int),
                out@ == old(out)@ + spaced(cells.take(i as int), '=', gap as int),
            decreases count - i,
        {
            proof {
                reveal_strlit("=");
            }
            if i > 0 {
                append_repeated(out, "=", gap);
            }
            out.append("=");
            assert(cells.take(i + 1).drop_last() =~= cells.take(i as int));
            i += 1;
        }
        assert(cells.take(i as int) =~= cells);
    }

    /// Doubles each quote of `s`.
    pub fn escape_csv(s: &str) -> (escaped: String)
        ensures
            escaped@ == escaped_csv(s@),
    {
        replace_char(s, '"', "\"\"")
    }

    /// Puts four spaces for each tab of `s` and one space for each line
    /// feed.
    pub fn escape_tsv(s: &str) -> (escaped: String)
        ensures
            escaped@ == escaped_tsv(s@),
    {
        let spaced = replace_char(s, '\t', "    ");
        replace_char(spaced.as_str(), '\n', " ")
    }

    /// Shortens `s` to a label of at most `max_len` bytes. A text that is
    /// too long is cut three bytes before the limit, which must not split a
    /// character, and gets three dots.
    pub fn truncate_label(s: &str, max_len: usize) -> (label: String)
        requires
            byte_len(s@) > max_len ==> is_char_boundary(encode_utf8(s@), label_cut(max_len)),
        ensures
            label@ == truncated_label(s@, max_len),
    {
        if s.len() <= max_len {
            String::from_str(s)
        } else {
            let keep: usize = if max_len >= 3 {
                max_len - 3
            } else {
                0
            };
            let (head, _) = s.split_at(keep);
            proof {
                encode_utf8_decode_utf8(head@);
            }
            String::from_str(head).concat("...")
        }
    }
}

/// The larger of two widths.
fn larger(a: usize, b: usize) -> (width: usize)
    ensures
        width == wider(a, b),
{
    if a >= b {
        a
    } else {
        b
    }
}

} // verus!
