//! The built-in timestamp formats that automatic detection tries.
//!
//! The table is ordered: detection walks it from the top and stops at the
//! first entry that yields a timestamp, so an entry shadows every later one
//! that could read the same text.

use vstd::prelude::*;

verus! {

/// One way of writing a timestamp.
#[derive(Debug, Clone, Copy)]
pub struct TimestampFormat {
    /// Name of the format, for diagnostics.
    pub name: &'static str,
    /// Regular expression whose first capture group delimits the timestamp.
    pub regex: &'static str,
    /// Format string by which the captured text is read.
    pub format: &'static str,
    /// A timestamp written in this format.
    pub example: &'static str,
}

/// Number of built-in formats.
pub const BUILTIN_FORMAT_COUNT: usize = 17;

/// The built-in formats, in the order in which detection tries them.
pub open spec fn builtin_formats() -> Seq<TimestampFormat> {
    seq![
        TimestampFormat {
            name: "ISO 8601 with timezone",
            regex: r"(\d{4}-\d{2}-\d{2}T\d{2}:\d{2}:\d{2}(?:\.\d+)?(?:Z|[+-]\d{2}:\d{2}))",
            format: "%Y-%m-%dT%H:%M:%S%.f%:z",
            example: "2025-11-13T10:00:00.123+00:00",
        },
        TimestampFormat {
            name: "ISO 8601 without timezone",
            regex: r"(\d{4}-\d{2}-\d{2}T\d{2}:\d{2}:\d{2}(?:\.\d+)?)",
            format: "%Y-%m-%dT%H:%M:%S%.f",
            example: "2025-11-13T10:00:00.123",
        },
        TimestampFormat {
            name: "RFC 3339",
            regex: r"(\d{4}-\d{2}-\d{2} \d{2}:\d{2}:\d{2}(?:\.\d+)?(?:Z|[+-]\d{2}:\d{2})?)",
            format: "%Y-%m-%d %H:%M:%S%.f%:z",
            example: "2025-11-13 10:00:00.123+00:00",
        },
        TimestampFormat {
            name: "Common log format (YYYY-MM-DD HH:MM:SS)",
            regex: r"(\d{4}-\d{2}-\d{2} \d{2}:\d{2}:\d{2})",
            format: "%Y-%m-%d %H:%M:%S",
            example: "2025-11-13 10:00:00",
        },
        TimestampFormat {
            name: "Common log format with milliseconds",
            regex: r"(\d{4}-\d{2}-\d{2} \d{2}:\d{2}:\d{2}\.\d{3})",
            format: "%Y-%m-%d %H:%M:%S%.3f",
            example: "2025-11-13 10:00:00.123",
        },
        TimestampFormat {
            name: "Apache/Nginx common log format",
            regex: r"\[(\d{2}/[A-Za-z]{3}/\d{4}:\d{2}:\d{2}:\d{2} [+-]\d{4})\]",
            format: "%d/%b/%Y:%H:%M:%S %z",
            example: "[13/Nov/2025:10:00:00 +0000]",
        },
        TimestampFormat {
            name: "Syslog format (RFC 3164)",
            regex: r"([A-Za-z]{3}\s+\d{1,2} \d{2}:\d{2}:\d{2})",
            format: "%b %d %H:%M:%S",
            example: "Nov 13 10:00:00",
        },
        TimestampFormat {
            name: "Syslog format (RFC 5424)",
            regex: r"(\d{4}-\d{2}-\d{2}T\d{2}:\d{2}:\d{2}(?:\.\d+)?(?:Z|[+-]\d{2}:\d{2}))",
            format: "%Y-%m-%dT%H:%M:%S%.f%:z",
            example: "2025-11-13T10:00:00.123+00:00",
        },
        TimestampFormat {
            name: "Windows Event Log format",
            regex: r"(\d{1,2}/\d{1,2}/\d{4} \d{1,2}:\d{2}:\d{2} (?:AM|PM))",
            format: "%m/%d/%Y %I:%M:%S %p",
            example: "11/13/2025 10:00:00 AM",
        },
        TimestampFormat {
            name: "Unix timestamp (seconds)",
            regex: r"\b(\d{10})\b",
            format: "%s",
            example: "1699876800",
        },
        TimestampFormat {
            name: "Unix timestamp (milliseconds)",
            regex: r"\b(\d{13})\b",
            format: "%s%.3f",
            example: "1699876800123",
        },
        TimestampFormat {
            name: "US date format with time",
            regex: r"(\d{1,2}/\d{1,2}/\d{4} \d{2}:\d{2}:\d{2})",
            format: "%m/%d/%Y %H:%M:%S",
            example: "11/13/2025 10:00:00",
        },
        TimestampFormat {
            name: "European date format with time",
            regex: r"(\d{1,2}\.\d{1,2}\.\d{4} \d{2}:\d{2}:\d{2})",
            format: "%d.%m.%Y %H:%M:%S",
            example: "13.11.2025 10:00:00",
        },
        TimestampFormat {
            name: "Java log format",
            regex: r"(\d{4}-\d{2}-\d{2} \d{2}:\d{2}:\d{2},\d{3})",
            format: "%Y-%m-%d %H:%M:%S,%3f",
            example: "2025-11-13 10:00:00,123",
        },
        TimestampFormat {
            name: "Python logging format",
            regex: r"(\d{4}-\d{2}-\d{2} \d{2}:\d{2}:\d{2},\d{3})",
            format: "%Y-%m-%d %H:%M:%S,%3f",
            example: "2025-11-13 10:00:00,123",
        },
        TimestampFormat {
            name: "Compact format (YYYYMMDD_HHMMSS)",
            regex: r"(\d{8}_\d{6})",
            format: "%Y%m%d_%H%M%S",
            example: "20251113_100000",
        },
        TimestampFormat {
            name: "Compact format with milliseconds",
            regex: r"(\d{8}_\d{6}\.\d{3})",
            format: "%Y%m%d_%H%M%S%.3f",
            example: "20251113_100000.123",
        },
    ]
}

/// Get all built-in timestamp formats, in detection order.
pub fn get_builtin_formats() -> (formats: Vec<TimestampFormat>)
    ensures
        formats@ == builtin_formats(),
        formats@.len() == BUILTIN_FORMAT_COUNT,
{
    let formats = vec![
        TimestampFormat {
            name: "ISO 8601 with timezone",
            regex: r"(\d{4}-\d{2}-\d{2}T\d{2}:\d{2}:\d{2}(?:\.\d+)?(?:Z|[+-]\d{2}:\d{2}))",
            format: "%Y-%m-%dT%H:%M:%S%.f%:z",
            example: "2025-11-13T10:00:00.123+00:00",
        },
        TimestampFormat {
            name: "ISO 8601 without timezone",
            regex: r"(\d{4}-\d{2}-\d{2}T\d{2}:\d{2}:\d{2}(?:\.\d+)?)",
            format: "%Y-%m-%dT%H:%M:%S%.f",
            example: "2025-11-13T10:00:00.123",
        },
        TimestampFormat {
            name: "RFC 3339",
            regex: r"(\d{4}-\d{2}-\d{2} \d{2}:\d{2}:\d{2}(?:\.\d+)?(?:Z|[+-]\d{2}:\d{2})?)",
            format: "%Y-%m-%d %H:%M:%S%.f%:z",
            example: "2025-11-13 10:00:00.123+00:00",
        },
        TimestampFormat {
            name: "Common log format (YYYY-MM-DD HH:MM:SS)",
            regex: r"(\d{4}-\d{2}-\d{2} \d{2}:\d{2}:\d{2})",
            format: "%Y-%m-%d %H:%M:%S",
            example: "2025-11-13 10:00:00",
        },
        TimestampFormat {
            name: "Common log format with milliseconds",
            regex: r"(\d{4}-\d{2}-\d{2} \d{2}:\d{2}:\d{2}\.\d{3})",
            format: "%Y-%m-%d %H:%M:%S%.3f",
            example: "2025-11-13 10:00:00.123",
        },
        TimestampFormat {
            name: "Apache/Nginx common log format",
            regex: r"\[(\d{2}/[A-Za-z]{3}/\d{4}:\d{2}:\d{2}:\d{2} [+-]\d{4})\]",
            format: "%d/%b/%Y:%H:%M:%S %z",
            example: "[13/Nov/2025:10:00:00 +0000]",
        },
        TimestampFormat {
            name: "Syslog format (RFC 3164)",
            regex: r"([A-Za-z]{3}\s+\d{1,2} \d{2}:\d{2}:\d{2})",
            format: "%b %d %H:%M:%S",
            example: "Nov 13 10:00:00",
        },
        TimestampFormat {
            name: "Syslog format (RFC 5424)",
            regex: r"(\d{4}-\d{2}-\d{2}T\d{2}:\d{2}:\d{2}(?:\.\d+)?(?:Z|[+-]\d{2}:\d{2}))",
            format: "%Y-%m-%dT%H:%M:%S%.f%:z",
            example: "2025-11-13T10:00:00.123+00:00",
        },
        TimestampFormat {
            name: "Windows Event Log format",
            regex: r"(\d{1,2}/\d{1,2}/\d{4} \d{1,2}:\d{2}:\d{2} (?:AM|PM))",
            format: "%m/%d/%Y %I:%M:%S %p",
            example: "11/13/2025 10:00:00 AM",
        },
        TimestampFormat {
            name: "Unix timestamp (seconds)",
            regex: r"\b(\d{10})\b",
            format: "%s",
            example: "1699876800",
        },
        TimestampFormat {
            name: "Unix timestamp (milliseconds)",
            regex: r"\b(\d{13})\b",
            format: "%s%.3f",
            example: "1699876800123",
        },
        TimestampFormat {
            name: "US date format with time",
            regex: r"(\d{1,2}/\d{1,2}/\d{4} \d{2}:\d{2}:\d{2})",
            format: "%m/%d/%Y %H:%M:%S",
            example: "11/13/2025 10:00:00",
        },
        TimestampFormat {
            name: "European date format with time",
            regex: r"(\d{1,2}\.\d{1,2}\.\d{4} \d{2}:\d{2}:\d{2})",
            format: "%d.%m.%Y %H:%M:%S",
            example: "13.11.2025 10:00:00",
        },
        TimestampFormat {
            name: "Java log format",
            regex: r"(\d{4}-\d{2}-\d{2} \d{2}:\d{2}:\d{2},\d{3})",
            format: "%Y-%m-%d %H:%M:%S,%3f",
            example: "2025-11-13 10:00:00,123",
        },
        TimestampFormat {
            name: "Python logging format",
            regex: r"(\d{4}-\d{2}-\d{2} \d{2}:\d{2}:\d{2},\d{3})",
            format: "%Y-%m-%d %H:%M:%S,%3f",
            example: "2025-11-13 10:00:00,123",
        },
        TimestampFormat {
            name: "Compact format (YYYYMMDD_HHMMSS)",
            regex: r"(\d{8}_\d{6})",
            format: "%Y%m%d_%H%M%S",
            example: "20251113_100000",
        },
        TimestampFormat {
            name: "Compact format with milliseconds",
            regex: r"(\d{8}_\d{6}\.\d{3})",
            format: "%Y%m%d_%H%M%S%.3f",
            example: "20251113_100000.123",
        },
    ];
    formats
}

} // verus!
