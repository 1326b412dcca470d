//! Elapsed time between pattern occurrences in a log.
//!
//! A log is read line by line. Each line that carries a timestamp and matches
//! one of the configured message patterns becomes a [`parser::LogMatch`];
//! [`analyzer::Analyzer::analyze`] turns consecutive matches into
//! [`analyzer::Interval`]s, and [`output::OutputFormatter`] writes them out.
//!
//! Regular expressions are compiled and matched by the `regex` crate
//! ([`pattern`]), timestamps are read and subtracted by `chrono` ([`time`]).
//! What these two answer is taken on trust; everything that is done with the
//! answers is verified.

pub mod analyzer;
pub mod config;
pub mod output;
pub mod parser;
pub mod pattern;
pub mod report;
pub mod search;
pub mod text;
pub mod time;
pub mod timestamp_formats;
