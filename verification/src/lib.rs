//! A line-matching library: it turns input sources (standard input, one
//! file, many files) into a uniform sequence of labeled line records, tests
//! each line against a single compiled pattern, and decides what a matching
//! line's rendered output looks like.
//!
//! File and terminal I/O, argument parsing and the worker thread live in the
//! surrounding application; this crate holds the verified decisions: line
//! numbering and labeling, the UTF-8 probe, match-span handling and output
//! layout.

pub mod config;
pub mod line_grep;
pub mod line_src;
pub mod present;
