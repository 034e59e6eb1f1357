//! Tools for analysing build logs and locating the line that explains a failure.
//!
//! The crate models a located match (`SingleLineMatch`, `MultiLineMatch`), helpers for
//! walking a log's lines, the rules that recognise failures in build logs, and the
//! detectors for apt, autopkgtest and Breezy output.

pub mod logmatch;
pub mod text;
pub mod lines;
pub mod pattern;
pub mod problem;
pub mod json;
pub mod autopkgtest;
pub mod autopkgtest_failure;
pub mod apt;
pub mod matcher;
pub mod template;
pub mod common;
pub mod tables;
pub mod llm;
pub mod cudf;
pub mod brz;
pub mod kinds;

pub use logmatch::{highlight_lines, Match, MultiLineMatch, Origin, SingleLineMatch};
pub use json::problem_from_json;
pub use problem::Problem;
