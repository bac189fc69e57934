//! A line-oriented pattern search engine in the grep family.
//!
//! The library turns a compiled pattern, the lines of one source and a search
//! configuration into the exact records a grep-like tool prints: whole lines,
//! context lines, counts, file names or matched fragments.
//!
//! - [`pattern`] compiles the pattern and asks it about lines;
//! - [`select`] decides which lines are selected and which are shown as context;
//! - [`format`] writes single records;
//! - [`search`] produces the records of one source;
//! - [`run`] holds the decisions that span several sources.
pub mod cli;
pub mod config;
pub mod error;
pub mod format;
pub mod pattern;
pub mod run;
pub mod search;
pub mod select;
pub mod text;

pub use cli::Args;
pub use config::{OutputMode, SearchConfig};
pub use error::PergError;
pub use pattern::{use_colors, Matcher};
pub use search::{search_lines, MatchResult, SourceOutcome};
