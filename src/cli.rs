use vstd::prelude::*;

use crate::config::SearchConfig;

verus! {

/// The command-line arguments of a search.
#[derive(Debug)]
pub struct Args {
    /// Pattern to search for (a regular expression).
    pub pattern: String,
    /// Files or directories to search; standard input when empty.
    pub paths: Vec<String>,
    pub ignore_case: bool,
    pub line_number: bool,
    pub with_filename: bool,
    pub recursive: bool,
    /// Suppress notes about missing or unreadable sources.
    pub no_messages: bool,
    pub invert_match: bool,
    pub files_with_matches: bool,
    pub files_without_match: bool,
    pub count: bool,
    pub before_context: usize,
    pub after_context: usize,
    pub context: usize,
    pub max_count: Option<usize>,
    pub only_matching: bool,
    pub extended_regexp: bool,
    /// Color policy: `always`, `never` or `auto`.
    pub color: String,
}

impl Args {
    /// The search configuration these arguments ask for; `None` when both
    /// file-listing modes are asked for, which excludes each other.
    pub fn search_config(&self) -> (r: Option<SearchConfig>)
        ensures
            r is None <==> (self.files_with_matches && self.files_without_match),
            r matches Some(c) ==> c == (SearchConfig {
                pattern: self.pattern,
                ignore_case: self.ignore_case,
                line_number: self.line_number,
                with_filename: self.with_filename,
                invert_match: self.invert_match,
                files_with_matches: self.files_with_matches,
                files_without_match: self.files_without_match,
                count: self.count,
                before_context: self.before_context,
                after_context: self.after_context,
                context: self.context,
                max_count: self.max_count,
                only_matching: self.only_matching,
                extended_regexp: self.extended_regexp,
                color: self.color,
            }),
    {
        if self.files_with_matches && self.files_without_match {
            return None;
        }
        Some(
            SearchConfig::new(
                self.pattern.clone(),
                self.ignore_case,
                self.line_number,
                self.with_filename,
                self.invert_match,
                self.files_with_matches,
                self.files_without_match,
                self.count,
                self.before_context,
                self.after_context,
                self.context,
                self.max_count,
                self.only_matching,
                self.extended_regexp,
                self.color.clone(),
            ),
        )
    }
}

} // verus!
