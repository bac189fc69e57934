use vstd::prelude::*;

verus! {

/// How the records of one source are produced.
#[derive(Debug, Clone, Copy, PartialEq, Eq, Structural)]
pub enum OutputMode {
    /// One record with the number of matching lines.
    Count,
    /// The source's name, when some line matched.
    FilesWithMatches,
    /// The source's name, when no line matched.
    FilesWithoutMatch,
    /// The matching lines themselves, with their context.
    Normal,
}

/// The settings of one search run.
#[derive(Debug, Clone)]
pub struct SearchConfig {
    pub pattern: String,
    pub ignore_case: bool,
    pub line_number: bool,
    pub with_filename: bool,
    pub invert_match: bool,
    pub files_with_matches: bool,
    pub files_without_match: bool,
    pub count: bool,
    pub before_context: usize,
    pub after_context: usize,
    pub context: usize,
    pub max_count: Option<usize>,
    pub only_matching: bool,
    pub extended_regexp: bool,
    pub color: String,
}

impl SearchConfig {
    pub fn new(
        pattern: String,
        ignore_case: bool,
        line_number: bool,
        with_filename: bool,
        invert_match: bool,
        files_with_matches: bool,
        files_without_match: bool,
        count: bool,
        before_context: usize,
        after_context: usize,
        context: usize,
        max_count: Option<usize>,
        only_matching: bool,
        extended_regexp: bool,
        color: String,
    ) -> (r: Self)
        ensures
            r.pattern == pattern,
            r.ignore_case == ignore_case,
            r.line_number == line_number,
            r.with_filename == with_filename,
            r.invert_match == invert_match,
            r.files_with_matches == files_with_matches,
            r.files_without_match == files_without_match,
            r.count == count,
            r.before_context == before_context,
            r.after_context == after_context,
            r.context == context,
            r.max_count == max_count,
            r.only_matching == only_matching,
            r.extended_regexp == extended_regexp,
            r.color == color,
    {
        SearchConfig {
            pattern,
            ignore_case,
            line_number,
            with_filename,
            invert_match,
            files_with_matches,
            files_without_match,
            count,
            before_context,
            after_context,
            context,
            max_count,
            only_matching,
            extended_regexp,
            color,
        }
    }

    /// The output mode; count wins over listing files with matches, which
    /// wins over listing files without a match.
    pub open spec fn spec_mode(&self) -> OutputMode {
        if self.count {
            OutputMode::Count
        } else if self.files_with_matches {
            OutputMode::FilesWithMatches
        } else if self.files_without_match {
            OutputMode::FilesWithoutMatch
        } else {
            OutputMode::Normal
        }
    }

    pub fn mode(&self) -> (r: OutputMode)
        ensures
            r == self.spec_mode(),
    {
        if self.count {
            OutputMode::Count
        } else if self.files_with_matches {
            OutputMode::FilesWithMatches
        } else if self.files_without_match {
            OutputMode::FilesWithoutMatch
        } else {
            OutputMode::Normal
        }
    }

    /// Lines of context before a match: the symmetric size when it is set.
    pub open spec fn spec_before(&self) -> usize {
        if self.context > 0 { self.context } else { self.before_context }
    }

    /// Lines of context after a match: the symmetric size when it is set.
    pub open spec fn spec_after(&self) -> usize {
        if self.context > 0 { self.context } else { self.after_context }
    }

    pub fn before(&self) -> (r: usize)
        ensures
            r == self.spec_before(),
    {
        if self.context > 0 { self.context } else { self.before_context }
    }

    pub fn after(&self) -> (r: usize)
        ensures
            r == self.spec_after(),
    {
        if self.context > 0 { self.context } else { self.after_context }
    }

    pub open spec fn spec_has_context(&self) -> bool {
        self.before_context > 0 || self.after_context > 0 || self.context > 0
    }

    /// Whether any context size is nonzero.
    pub fn has_context(&self) -> (r: bool)
        ensures
            r == self.spec_has_context(),
    {
        self.before_context > 0 || self.after_context > 0 || self.context > 0
    }

    /// The configuration for each of `n_sources` sources.
    pub open spec fn spec_for_sources(&self, n_sources: nat) -> SearchConfig {
        SearchConfig { with_filename: self.with_filename || n_sources > 1, ..*self }
    }

    /// The configuration used for each of `n_sources` sources: file names are
    /// shown whenever there is more than one source, and otherwise as asked.
    pub fn for_sources(&self, n_sources: usize) -> (r: SearchConfig)
        ensures
            r == self.spec_for_sources(n_sources as nat),
    {
        SearchConfig {
            pattern: self.pattern.clone(),
            ignore_case: self.ignore_case,
            line_number: self.line_number,
            with_filename: self.with_filename || n_sources > 1,
            invert_match: self.invert_match,
            files_with_matches: self.files_with_matches,
            files_without_match: self.files_without_match,
            count: self.count,
            before_context: self.before_context,
            after_context: self.after_context,
            context: self.context,
            max_count: self.max_count,
            only_matching: self.only_matching,
            extended_regexp: self.extended_regexp,
            color: self.color.clone(),
        }
    }
}

} // verus!
