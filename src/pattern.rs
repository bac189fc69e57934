use vstd::prelude::*;

use crate::error::PergError;

verus! {

#[verifier::external_type_specification]
#[verifier::external_body]
pub struct ExRegex(regex::Regex);

#[verifier::external_type_specification]
#[verifier::external_body]
pub struct ExRegexError(regex::Error);

/// Whether `pattern` is accepted by the regular-expression engine.
pub uninterp spec fn pattern_compiles(pattern: Seq<char>) -> bool;

/// Whether the compiled `pattern` matches somewhere in `line`.
pub uninterp spec fn line_matches(pattern: Seq<char>, line: Seq<char>) -> bool;

/// The successive non-overlapping matches of `pattern` in `line`, leftmost first.
pub uninterp spec fn occurrences(pattern: Seq<char>, line: Seq<char>) -> Seq<Seq<char>>;

/// `line` with every match of `pattern` replaced by its highlighted form.
pub uninterp spec fn highlighted(pattern: Seq<char>, line: Seq<char>) -> Seq<char>;

/// The inline flag that turns on case-insensitive matching.
pub open spec fn case_fold_flag() -> Seq<char> {
    seq!['(', '?', 'i', ')']
}

/// The expression actually compiled for a pattern text and a case flag.
pub open spec fn effective_pattern(pattern: Seq<char>, ignore_case: bool) -> Seq<char> {
    if ignore_case {
        case_fold_flag() + pattern
    } else {
        pattern
    }
}

/// The escape sequences that open (red, then bold) and close a highlighted span.
pub open spec fn paint_open() -> Seq<char> {
    seq!['\x1b', '[', '3', '1', 'm', '\x1b', '[', '1', 'm']
}

pub open spec fn paint_close() -> Seq<char> {
    seq!['\x1b', '[', '0', 'm']
}

/// A compiled pattern together with the expression it was compiled from.
pub struct Matcher {
    regex: regex::Regex,
    text: String,
}

/// Relies on regex::Regex::new: it succeeds exactly on the expressions the
/// engine accepts, which depends on the expression alone.
#[verifier::external_body]
fn compile_regex(text: &str) -> (r: Result<regex::Regex, regex::Error>)
    ensures
        r is Ok <==> pattern_compiles(text@),
{
    regex::Regex::new(text)
}

/// Relies on regex::Regex::is_match: whether the expression matches anywhere
/// in the line. `m.regex` is always compiled from `m.text`.
#[verifier::external_body]
fn regex_is_match(m: &Matcher, line: &str) -> (r: bool)
    ensures
        r == line_matches(m.text@, line@),
{
    m.regex.is_match(line)
}

/// Relies on regex::Regex::find_iter: the text of each successive
/// non-overlapping match.
#[verifier::external_body]
fn regex_find_all(m: &Matcher, line: &str) -> (r: Vec<String>)
    ensures
        r.deep_view() == occurrences(m.text@, line@),
{
    m.regex.find_iter(line).map(|found| found.as_str().to_string()).collect()
}

/// Relies on regex::Regex::replace_all: each match is replaced by what
/// `paint` makes of it, the text between matches is kept.
#[verifier::external_body]
fn regex_highlight(m: &Matcher, line: &str) -> (r: String)
    ensures
        r@ == highlighted(m.text@, line@),
{
    m.regex.replace_all(line, |caps: &regex::Captures| paint(&caps[0])).to_string()
}

/// Relies on console::style with red, bold and forced styling: the text
/// between the red and bold escape codes and the reset code.
#[verifier::external_body]
fn styled_red_bold(s: &str) -> (r: String)
    ensures
        r@ == paint_open() + s@ + paint_close(),
{
    console::style(s).red().bold().force_styling(true).to_string()
}

/// Relies on console::colors_enabled: whether the terminal behind standard
/// output takes colors. It depends on the environment.
#[verifier::external_body]
fn terminal_colors_enabled() -> (r: bool)
{
    console::colors_enabled()
}

/// Wraps `s` in the escape codes of a red, bold span.
pub fn paint(s: &str) -> (r: String)
    ensures
        r@ == paint_open() + s@ + paint_close(),
{
    styled_red_bold(s)
}

impl Matcher {
    /// The expression this matcher was compiled from.
    pub closed spec fn pattern(&self) -> Seq<char> {
        self.text@
    }

    /// Compiles `pattern`, folding case when `ignore_case` is set by the
    /// engine's inline case-insensitivity flag rather than by lowering text.
    pub fn new(pattern: &str, ignore_case: bool) -> (r: Result<Matcher, PergError>)
        ensures
            r is Ok <==> pattern_compiles(effective_pattern(pattern@, ignore_case)),
            r matches Ok(m) ==> m.pattern() == effective_pattern(pattern@, ignore_case),
            r matches Err(e) ==> e is Regex,
    {
        let text = if ignore_case {
            let mut t = String::from_str("(?i)");
            proof {
                reveal_strlit("(?i)");
                assert("(?i)"@ =~= case_fold_flag());
            }
            t.append(pattern);
            t
        } else {
            String::from_str(pattern)
        };
        match compile_regex(text.as_str()) {
            Ok(regex) => Ok(Matcher { regex, text }),
            Err(e) => Err(PergError::Regex(e)),
        }
    }

    /// Whether the pattern matches somewhere in `line`.
    pub fn is_match(&self, line: &str) -> (r: bool)
        ensures
            r == line_matches(self.pattern(), line@),
    {
        regex_is_match(self, line)
    }

    /// The text of each non-overlapping match in `line`, leftmost first.
    pub fn find_all(&self, line: &str) -> (r: Vec<String>)
        ensures
            r.deep_view() == occurrences(self.pattern(), line@),
    {
        regex_find_all(self, line)
    }

    /// `line` with every match painted red and bold.
    pub fn highlight(&self, line: &str) -> (r: String)
        ensures
            r@ == highlighted(self.pattern(), line@),
    {
        regex_highlight(self, line)
    }
}

/// Resolves a color policy: `always` turns colors on, `never` turns them off,
/// and anything else (`auto`) asks whether standard output takes colors.
pub fn use_colors(color_option: &str) -> (r: bool)
    ensures
        color_option@ == "always"@ ==> r,
        color_option@ == "never"@ ==> !r,
{
    let option = String::from_str(color_option);
    proof {
        reveal_strlit("always");
        reveal_strlit("never");
        assert("always"@[0] != "never"@[0]);
    }
    if option == String::from_str("always") {
        true
    } else if option == String::from_str("never") {
        false
    } else {
        terminal_colors_enabled()
    }
}

} // verus!
