use vstd::prelude::*;

use crate::config::SearchConfig;
use crate::text::{decimal, decimal_string};

verus! {

/// Separator after each prefix of a match line.
pub open spec fn match_sep() -> char {
    ':'
}

/// Separator after each prefix of a context line.
pub open spec fn context_sep() -> char {
    '-'
}

/// `text` followed by `sep` when `shown`, nothing otherwise.
pub open spec fn prefix_part(shown: bool, text: Seq<char>, sep: char) -> Seq<char> {
    if shown {
        text.push(sep)
    } else {
        seq![]
    }
}

/// A record of a named source: `[file<sep>][number<sep>]line`.
pub open spec fn file_record(
    cfg: SearchConfig,
    file: Seq<char>,
    line_number: nat,
    line: Seq<char>,
    sep: char,
) -> Seq<char> {
    prefix_part(cfg.with_filename, file, sep) + prefix_part(cfg.line_number, decimal(line_number), sep)
        + line
}

/// A record of standard input, which has no name: `[number<sep>]line`.
pub open spec fn stdin_record(cfg: SearchConfig, line_number: nat, line: Seq<char>, sep: char) -> Seq<char> {
    prefix_part(cfg.line_number, decimal(line_number), sep) + line
}

fn sep_str(is_match: bool) -> (r: &'static str)
    ensures
        r@ == seq![if is_match { match_sep() } else { context_sep() }],
{
    proof {
        reveal_strlit(":");
        reveal_strlit("-");
    }
    if is_match { ":" } else { "-" }
}

pub(crate) fn compose(
    show_file: bool,
    file: &str,
    show_number: bool,
    line_number: usize,
    line: &str,
    is_match: bool,
) -> (r: String)
    ensures
        r@ == prefix_part(show_file, file@, if is_match { match_sep() } else { context_sep() })
            + prefix_part(show_number, decimal(line_number as nat), if is_match { match_sep() } else { context_sep() })
            + line@,
{
    let sep = sep_str(is_match);
    let mut output = String::new();
    if show_file {
        output.append(file);
        output.append(sep);
    }
    if show_number {
        let digits = decimal_string(line_number);
        output.append(digits.as_str());
        output.append(sep);
    }
    output.append(line);
    assert(output@ =~= prefix_part(show_file, file@, if is_match { match_sep() } else { context_sep() })
        + prefix_part(show_number, decimal(line_number as nat), if is_match { match_sep() } else { context_sep() })
        + line@);
    output
}

/// Formats a matching line of a named source.
pub fn format_match(config: &SearchConfig, file_path: &str, line_number: usize, line: &str) -> (r: String)
    ensures
        r@ == file_record(*config, file_path@, line_number as nat, line@, match_sep()),
{
    compose(config.with_filename, file_path, config.line_number, line_number, line, true)
}

/// Formats a matching line of a named source whose content may have been
/// decorated (highlighted) beforehand.
pub fn format_match_with_content(
    config: &SearchConfig,
    file_path: &str,
    line_number: usize,
    line: &str,
) -> (r: String)
    ensures
        r@ == file_record(*config, file_path@, line_number as nat, line@, match_sep()),
{
    compose(config.with_filename, file_path, config.line_number, line_number, line, true)
}

/// Formats a matching line of standard input.
pub fn format_line(config: &SearchConfig, line_number: usize, line: &str) -> (r: String)
    ensures
        r@ == stdin_record(*config, line_number as nat, line@, match_sep()),
{
    compose(false, "", config.line_number, line_number, line, true)
}

/// Formats a matching line of standard input whose content may have been
/// decorated beforehand.
pub fn format_line_with_content(config: &SearchConfig, line_number: usize, line: &str) -> (r: String)
    ensures
        r@ == stdin_record(*config, line_number as nat, line@, match_sep()),
{
    compose(false, "", config.line_number, line_number, line, true)
}

/// Formats a context line of a named source.
pub fn format_context_line(
    config: &SearchConfig,
    file_path: &str,
    line_number: usize,
    line: &str,
) -> (r: String)
    ensures
        r@ == file_record(*config, file_path@, line_number as nat, line@, context_sep()),
{
    compose(config.with_filename, file_path, config.line_number, line_number, line, false)
}

/// Formats a context line of standard input.
pub fn format_context_line_stdin(config: &SearchConfig, line_number: usize, line: &str) -> (r: String)
    ensures
        r@ == stdin_record(*config, line_number as nat, line@, context_sep()),
{
    compose(false, "", config.line_number, line_number, line, false)
}

} // verus!
