use perg::format::{
    format_context_line, format_context_line_stdin, format_line, format_line_with_content,
    format_match, format_match_with_content,
};
use perg::pattern::paint;
use perg::run::{
    directory_note, exit_code, failure_note, missing_note, plan_path, separator_after,
    separator_record, PathAction, PathKind,
};
use perg::search::search_lines;
use perg::select::{context_range, count_selected, select_lines};
use perg::text::decimal_string;
use perg::{Args, Matcher, OutputMode, PergError, SearchConfig};

const POEM: &str = "Title\nhello world\nhi world\nbye world\nend of file";

struct Options {
    pattern: &'static str,
    ignore_case: bool,
    line_number: bool,
    with_filename: bool,
    invert_match: bool,
    files_with_matches: bool,
    files_without_match: bool,
    count: bool,
    before: usize,
    after: usize,
    context: usize,
    max_count: Option<usize>,
    only_matching: bool,
}

fn options(pattern: &'static str) -> Options {
    Options {
        pattern,
        ignore_case: false,
        line_number: false,
        with_filename: false,
        invert_match: false,
        files_with_matches: false,
        files_without_match: false,
        count: false,
        before: 0,
        after: 0,
        context: 0,
        max_count: None,
        only_matching: false,
    }
}

fn build(o: &Options) -> SearchConfig {
    SearchConfig::new(
        o.pattern.to_string(),
        o.ignore_case,
        o.line_number,
        o.with_filename,
        o.invert_match,
        o.files_with_matches,
        o.files_without_match,
        o.count,
        o.before,
        o.after,
        o.context,
        o.max_count,
        o.only_matching,
        false,
        "never".to_string(),
    )
}

fn lines_of(content: &str) -> Vec<String> {
    content.lines().map(String::from).collect()
}

fn joined(records: &[String]) -> String {
    let mut out = String::new();
    for r in records {
        out.push_str(r);
        out.push('\n');
    }
    out
}

fn run(o: &Options, source: Option<&str>, content: &str) -> String {
    let config = build(o);
    let matcher = Matcher::new(&config.pattern, config.ignore_case).unwrap();
    let outcome = search_lines(&config, &matcher, source, &lines_of(content), false);
    joined(&outcome.records)
}

#[test]
fn scenario_plain_pattern_output_is_exact() {
    assert_eq!(run(&options("h"), Some("poem.txt"), POEM), "hello world\nhi world\n");
}

#[test]
fn scenario_case_insensitive_output_is_exact() {
    let mut o = options("t");
    o.ignore_case = true;
    assert_eq!(run(&o, Some("poem.txt"), POEM), "Title\n");
}

#[test]
fn scenario_line_numbers_in_order() {
    let mut o = options("world");
    o.line_number = true;
    assert_eq!(run(&o, Some("poem.txt"), POEM), "2:hello world\n3:hi world\n4:bye world\n");
}

#[test]
fn scenario_invert_output_is_exact() {
    let mut o = options("world");
    o.invert_match = true;
    let out = run(&o, Some("poem.txt"), POEM);
    assert_eq!(out, "Title\nend of file\n");
    assert!(!out.contains("world"));
}

#[test]
fn scenario_invalid_pattern_is_a_regex_error() {
    let result = Matcher::new("[invalid", false);
    assert!(result.is_err());
    let err = result.err().unwrap();
    assert!(matches!(err, PergError::Regex(_)));
    assert!(err.message().contains("Regex error"));
    assert_eq!(err.exit_status(), 2);
    assert!(err.is_fatal());
}

#[test]
fn scenario_missing_source_is_not_found() {
    let note = missing_note("nonexistent_file.txt");
    assert_eq!(note, "nonexistent_file.txt: No such file or directory");
    let err = PergError::FileNotFound("nonexistent_file.txt".to_string());
    assert_eq!(err.message(), "File not found: nonexistent_file.txt");
    assert_eq!(err.exit_status(), 1);
    assert!(err.is_fatal());
    assert_eq!(exit_code(&Err(err)), 1);
    assert_eq!(exit_code(&Ok(())), 0);
}

#[test]
fn invert_selection_is_the_complement() {
    let matcher = Matcher::new("world", false).unwrap();
    let lines = lines_of(POEM);
    let plain = select_lines(&matcher, &lines, false);
    let inverted = select_lines(&matcher, &lines, true);
    assert_eq!(plain, vec![false, true, true, true, false]);
    for i in 0..lines.len() {
        assert_eq!(plain[i], !inverted[i]);
    }
    assert_eq!(count_selected(&plain), 3);
    assert_eq!(count_selected(&inverted), 2);
}

#[test]
fn context_windows_merge_without_duplicates() {
    // matches at 1 and 2, one line after each: line 2 is both context and
    // match and appears once, as a match
    let flags = vec![false, true, true, false, false];
    let range = context_range(&flags, 0, 1);
    assert_eq!(range, vec![(1, true), (2, true), (3, false)]);
}

#[test]
fn context_windows_clamp_at_the_edges() {
    let flags = vec![true, false, false, false, true];
    let range = context_range(&flags, 2, 2);
    assert_eq!(range, vec![(0, true), (1, false), (2, false), (3, false), (4, true)]);
    let flags = vec![false, false, true, false, false, false, false];
    assert_eq!(context_range(&flags, 1, 1), vec![(1, false), (2, true), (3, false)]);
    assert_eq!(context_range(&[false; 3].to_vec(), 5, 5), vec![]);
    assert_eq!(context_range(&Vec::new(), 1, 1), vec![]);
}

#[test]
fn context_lines_use_dashes() {
    let mut o = options("hi");
    o.context = 1;
    o.line_number = true;
    o.with_filename = true;
    assert_eq!(
        run(&o, Some("poem.txt"), POEM),
        "poem.txt-2-hello world\npoem.txt:3:hi world\npoem.txt-4-bye world\n"
    );
}

#[test]
fn symmetric_context_overrides_directional() {
    let mut o = options("hi");
    o.before = 2;
    o.after = 0;
    o.context = 1;
    assert_eq!(run(&o, None, POEM), "hello world\nhi world\nbye world\n");
    let config = build(&o);
    assert_eq!(config.before(), 1);
    assert_eq!(config.after(), 1);
}

#[test]
fn max_count_stops_at_the_limit() {
    let mut o = options("world");
    o.max_count = Some(2);
    assert_eq!(run(&o, None, POEM), "hello world\nhi world\n");
    o.max_count = Some(0);
    assert_eq!(run(&o, None, POEM), "");
}

#[test]
fn max_count_keeps_trailing_context_of_the_last_match() {
    let mut o = options("world");
    o.max_count = Some(1);
    o.after = 1;
    // the second match ends the output, its window goes with it
    assert_eq!(run(&o, None, POEM), "hello world\n");
    let mut o = options("hello|end");
    o.max_count = Some(1);
    o.after = 1;
    assert_eq!(run(&o, None, POEM), "hello world\nhi world\n");
}

#[test]
fn count_mode_ignores_max_count() {
    let mut o = options("world");
    o.count = true;
    o.max_count = Some(1);
    assert_eq!(run(&o, Some("poem.txt"), POEM), "3\n");
    o.with_filename = true;
    assert_eq!(run(&o, Some("poem.txt"), POEM), "poem.txt:3\n");
    o.invert_match = true;
    assert_eq!(run(&o, None, POEM), "2\n");
}

#[test]
fn count_wins_over_file_listing() {
    let mut o = options("world");
    o.count = true;
    o.files_with_matches = true;
    assert_eq!(build(&o).mode(), OutputMode::Count);
    assert_eq!(run(&o, Some("poem.txt"), POEM), "3\n");
}

#[test]
fn files_with_matches_lists_matching_sources() {
    let mut o = options("world");
    o.files_with_matches = true;
    assert_eq!(run(&o, Some("file1.txt"), "hello world"), "file1.txt\n");
    assert_eq!(run(&o, Some("file2.txt"), "no matches"), "");
    assert_eq!(run(&o, None, "hello world"), "");
}

#[test]
fn files_without_match_lists_other_sources() {
    let mut o = options("world");
    o.files_without_match = true;
    assert_eq!(run(&o, Some("file1.txt"), "hello world"), "");
    assert_eq!(run(&o, Some("file2.txt"), "no matches"), "file2.txt\n");
    assert_eq!(build(&o).mode(), OutputMode::FilesWithoutMatch);
}

#[test]
fn only_matching_prints_each_occurrence() {
    let mut o = options("o.");
    o.only_matching = true;
    o.line_number = true;
    assert_eq!(run(&o, Some("poem.txt"), "foo bar\nzzz\nboat oat"), "oo\noa\noa\n");
}

#[test]
fn no_match_gives_no_output() {
    let config = build(&options("nonexistent"));
    let matcher = Matcher::new(&config.pattern, false).unwrap();
    let outcome = search_lines(&config, &matcher, Some("test.txt"), &lines_of("hello world"), false);
    assert!(!outcome.has_matches);
    assert_eq!(outcome.match_count, 0);
    assert!(outcome.records.is_empty());
}

#[test]
fn empty_source_has_no_matches() {
    let mut o = options("x");
    o.files_without_match = true;
    assert_eq!(run(&o, Some("dir"), ""), "dir\n");
}

#[test]
fn standard_input_is_never_named() {
    let mut o = options("world");
    o.with_filename = true;
    o.line_number = true;
    assert_eq!(run(&o, None, POEM), "2:hello world\n3:hi world\n4:bye world\n");
}

#[test]
fn several_sources_force_file_names() {
    let o = options("world");
    let config = build(&o);
    let single = config.for_sources(1);
    assert!(!single.with_filename);
    let many = config.for_sources(2);
    assert!(many.with_filename);
    let matcher = Matcher::new("world", false).unwrap();
    let outcome = search_lines(&many, &matcher, Some("a.txt"), &lines_of(POEM), false);
    assert_eq!(joined(&outcome.records), "a.txt:hello world\na.txt:hi world\na.txt:bye world\n");
    let outcome = search_lines(&single, &matcher, Some("a.txt"), &lines_of(POEM), false);
    assert_eq!(joined(&outcome.records), "hello world\nhi world\nbye world\n");
}

#[test]
fn separator_only_between_sources_with_context() {
    let mut o = options("x");
    assert!(!separator_after(&build(&o), 0, 2));
    o.after = 1;
    let config = build(&o);
    assert!(separator_after(&config, 0, 2));
    assert!(!separator_after(&config, 1, 2));
    assert!(!separator_after(&config, 0, 1));
    assert_eq!(separator_record(), "--");
}

#[test]
fn highlighting_paints_each_match() {
    let config = build(&options("o"));
    let matcher = Matcher::new("o", false).unwrap();
    let outcome = search_lines(&config, &matcher, None, &lines_of("foo\nbar"), true);
    assert_eq!(outcome.records, vec!["f\x1b[31m\x1b[1mo\x1b[0m\x1b[31m\x1b[1mo\x1b[0m".to_string()]);
    assert_eq!(matcher.highlight("bar"), "bar");
}

#[test]
fn paint_wraps_in_red_and_bold() {
    assert_eq!(paint("hit"), "\x1b[31m\x1b[1mhit\x1b[0m");
}

#[test]
fn matcher_folds_case_with_inline_flag() {
    let m = Matcher::new("hello", true).unwrap();
    assert!(m.is_match("HELLO WORLD"));
    let m = Matcher::new("hello", false).unwrap();
    assert!(!m.is_match("HELLO WORLD"));
    assert_eq!(m.find_all("hello hello"), vec!["hello".to_string(), "hello".to_string()]);
}

#[test]
fn decimal_numbers() {
    assert_eq!(decimal_string(0), "0");
    assert_eq!(decimal_string(7), "7");
    assert_eq!(decimal_string(10), "10");
    assert_eq!(decimal_string(4096), "4096");
    assert_eq!(decimal_string(usize::MAX), usize::MAX.to_string());
}

#[test]
fn record_formats() {
    let mut o = options("x");
    o.line_number = true;
    o.with_filename = true;
    let c = build(&o);
    assert_eq!(format_match(&c, "f.txt", 12, "abc"), "f.txt:12:abc");
    assert_eq!(format_match_with_content(&c, "f.txt", 3, "abc"), "f.txt:3:abc");
    assert_eq!(format_context_line(&c, "f.txt", 3, "abc"), "f.txt-3-abc");
    assert_eq!(format_line(&c, 5, "abc"), "5:abc");
    assert_eq!(format_line_with_content(&c, 5, "abc"), "5:abc");
    assert_eq!(format_context_line_stdin(&c, 5, "abc"), "5-abc");
    o.line_number = false;
    o.with_filename = false;
    let c = build(&o);
    assert_eq!(format_match(&c, "f.txt", 12, "abc"), "abc");
    assert_eq!(format_context_line(&c, "f.txt", 12, "abc"), "abc");
}

#[test]
fn path_plans() {
    let mut o = options("x");
    let c = build(&o);
    assert_eq!(plan_path(&c, PathKind::File, false), PathAction::Search);
    assert_eq!(plan_path(&c, PathKind::Missing, true), PathAction::Missing);
    assert_eq!(plan_path(&c, PathKind::Directory, true), PathAction::Walk);
    assert_eq!(plan_path(&c, PathKind::Directory, false), PathAction::SkipDirectory);
    o.files_without_match = true;
    let c = build(&o);
    assert_eq!(plan_path(&c, PathKind::Directory, false), PathAction::ListDirectory);
    assert_eq!(directory_note("src"), "src: Is a directory");
}

#[test]
fn failure_notes_and_statuses() {
    let err = PergError::Io("broken pipe".to_string());
    assert!(!err.is_fatal());
    assert_eq!(err.exit_status(), 1);
    assert_eq!(failure_note("a.txt", &err), "perg: a.txt: I/O error: broken pipe");
    let err = PergError::InvalidPattern("(".to_string());
    assert_eq!(err.message(), "Invalid pattern: (");
    assert!(!err.is_fatal());
}

fn args(files_with_matches: bool, files_without_match: bool) -> Args {
    Args {
        pattern: "p".to_string(),
        paths: vec!["a".to_string()],
        ignore_case: true,
        line_number: false,
        with_filename: false,
        recursive: false,
        no_messages: false,
        invert_match: false,
        files_with_matches,
        files_without_match,
        count: false,
        before_context: 1,
        after_context: 2,
        context: 0,
        max_count: Some(4),
        only_matching: false,
        extended_regexp: false,
        color: "auto".to_string(),
    }
}

#[test]
fn listing_modes_exclude_each_other() {
    assert!(args(true, true).search_config().is_none());
    let c = args(true, false).search_config().unwrap();
    assert_eq!(c.pattern, "p");
    assert!(c.ignore_case);
    assert!(c.files_with_matches);
    assert_eq!(c.after_context, 2);
    assert_eq!(c.max_count, Some(4));
}
