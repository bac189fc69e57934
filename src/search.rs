use vstd::prelude::*;

use crate::config::{OutputMode, SearchConfig};
use crate::format::{
    compose, context_sep, file_record, format_context_line, format_context_line_stdin,
    format_line_with_content, format_match_with_content, match_sep, prefix_part, stdin_record,
};
use crate::pattern::{highlighted, occurrences, Matcher};
use crate::select::{
    context_range, count_selected, count_true, inclusion, lemma_range_covers_matches,
    output_range, select_lines,
};
use crate::text::{decimal, decimal_string};

verus! {

/// One matching line of a named source.
#[derive(Debug)]
pub struct MatchResult {
    pub file_path: String,
    pub line_number: usize,
    pub line_content: String,
}

/// What searching one source produced.
pub struct SourceOutcome {
    /// The records to print, one per output line, without line terminators.
    pub records: Vec<String>,
    /// Whether any line was selected.
    pub has_matches: bool,
    /// How many lines were selected; the maximum count does not reduce it.
    pub match_count: usize,
}

/// The entries that are emitted when at most `limit` match entries may be:
/// emission stops at the first match entry beyond the limit, together with
/// everything after it.
pub open spec fn limit_entries(entries: Seq<(usize, bool)>, limit: nat) -> Seq<(usize, bool)>
    decreases entries.len(),
{
    if entries.len() == 0 {
        seq![]
    } else if entries[0].1 {
        if limit == 0 {
            seq![]
        } else {
            seq![entries[0]] + limit_entries(entries.drop_first(), (limit - 1) as nat)
        }
    } else {
        seq![entries[0]] + limit_entries(entries.drop_first(), limit)
    }
}

/// The entries emitted under an optional maximum count.
pub open spec fn emitted(entries: Seq<(usize, bool)>, max_count: Option<usize>) -> Seq<(usize, bool)> {
    match max_count {
        Some(m) => limit_entries(entries, m as nat),
        None => entries,
    }
}

/// A line record of a named source or of standard input.
pub open spec fn line_record(
    cfg: SearchConfig,
    source: Option<Seq<char>>,
    line_number: nat,
    content: Seq<char>,
    sep: char,
) -> Seq<char> {
    match source {
        Some(f) => file_record(cfg, f, line_number, content, sep),
        None => stdin_record(cfg, line_number, content, sep),
    }
}

/// What a matching line shows: highlighted when colors are on.
pub open spec fn shown_content(pattern: Seq<char>, line: Seq<char>, colors: bool) -> Seq<char> {
    if colors {
        highlighted(pattern, line)
    } else {
        line
    }
}

/// The records of one emitted entry: a match line gives its matched parts
/// (only-matching) or itself; a context line gives itself with `-`.
pub open spec fn entry_records(
    cfg: SearchConfig,
    source: Option<Seq<char>>,
    pattern: Seq<char>,
    lines: Seq<Seq<char>>,
    colors: bool,
    e: (usize, bool),
) -> Seq<Seq<char>> {
    let line = lines[e.0 as int];
    if e.1 {
        if cfg.only_matching {
            occurrences(pattern, line)
        } else {
            seq![line_record(cfg, source, (e.0 + 1) as nat, shown_content(pattern, line, colors), match_sep())]
        }
    } else {
        seq![line_record(cfg, source, (e.0 + 1) as nat, line, context_sep())]
    }
}

/// The records of a sequence of entries, in order.
pub open spec fn records_of(
    cfg: SearchConfig,
    source: Option<Seq<char>>,
    pattern: Seq<char>,
    lines: Seq<Seq<char>>,
    colors: bool,
    entries: Seq<(usize, bool)>,
) -> Seq<Seq<char>>
    decreases entries.len(),
{
    if entries.len() == 0 {
        seq![]
    } else {
        records_of(cfg, source, pattern, lines, colors, entries.drop_last())
            + entry_records(cfg, source, pattern, lines, colors, entries.last())
    }
}

/// The count record: `[file:]count`.
pub open spec fn count_record(cfg: SearchConfig, source: Option<Seq<char>>, count: nat) -> Seq<char> {
    match source {
        Some(f) => prefix_part(cfg.with_filename, f, match_sep()) + decimal(count),
        None => decimal(count),
    }
}

/// The records that searching `lines` produces. Standard input (no name)
/// is never listed by name.
pub open spec fn source_records(
    cfg: SearchConfig,
    source: Option<Seq<char>>,
    pattern: Seq<char>,
    lines: Seq<Seq<char>>,
    colors: bool,
) -> Seq<Seq<char>> {
    let flags = inclusion(pattern, lines, cfg.invert_match);
    let count = count_true(flags);
    match cfg.spec_mode() {
        OutputMode::Count => seq![count_record(cfg, source, count)],
        OutputMode::FilesWithMatches => if count > 0 && source is Some {
            seq![source->Some_0]
        } else {
            seq![]
        },
        OutputMode::FilesWithoutMatch => if count == 0 && source is Some {
            seq![source->Some_0]
        } else {
            seq![]
        },
        OutputMode::Normal => records_of(
            cfg,
            source,
            pattern,
            lines,
            colors,
            emitted(
                output_range(flags, cfg.spec_before() as nat, cfg.spec_after() as nat),
                cfg.max_count,
            ),
        ),
    }
}

pub open spec fn opt_view(source: Option<&str>) -> Option<Seq<char>> {
    match source {
        Some(s) => Some(s@),
        None => None,
    }
}

/// The records of one entry of the output range.
fn entry_output(
    config: &SearchConfig,
    matcher: &Matcher,
    source: Option<&str>,
    lines: &Vec<String>,
    colors: bool,
    e: (usize, bool),
) -> (r: Vec<String>)
    requires
        e.0 < lines.len(),
    ensures
        r.deep_view() == entry_records(*config, opt_view(source), matcher.pattern(), lines.deep_view(), colors, e),
{
    let (idx, is_match) = e;
    let line = lines[idx].as_str();
    if is_match {
        if config.only_matching {
            matcher.find_all(line)
        } else {
            let content = if colors {
                matcher.highlight(line)
            } else {
                String::from_str(line)
            };
            let record = match source {
                Some(f) => format_match_with_content(config, f, idx + 1, content.as_str()),
                None => format_line_with_content(config, idx + 1, content.as_str()),
            };
            let r = vec![record];
            assert(r.deep_view() =~= entry_records(*config, opt_view(source), matcher.pattern(), lines.deep_view(), colors, e));
            r
        }
    } else {
        let record = match source {
            Some(f) => format_context_line(config, f, idx + 1, line),
            None => format_context_line_stdin(config, idx + 1, line),
        };
        let r = vec![record];
        assert(r.deep_view() =~= entry_records(*config, opt_view(source), matcher.pattern(), lines.deep_view(), colors, e));
        r
    }
}

/// The records of the output range, cut at the maximum count of match lines.
pub fn render_range(
    config: &SearchConfig,
    matcher: &Matcher,
    source: Option<&str>,
    lines: &Vec<String>,
    colors: bool,
    range: &Vec<(usize, bool)>,
) -> (r: Vec<String>)
    requires
        forall|k: int| 0 <= k < range.len() ==> (#[trigger] range@[k]).0 < lines.len(),
    ensures
        r.deep_view() == records_of(
            *config,
            opt_view(source),
            matcher.pattern(),
            lines.deep_view(),
            colors,
            emitted(range@, config.max_count),
        ),
{
    let n = range.len();
    let mut out: Vec<String> = Vec::new();
    let mut used: usize = 0;
    let mut stop = false;
    let mut k: usize = 0;
    assert(range@.subrange(0, n as int) =~= range@);
    assert(range@.subrange(0, 0) + range@ =~= range@);
    while k < n && !stop
        invariant
            n == range.len(),
            k <= n,
            forall|j: int| 0 <= j < range.len() ==> (#[trigger] range@[j]).0 < lines.len(),
            out.deep_view() == records_of(
                *config,
                opt_view(source),
                matcher.pattern(),
                lines.deep_view(),
                colors,
                range@.subrange(0, k as int),
            ),
            config.max_count is None ==> !stop,
            config.max_count matches Some(m) ==> used <= m && limit_entries(range@, m as nat)
                == range@.subrange(0, k as int) + if stop {
                    seq![]
                } else {
                    limit_entries(range@.subrange(k as int, n as int), (m - used) as nat)
                },
        decreases n - k + if stop { 0int } else { 1int },
    {
        let e = range[k];
        let ghost rest = range@.subrange(k as int, n as int);
        proof {
            assert(rest.drop_first() =~= range@.subrange(k + 1, n as int));
            assert(rest[0] == e);
            assert(range@.subrange(0, k as int) + seq![e] =~= range@.subrange(0, k + 1));
        }
        let ghost old_used = used;
        let mut allowed = true;
        if e.1 {
            match config.max_count {
                Some(m) => {
                    if used >= m {
                        allowed = false;
                    } else {
                        used = used + 1;
                    }
                },
                None => {},
            }
        }
        if allowed {
            let mut recs = entry_output(config, matcher, source, lines, colors, e);
            let ghost before_out = out.deep_view();
            out.append(&mut recs);
            proof {
                let sub = range@.subrange(0, k + 1);
                assert(sub.drop_last() =~= range@.subrange(0, k as int));
                assert(out.deep_view() =~= before_out + entry_records(
                    *config,
                    opt_view(source),
                    matcher.pattern(),
                    lines.deep_view(),
                    colors,
                    e,
                ));
                match config.max_count {
                    Some(m) => {
                        assert(range@.subrange(0, k as int) + limit_entries(rest, (m - old_used) as nat)
                            =~= range@.subrange(0, k + 1) + limit_entries(range@.subrange(k + 1, n as int), (m - used) as nat));
                    },
                    None => {},
                }
            }
            k = k + 1;
        } else {
            stop = true;
        }
    }
    proof {
        assert(range@.subrange(0, n as int) =~= range@);
        match config.max_count {
            Some(m) => {
                if !stop {
                    assert(range@.subrange(k as int, n as int) =~= Seq::<(usize, bool)>::empty());
                }
                assert(limit_entries(range@, m as nat) =~= range@.subrange(0, k as int));
            },
            None => {},
        }
    }
    out
}

/// Searches the lines of one source. `source` names it, `None` standing for
/// standard input; `colors` says whether matches are highlighted.
pub fn search_lines(
    config: &SearchConfig,
    matcher: &Matcher,
    source: Option<&str>,
    lines: &Vec<String>,
    colors: bool,
) -> (r: SourceOutcome)
    ensures
        r.match_count == count_true(inclusion(matcher.pattern(), lines.deep_view(), config.invert_match)),
        r.has_matches == (r.match_count > 0),
        r.records.deep_view() == source_records(*config, opt_view(source), matcher.pattern(), lines.deep_view(), colors),
{
    let flags = select_lines(matcher, lines, config.invert_match);
    let match_count = count_selected(&flags);
    let has_matches = match_count > 0;
    let records: Vec<String> = match config.mode() {
        OutputMode::Count => {
            let digits = decimal_string(match_count);
            let record = match source {
                Some(f) => compose(config.with_filename, f, false, 0, digits.as_str(), true),
                None => digits,
            };
            let r = vec![record];
            assert(r.deep_view() =~= seq![count_record(*config, opt_view(source), match_count as nat)]);
            r
        },
        OutputMode::FilesWithMatches => {
            let mut r: Vec<String> = Vec::new();
            match source {
                Some(f) => {
                    if has_matches {
                        r.push(String::from_str(f));
                    }
                },
                None => {},
            }
            assert(r.deep_view() =~= source_records(*config, opt_view(source), matcher.pattern(), lines.deep_view(), colors));
            r
        },
        OutputMode::FilesWithoutMatch => {
            let mut r: Vec<String> = Vec::new();
            match source {
                Some(f) => {
                    if !has_matches {
                        r.push(String::from_str(f));
                    }
                },
                None => {},
            }
            assert(r.deep_view() =~= source_records(*config, opt_view(source), matcher.pattern(), lines.deep_view(), colors));
            r
        },
        OutputMode::Normal => {
            let range = context_range(&flags, config.before(), config.after());
            proof {
                assert(flags@.len() == lines.len());
                lemma_range_covers_matches(flags@, config.spec_before() as nat, config.spec_after() as nat);
            }
            render_range(config, matcher, source, lines, colors, &range)
        },
    };
    SourceOutcome { records, has_matches, match_count }
}

/// How many entries are match entries.
pub open spec fn match_entries(entries: Seq<(usize, bool)>) -> nat
    decreases entries.len(),
{
    if entries.len() == 0 {
        0
    } else {
        (if entries[0].1 { 1nat } else { 0nat }) + match_entries(entries.drop_first())
    }
}

proof fn lemma_limit_bounds_matches(entries: Seq<(usize, bool)>, limit: nat)
    ensures
        match_entries(limit_entries(entries, limit)) <= limit,
    decreases entries.len(),
{
    if entries.len() > 0 {
        let rest = entries.drop_first();
        if entries[0].1 {
            if limit > 0 {
                lemma_limit_bounds_matches(rest, (limit - 1) as nat);
                let out = limit_entries(entries, limit);
                assert(out.drop_first() =~= limit_entries(rest, (limit - 1) as nat));
            }
        } else {
            lemma_limit_bounds_matches(rest, limit);
            let out = limit_entries(entries, limit);
            assert(out.drop_first() =~= limit_entries(rest, limit));
        }
    }
}

/// Under a maximum count, no more match entries are emitted than the
/// maximum, whatever the entries.
pub proof fn lemma_max_count_bounds_matches(entries: Seq<(usize, bool)>, max_count: usize)
    ensures
        match_entries(emitted(entries, Some(max_count))) <= max_count,
{
    lemma_limit_bounds_matches(entries, max_count as nat);
}

/// The count record gives the number of selected lines whatever the maximum
/// count: two configurations that differ only there count alike.
pub proof fn lemma_count_ignores_max(
    cfg: SearchConfig,
    other: SearchConfig,
    source: Option<Seq<char>>,
    pattern: Seq<char>,
    lines: Seq<Seq<char>>,
    colors: bool,
)
    requires
        cfg.count,
        other == (SearchConfig { max_count: other.max_count, ..cfg }),
    ensures
        source_records(other, source, pattern, lines, colors)
            == seq![count_record(cfg, source, count_true(inclusion(pattern, lines, cfg.invert_match)))],
        source_records(cfg, source, pattern, lines, colors)
            == seq![count_record(cfg, source, count_true(inclusion(pattern, lines, cfg.invert_match)))],
{
}

/// `r` begins with `f`.
pub open spec fn starts_with(r: Seq<char>, f: Seq<char>) -> bool {
    f.len() <= r.len() && r.subrange(0, f.len() as int) == f
}

proof fn lemma_unnamed_entries(
    cfg: SearchConfig,
    f: Seq<char>,
    pattern: Seq<char>,
    lines: Seq<Seq<char>>,
    colors: bool,
    entries: Seq<(usize, bool)>,
)
    requires
        !cfg.with_filename,
    ensures
        records_of(cfg, Some(f), pattern, lines, colors, entries)
            == records_of(cfg, None, pattern, lines, colors, entries),
    decreases entries.len(),
{
    if entries.len() > 0 {
        lemma_unnamed_entries(cfg, f, pattern, lines, colors, entries.drop_last());
        let e = entries.last();
        let line = lines[e.0 as int];
        let n = (e.0 + 1) as nat;
        assert(file_record(cfg, f, n, shown_content(pattern, line, colors), match_sep())
            =~= stdin_record(cfg, n, shown_content(pattern, line, colors), match_sep()));
        assert(file_record(cfg, f, n, line, context_sep()) =~= stdin_record(cfg, n, line, context_sep()));
    }
}

proof fn lemma_named_entries(
    cfg: SearchConfig,
    f: Seq<char>,
    pattern: Seq<char>,
    lines: Seq<Seq<char>>,
    colors: bool,
    entries: Seq<(usize, bool)>,
)
    requires
        cfg.with_filename,
        !cfg.only_matching,
    ensures
        forall|k: int| 0 <= k < records_of(cfg, Some(f), pattern, lines, colors, entries).len()
            ==> starts_with(#[trigger] records_of(cfg, Some(f), pattern, lines, colors, entries)[k], f),
    decreases entries.len(),
{
    if entries.len() > 0 {
        lemma_named_entries(cfg, f, pattern, lines, colors, entries.drop_last());
        let e = entries.last();
        let line = lines[e.0 as int];
        let n = (e.0 + 1) as nat;
        let head = records_of(cfg, Some(f), pattern, lines, colors, entries.drop_last());
        let tail = entry_records(cfg, Some(f), pattern, lines, colors, e);
        let m = file_record(cfg, f, n, shown_content(pattern, line, colors), match_sep());
        let c = file_record(cfg, f, n, line, context_sep());
        assert(m.subrange(0, f.len() as int) =~= f);
        assert(c.subrange(0, f.len() as int) =~= f);
        assert(tail.len() == 1 && starts_with(tail[0], f));
        let all = records_of(cfg, Some(f), pattern, lines, colors, entries);
        assert(all == head + tail);
        assert forall|k: int| 0 <= k < all.len() implies starts_with(#[trigger] all[k], f) by {
            if k < head.len() {
                assert(all[k] == head[k]);
            } else {
                assert(all[k] == tail[k - head.len()]);
            }
        }
    }
}

/// With a single source and file names not asked for, no record names the
/// source: each source gives exactly the records of an unnamed one. The
/// file-listing modes, whose records are the name itself, are left aside.
pub proof fn lemma_one_source_unnamed(
    cfg: SearchConfig,
    f: Seq<char>,
    pattern: Seq<char>,
    lines: Seq<Seq<char>>,
    colors: bool,
)
    requires
        !cfg.with_filename,
        !cfg.files_with_matches || cfg.count,
        !cfg.files_without_match || cfg.count,
    ensures
        source_records(cfg.spec_for_sources(1), Some(f), pattern, lines, colors)
            == source_records(cfg.spec_for_sources(1), None, pattern, lines, colors),
{
    let eff = cfg.spec_for_sources(1);
    let flags = inclusion(pattern, lines, cfg.invert_match);
    assert(count_record(eff, Some(f), count_true(flags)) =~= count_record(eff, None, count_true(flags)));
    lemma_unnamed_entries(
        eff,
        f,
        pattern,
        lines,
        colors,
        emitted(output_range(flags, eff.spec_before() as nat, eff.spec_after() as nat), eff.max_count),
    );
}

/// With two or more sources every record begins with the source's name,
/// whether or not file names were asked for. Only-matching output, whose
/// records are the matched text alone, is left aside.
pub proof fn lemma_many_sources_named(
    cfg: SearchConfig,
    n_sources: nat,
    f: Seq<char>,
    pattern: Seq<char>,
    lines: Seq<Seq<char>>,
    colors: bool,
)
    requires
        n_sources >= 2,
        !cfg.only_matching || cfg.spec_mode() != OutputMode::Normal,
    ensures
        forall|k: int| 0 <= k < source_records(cfg.spec_for_sources(n_sources), Some(f), pattern, lines, colors).len()
            ==> starts_with(
                #[trigger] source_records(cfg.spec_for_sources(n_sources), Some(f), pattern, lines, colors)[k],
                f,
            ),
{
    let eff = cfg.spec_for_sources(n_sources);
    let flags = inclusion(pattern, lines, cfg.invert_match);
    let recs = source_records(eff, Some(f), pattern, lines, colors);
    if eff.spec_mode() == OutputMode::Count {
        let r = count_record(eff, Some(f), count_true(flags));
        assert(r.subrange(0, f.len() as int) =~= f);
    } else if eff.spec_mode() == OutputMode::Normal {
        lemma_named_entries(
            eff,
            f,
            pattern,
            lines,
            colors,
            emitted(output_range(flags, eff.spec_before() as nat, eff.spec_after() as nat), eff.max_count),
        );
    } else {
        assert(f.subrange(0, f.len() as int) =~= f);
    }
}

} // verus!
