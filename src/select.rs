use vstd::prelude::*;

use crate::pattern::{line_matches, Matcher};

verus! {

/// Whether a line is selected: the pattern's verdict, negated under inversion.
pub open spec fn included(pattern: Seq<char>, line: Seq<char>, invert: bool) -> bool {
    line_matches(pattern, line) != invert
}

/// The selection flag of every line of a buffer.
pub open spec fn inclusion(pattern: Seq<char>, lines: Seq<Seq<char>>, invert: bool) -> Seq<bool> {
    Seq::new(lines.len(), |i: int| included(pattern, lines[i], invert))
}

/// The indices whose flag is set.
pub open spec fn match_set(flags: Seq<bool>) -> Set<int> {
    Set::new(|i: int| 0 <= i < flags.len() && flags[i])
}

/// The indices of a buffer of `len` lines.
pub open spec fn all_indices(len: nat) -> Set<int> {
    Set::new(|i: int| 0 <= i < len)
}

/// How many flags are set.
pub open spec fn count_true(flags: Seq<bool>) -> nat
    decreases flags.len(),
{
    if flags.len() == 0 {
        0
    } else {
        count_true(flags.drop_last()) + if flags.last() { 1nat } else { 0nat }
    }
}

/// Line `i` lies in the window of some selected line `m`, which reaches
/// `before` lines up and `after` lines down.
pub open spec fn in_window(flags: Seq<bool>, before: nat, after: nat, i: int) -> bool {
    exists|m: int| 0 <= m < flags.len() && flags[m] && m - before <= i <= m + after
}

/// Some selected line at or above `i` reaches it with its trailing context.
pub open spec fn reached_from_above(flags: Seq<bool>, after: nat, i: int) -> bool {
    exists|m: int| 0 <= m <= i && flags[m] && i - m <= after
}

/// Some selected line at or below `i` reaches it with its leading context.
pub open spec fn reached_from_below(flags: Seq<bool>, before: nat, i: int) -> bool {
    exists|m: int| i <= m < flags.len() && flags[m] && m - i <= before
}

/// Every line as an entry `(index, selected)`.
pub open spec fn line_entries(flags: Seq<bool>) -> Seq<(usize, bool)> {
    Seq::new(flags.len(), |i: int| (i as usize, flags[i]))
}

pub open spec fn window_pred(flags: Seq<bool>, before: nat, after: nat) -> spec_fn((usize, bool)) -> bool {
    |e: (usize, bool)| in_window(flags, before, after, e.0 as int)
}

/// The lines to show, in ascending order, each once, marked as a match when
/// it is selected itself and as context when it only lies in a window.
pub open spec fn output_range(flags: Seq<bool>, before: nat, after: nat) -> Seq<(usize, bool)> {
    line_entries(flags).filter(window_pred(flags, before, after))
}

proof fn lemma_window_split(flags: Seq<bool>, before: nat, after: nat, i: int)
    requires
        0 <= i < flags.len(),
    ensures
        in_window(flags, before, after, i) == (reached_from_above(flags, after, i)
            || reached_from_below(flags, before, i)),
{
    if in_window(flags, before, after, i) {
        let m = choose|m: int| 0 <= m < flags.len() && flags[m] && m - before <= i <= m + after;
        if m <= i {
            assert(reached_from_above(flags, after, i));
        } else {
            assert(reached_from_below(flags, before, i));
        }
    }
    if reached_from_above(flags, after, i) {
        let m = choose|m: int| 0 <= m <= i && flags[m] && i - m <= after;
        assert(0 <= m < flags.len() && flags[m] && m - before <= i <= m + after);
    }
    if reached_from_below(flags, before, i) {
        let m = choose|m: int| i <= m < flags.len() && flags[m] && m - i <= before;
        assert(0 <= m < flags.len() && flags[m] && m - before <= i <= m + after);
    }
}

/// Flags each line that lies in the window of a selected line.
fn window_cover(flags: &Vec<bool>, before: usize, after: usize) -> (r: Vec<bool>)
    ensures
        r.len() == flags.len(),
        forall|i: int| 0 <= i < flags.len() ==> r@[i] == in_window(flags@, before as nat, after as nat, i),
{
    let n = flags.len();
    let mut cover: Vec<bool> = Vec::new();
    let mut last: Option<usize> = None;
    let mut i: usize = 0;
    while i < n
        invariant
            n == flags.len(),
            i <= n,
            cover.len() == i,
            last matches Some(m) ==> m < i && flags@[m as int] && forall|k: int| m < k < i ==> !flags@[k],
            last is None ==> forall|k: int| 0 <= k < i ==> !flags@[k],
            forall|j: int| 0 <= j < i ==> cover@[j] == reached_from_above(flags@, after as nat, j),
        decreases n - i,
    {
        if flags[i] {
            last = Some(i);
        }
        let c = match last {
            Some(m) => i - m <= after,
            None => false,
        };
        proof {
            let fi = i as int;
            if c {
                let m = last->Some_0 as int;
                assert(0 <= m <= fi && flags@[m] && fi - m <= after);
            } else if reached_from_above(flags@, after as nat, fi) {
                let m = choose|m: int| 0 <= m <= fi && flags@[m] && fi - m <= after;
                assert(false);
            }
        }
        cover.push(c);
        i = i + 1;
    }
    let mut next: Option<usize> = None;
    let mut j: usize = n;
    while j > 0
        invariant
            n == flags.len(),
            j <= n,
            cover.len() == n,
            next matches Some(m) ==> j <= m < n && flags@[m as int] && forall|k: int| j <= k < m ==> !flags@[k],
            next is None ==> forall|k: int| j <= k < n ==> !flags@[k],
            forall|k: int| 0 <= k < j ==> cover@[k] == reached_from_above(flags@, after as nat, k),
            forall|k: int| j <= k < n ==> cover@[k] == (reached_from_above(flags@, after as nat, k)
                || reached_from_below(flags@, before as nat, k)),
        decreases j,
    {
        j = j - 1;
        if flags[j] {
            next = Some(j);
        }
        let hit = match next {
            Some(m) => m - j <= before,
            None => false,
        };
        proof {
            let fj = j as int;
            if hit {
                let m = next->Some_0 as int;
                assert(fj <= m < n && flags@[m] && m - fj <= before);
            } else if reached_from_below(flags@, before as nat, fj) {
                let m = choose|m: int| fj <= m < n && flags@[m] && m - fj <= before;
                assert(false);
            }
        }
        if hit {
            cover.set(j, true);
        }
    }
    proof {
        assert forall|i: int| 0 <= i < flags.len() implies cover@[i] == in_window(
            flags@,
            before as nat,
            after as nat,
            i,
        ) by {
            lemma_window_split(flags@, before as nat, after as nat, i);
        }
    }
    cover
}

/// Decides for each line whether it is selected.
pub fn select_lines(matcher: &Matcher, lines: &Vec<String>, invert: bool) -> (r: Vec<bool>)
    ensures
        r@ == inclusion(matcher.pattern(), lines.deep_view(), invert),
{
    let n = lines.len();
    let mut flags: Vec<bool> = Vec::new();
    let mut i: usize = 0;
    while i < n
        invariant
            n == lines.len(),
            i <= n,
            flags.len() == i,
            forall|k: int| 0 <= k < i ==> flags@[k] == included(matcher.pattern(), lines@[k]@, invert),
        decreases n - i,
    {
        let hit = matcher.is_match(lines[i].as_str());
        flags.push(hit != invert);
        i = i + 1;
    }
    assert(flags@ =~= inclusion(matcher.pattern(), lines.deep_view(), invert));
    flags
}

proof fn lemma_count_bound(flags: Seq<bool>)
    ensures
        count_true(flags) <= flags.len(),
    decreases flags.len(),
{
    if flags.len() > 0 {
        lemma_count_bound(flags.drop_last());
    }
}

/// The number of selected lines.
pub fn count_selected(flags: &Vec<bool>) -> (r: usize)
    ensures
        r == count_true(flags@),
{
    let n = flags.len();
    let mut total: usize = 0;
    let mut i: usize = 0;
    while i < n
        invariant
            n == flags.len(),
            i <= n,
            total == count_true(flags@.subrange(0, i as int)),
        decreases n - i,
    {
        proof {
            assert(flags@.subrange(0, i + 1).drop_last() =~= flags@.subrange(0, i as int));
            lemma_count_bound(flags@.subrange(0, i as int));
        }
        if flags[i] {
            total = total + 1;
        }
        i = i + 1;
    }
    assert(flags@.subrange(0, n as int) =~= flags@);
    total
}

/// The lines to show for the selected lines and the context sizes.
pub fn context_range(flags: &Vec<bool>, before: usize, after: usize) -> (r: Vec<(usize, bool)>)
    ensures
        r@ == output_range(flags@, before as nat, after as nat),
{
    let cover = window_cover(flags, before, after);
    let n = flags.len();
    let ghost pred = window_pred(flags@, before as nat, after as nat);
    let ghost entries = line_entries(flags@);
    let mut out: Vec<(usize, bool)> = Vec::new();
    let mut i: usize = 0;
    while i < n
        invariant
            n == flags.len(),
            i <= n,
            cover.len() == n,
            forall|k: int| 0 <= k < n ==> cover@[k] == in_window(flags@, before as nat, after as nat, k),
            pred == window_pred(flags@, before as nat, after as nat),
            entries == line_entries(flags@),
            out@ == entries.subrange(0, i as int).filter(pred),
        decreases n - i,
    {
        proof {
            let next = entries.subrange(0, i + 1);
            assert(next.drop_last() =~= entries.subrange(0, i as int));
            assert(next.last() == (i, flags@[i as int]));
            reveal(Seq::filter);
            assert(pred(next.last()) == in_window(flags@, before as nat, after as nat, i as int));
            assert(next.filter(pred) == (if pred(next.last()) {
                next.drop_last().filter(pred).push(next.last())
            } else {
                next.drop_last().filter(pred)
            }));
        }
        if cover[i] {
            out.push((i, flags[i]));
        }
        i = i + 1;
    }
    assert(entries.subrange(0, n as int) =~= entries);
    out
}

/// Inverting the selection gives exactly the complement of the plain
/// selection: the lines left out under inversion are the lines the pattern
/// matches.
pub proof fn lemma_invert_complement(pattern: Seq<char>, lines: Seq<Seq<char>>)
    ensures
        all_indices(lines.len()).difference(match_set(inclusion(pattern, lines, true)))
            == match_set(inclusion(pattern, lines, false)),
{
    assert(all_indices(lines.len()).difference(match_set(inclusion(pattern, lines, true)))
        =~= match_set(inclusion(pattern, lines, false)));
}

/// The shown lines include every selected line, marked as a match, and
/// name no index outside the buffer.
pub proof fn lemma_range_covers_matches(flags: Seq<bool>, before: nat, after: nat)
    requires
        flags.len() <= usize::MAX,
    ensures
        forall|k: int| 0 <= k < output_range(flags, before, after).len()
            ==> (#[trigger] output_range(flags, before, after)[k]).0 < flags.len(),
        forall|i: int| 0 <= i < flags.len() && flags[i]
            ==> output_range(flags, before, after).contains((i as usize, true)),
{
    let entries = line_entries(flags);
    let pred = window_pred(flags, before, after);
    let r = output_range(flags, before, after);
    assert forall|k: int| 0 <= k < r.len() implies (#[trigger] r[k]).0 < flags.len() by {
        assert(r.contains(r[k]));
        entries.lemma_filter_contains_rev(pred, r[k]);
        let j = choose|j: int| 0 <= j < entries.len() && entries[j] == r[k];
        assert(r[k].0 == j as usize);
    }
    assert forall|i: int| 0 <= i < flags.len() && flags[i]
        implies r.contains((i as usize, true)) by {
        assert(pred(entries[i]));
        entries.lemma_filter_contains(pred, i);
    }
}

} // verus!
