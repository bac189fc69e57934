use vstd::prelude::*;

use crate::config::SearchConfig;
use crate::error::PergError;

verus! {

/// What a named path turned out to be.
#[derive(Debug, Clone, Copy, PartialEq, Eq, Structural)]
pub enum PathKind {
    File,
    Directory,
    Missing,
}

/// What to do with a named path.
#[derive(Debug, Clone, Copy, PartialEq, Eq, Structural)]
pub enum PathAction {
    /// Search the file.
    Search,
    /// Search every file beneath the directory.
    Walk,
    /// Keep the directory as a source without lines, and note that it is one.
    ListDirectory,
    /// Leave the directory out, noting that it is one.
    SkipDirectory,
    /// Stop the run: the path does not exist.
    Missing,
}

/// Decides what becomes of a named path. A directory is searched only when
/// recursion is on; otherwise it takes part as an empty source in the
/// file-listing modes and is left out in the others.
pub fn plan_path(config: &SearchConfig, kind: PathKind, recursive: bool) -> (r: PathAction)
    ensures
        kind == PathKind::File ==> r == PathAction::Search,
        kind == PathKind::Missing ==> r == PathAction::Missing,
        kind == PathKind::Directory && recursive ==> r == PathAction::Walk,
        kind == PathKind::Directory && !recursive ==> r == (if config.files_with_matches
            || config.files_without_match {
            PathAction::ListDirectory
        } else {
            PathAction::SkipDirectory
        }),
{
    match kind {
        PathKind::File => PathAction::Search,
        PathKind::Missing => PathAction::Missing,
        PathKind::Directory => {
            if recursive {
                PathAction::Walk
            } else if config.files_with_matches || config.files_without_match {
                PathAction::ListDirectory
            } else {
                PathAction::SkipDirectory
            }
        },
    }
}

/// Whether the separator line follows source `index` of `total`: between
/// two sources, when any context size is nonzero.
pub fn separator_after(config: &SearchConfig, index: usize, total: usize) -> (r: bool)
    ensures
        r == (index + 1 < total && config.spec_has_context()),
{
    index < total && index + 1 < total && config.has_context()
}

/// The line printed between the outputs of two sources.
pub fn separator_record() -> (r: String)
    ensures
        r@ == seq!['-', '-'],
{
    proof {
        reveal_strlit("--");
    }
    String::from_str("--")
}

/// The note for a path that does not exist.
pub fn missing_note(path: &str) -> (r: String)
    ensures
        r@ == path@ + ": No such file or directory"@,
{
    let mut r = String::from_str(path);
    r.append(": No such file or directory");
    r
}

/// The note for a directory that is not searched.
pub fn directory_note(path: &str) -> (r: String)
    ensures
        r@ == path@ + ": Is a directory"@,
{
    let mut r = String::from_str(path);
    r.append(": Is a directory");
    r
}

/// The note for a source whose search failed.
pub fn failure_note(path: &str, err: &PergError) -> (r: String)
    ensures
        exists|m: Seq<char>| r@ == "perg: "@ + path@ + ": "@ + m,
{
    let mut r = String::from_str("perg: ");
    r.append(path);
    r.append(": ");
    let m = err.message();
    r.append(m.as_str());
    r
}

/// The process exit status of a run: 0 on success, whether or not anything
/// matched, and otherwise that of the failure.
pub fn exit_code(outcome: &Result<(), PergError>) -> (r: i32)
    ensures
        outcome is Ok ==> r == 0,
        outcome matches Err(e) ==> r == (if e is Regex { 2i32 } else { 1i32 }),
{
    match outcome {
        Ok(()) => 0,
        Err(e) => e.exit_status(),
    }
}

} // verus!
