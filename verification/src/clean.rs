//! Best-effort filesystem cleanup.
//!
//! A fixed table of delete patterns — bytecode-cache directories, then
//! compiled bytecode files — is expanded against the current working
//! directory's subtree.  Every match is deleted with the operation its
//! pattern declares, never re-probed; a failure on one entry never stops
//! the remaining entries or patterns.  The aggregate outcome is a single
//! success flag, and on failure a generic cleanup error carrying only the
//! most recently observed cause — earlier causes are deliberately
//! discarded.
//!
//! The library expands the patterns and folds the per-entry outcomes; the
//! caller performs the deletions in between and reports how each went.

use vstd::prelude::*;

use crate::command::opt_view;
use crate::error::{HuakError, HuakErrorView};

verus! {

/// The kind of filesystem entity a pattern targets, deciding the deletion
/// operation used on its matches.
#[derive(Clone, Copy, PartialEq, Eq, Structural, Debug)]
pub enum PathType {
    Directory,
    File,
}

/// One cleanup target: a kind and the glob pattern for its matches.
#[derive(Debug)]
pub struct DeletePath {
    pub path_type: PathType,
    pub glob: String,
}

/// The pattern matching bytecode-cache directories.
pub open spec fn pycache_pattern() -> Seq<char> {
    seq!['*', '*', '/', '_', '_', 'p', 'y', 'c', 'a', 'c', 'h', 'e', '_', '_']
}

/// The pattern matching compiled bytecode files.
pub open spec fn pyc_pattern() -> Seq<char> {
    seq!['*', '*', '/', '*', '.', 'p', 'y', 'c']
}

/// The fixed delete-pattern table, in evaluation order: the directory
/// pattern first, the file pattern second.
pub fn get_delete_patterns() -> (r: Vec<DeletePath>)
    ensures
        r@.len() == 2,
        r@[0].path_type == PathType::Directory,
        r@[0].glob@ == pycache_pattern(),
        r@[1].path_type == PathType::File,
        r@[1].glob@ == pyc_pattern(),
{
    let first = DeletePath { path_type: PathType::Directory, glob: "**/__pycache__".to_owned() };
    let second = DeletePath { path_type: PathType::File, glob: "**/*.pyc".to_owned() };
    proof {
        reveal_strlit("**/__pycache__");
        reveal_strlit("**/*.pyc");
        assert(first.glob@ =~= pycache_pattern());
        assert(second.glob@ =~= pyc_pattern());
    }
    let mut r: Vec<DeletePath> = Vec::new();
    r.push(first);
    r.push(second);
    r
}

/// One entry of an expanded pattern: a matched path, or a walk error on
/// an entry that could not be read — its message is kept as the cause.
#[derive(Debug)]
pub enum GlobEntry {
    Found(String),
    Unreadable(String),
}

/// Mathematical image of a `GlobEntry`.
pub enum GlobEntryView {
    Found(Seq<char>),
    Unreadable(Seq<char>),
}

impl View for GlobEntry {
    type V = GlobEntryView;

    open spec fn view(&self) -> GlobEntryView {
        match self {
            GlobEntry::Found(p) => GlobEntryView::Found(p@),
            GlobEntry::Unreadable(c) => GlobEntryView::Unreadable(c@),
        }
    }
}

/// Whether a glob pattern parses.
pub uninterp spec fn glob_pattern_ok(pattern: Seq<char>) -> bool;

/// Relies on glob::glob: expands a glob pattern against the filesystem
/// below the current working directory.  Whether the pattern parses
/// depends on the pattern alone, so that is named; which entries come
/// back depends on the disk, so nothing is promised of them.  Matched
/// paths are handed back as strings, unreadable entries as their error
/// message.
#[verifier::external_body]
fn expand_glob(pattern: &str) -> (r: Result<Vec<GlobEntry>, String>)
    ensures
        r is Ok <==> glob_pattern_ok(pattern@),
{
    match glob::glob(pattern) {
        Ok(paths) => Ok(
            paths.map(
                |entry| match entry {
                    Ok(p) => GlobEntry::Found(p.to_string_lossy().into_owned()),
                    Err(e) => GlobEntry::Unreadable(format!("{}", e)),
                },
            ).collect(),
        ),
        Err(e) => Err(format!("{}", e)),
    }
}

/// One pattern's expansion: its declared kind, and either its entries or
/// the message of a failed expansion.
#[derive(Debug)]
pub struct PatternScan {
    pub path_type: PathType,
    pub expansion: Result<Vec<GlobEntry>, String>,
}

/// Expand every pattern of the table, in table order, keeping each
/// pattern's declared kind beside its entries.
pub fn scan_patterns(patterns: &Vec<DeletePath>) -> (r: Vec<PatternScan>)
    ensures
        r@.len() == patterns@.len(),
        forall|i: int|
            0 <= i < r@.len() ==> r@[i].path_type == patterns@[i].path_type && (
            r@[i].expansion is Ok <==> glob_pattern_ok(patterns@[i].glob@)),
{
    let mut r: Vec<PatternScan> = Vec::new();
    let n = patterns.len();
    let mut i: usize = 0;
    while i < n
        invariant
            i <= n,
            n == patterns@.len(),
            r@.len() == i,
            forall|k: int|
                0 <= k < i ==> r@[k].path_type == patterns@[k].path_type && (
                r@[k].expansion is Ok <==> glob_pattern_ok(patterns@[k].glob@)),
        decreases n - i,
    {
        let expansion = expand_glob(patterns[i].glob.as_str());
        r.push(PatternScan { path_type: patterns[i].path_type, expansion });
        i = i + 1;
    }
    r
}

/// Expand the fixed delete-pattern table.
pub fn clean_scan() -> (r: Vec<PatternScan>)
    ensures
        r@.len() == 2,
        r@[0].path_type == PathType::Directory,
        r@[1].path_type == PathType::File,
        r@[0].expansion is Ok <==> glob_pattern_ok(pycache_pattern()),
        r@[1].expansion is Ok <==> glob_pattern_ok(pyc_pattern()),
{
    let patterns = get_delete_patterns();
    scan_patterns(&patterns)
}

/// How one entry of one pattern ended: deleted, attempted but failed —
/// with the cause — or never reached because the walk could not read it.
#[derive(Debug)]
pub enum EntryOutcome {
    Removed,
    RemoveFailed(String),
    Unreadable(String),
}

/// Mathematical image of an `EntryOutcome`.
pub enum EntryOutcomeView {
    Removed,
    RemoveFailed(Seq<char>),
    Unreadable(Seq<char>),
}

impl View for EntryOutcome {
    type V = EntryOutcomeView;

    open spec fn view(&self) -> EntryOutcomeView {
        match self {
            EntryOutcome::Removed => EntryOutcomeView::Removed,
            EntryOutcome::RemoveFailed(c) => EntryOutcomeView::RemoveFailed(c@),
            EntryOutcome::Unreadable(c) => EntryOutcomeView::Unreadable(c@),
        }
    }
}

/// One pattern's deletion results: its entry outcomes, or the message of
/// a failed expansion.
#[derive(Debug)]
pub struct PatternOutcome {
    pub outcomes: Result<Vec<EntryOutcome>, String>,
}

/// Mathematical image of a `PatternOutcome`.
pub struct PatternOutcomeView {
    pub outcomes: Result<Seq<EntryOutcomeView>, Seq<char>>,
}

impl View for PatternOutcome {
    type V = PatternOutcomeView;

    open spec fn view(&self) -> PatternOutcomeView {
        PatternOutcomeView {
            outcomes: match &self.outcomes {
                Result::Ok(v) => Result::Ok(v@.map_values(|e: EntryOutcome| e@)),
                Result::Err(m) => Result::Err(m@),
            },
        }
    }
}

/// The views of a sequence of pattern outcomes.
pub open spec fn results_view(rs: Seq<PatternOutcome>) -> Seq<PatternOutcomeView> {
    rs.map_values(|p: PatternOutcome| p@)
}

/// The cause one entry contributes: none when it was deleted.
pub open spec fn entry_cause(e: EntryOutcomeView) -> Option<Seq<char>> {
    match e {
        EntryOutcomeView::Removed => Option::None,
        EntryOutcomeView::RemoveFailed(c) => Option::Some(c),
        EntryOutcomeView::Unreadable(c) => Option::Some(c),
    }
}

/// The later observation wins; only where it observed nothing does the
/// earlier one survive.
pub open spec fn prefer_later(
    earlier: Option<Seq<char>>,
    later: Option<Seq<char>>,
) -> Option<Seq<char>> {
    match later {
        Option::Some(c) => Option::Some(c),
        Option::None => earlier,
    }
}

/// The most recently observed cause among a pattern's entries.
pub open spec fn last_cause_entries(es: Seq<EntryOutcomeView>) -> Option<Seq<char>>
    decreases es.len(),
{
    if es.len() == 0 {
        Option::None
    } else {
        prefer_later(last_cause_entries(es.drop_last()), entry_cause(es.last()))
    }
}

/// The cause one pattern contributes: a failed expansion observes none.
pub open spec fn pattern_cause(p: PatternOutcomeView) -> Option<Seq<char>> {
    match p.outcomes {
        Result::Ok(es) => last_cause_entries(es),
        Result::Err(_) => Option::None,
    }
}

/// The most recently observed cause across all patterns, in table order.
pub open spec fn last_cause(rs: Seq<PatternOutcomeView>) -> Option<Seq<char>>
    decreases rs.len(),
{
    if rs.len() == 0 {
        Option::None
    } else {
        prefer_later(last_cause(rs.drop_last()), pattern_cause(rs.last()))
    }
}

/// A pattern went cleanly: it expanded, and every entry was deleted.
pub open spec fn pattern_ok(p: PatternOutcomeView) -> bool {
    match p.outcomes {
        Result::Ok(es) => forall|k: int| 0 <= k < es.len() ==> es[k] is Removed,
        Result::Err(_) => false,
    }
}

/// The whole cleanup went cleanly: every pattern did.
pub open spec fn clean_success(rs: Seq<PatternOutcomeView>) -> bool {
    forall|i: int| 0 <= i < rs.len() ==> pattern_ok(#[trigger] rs[i])
}

/// Extending the entries by one combines the old cause with the new
/// entry's, later observation first.
proof fn lemma_last_cause_entries_step(es: Seq<EntryOutcomeView>, j: int)
    requires
        0 <= j < es.len(),
    ensures
        last_cause_entries(es.take(j + 1)) == prefer_later(
            last_cause_entries(es.take(j)),
            entry_cause(es[j]),
        ),
{
    assert(es.take(j + 1).drop_last() =~= es.take(j));
    assert(es.take(j + 1).last() == es[j]);
}

/// Extending the patterns by one combines the old cause with the new
/// pattern's, later observation first.
proof fn lemma_last_cause_step(rs: Seq<PatternOutcomeView>, i: int)
    requires
        0 <= i < rs.len(),
    ensures
        last_cause(rs.take(i + 1)) == prefer_later(last_cause(rs.take(i)), pattern_cause(rs[i])),
{
    assert(rs.take(i + 1).drop_last() =~= rs.take(i));
    assert(rs.take(i + 1).last() == rs[i]);
}

/// Fold the per-pattern, per-entry deletion results into the aggregate
/// cleanup outcome: success exactly when every pattern expanded and every
/// entry was deleted, and otherwise a cleanup failure carrying only the
/// most recently observed cause.  No failure is ever allowed to hide a
/// later pattern or entry: every result is folded in.
pub fn clean_outcome(results: &Vec<PatternOutcome>) -> (r: Result<(), HuakError>)
    ensures
        clean_success(results_view(results@)) ==> r is Ok,
        !clean_success(results_view(results@)) ==> match r {
            Result::Ok(_) => false,
            Result::Err(e) => e@ == HuakErrorView::CleanupFailed {
                cause: last_cause(results_view(results@)),
            },
        },
{
    let ghost rv = results_view(results@);
    let mut ok = true;
    let mut cause: Option<String> = Option::None;
    let n = results.len();
    let mut i: usize = 0;
    while i < n
        invariant
            i <= n,
            n == results@.len(),
            rv == results_view(results@),
            rv.len() == n,
            ok == clean_success(rv.take(i as int)),
            opt_view(cause) == last_cause(rv.take(i as int)),
        decreases n - i,
    {
        proof {
            assert(rv[i as int] == results@[i as int]@);
        }
        match &results[i].outcomes {
            Result::Err(_) => {
                proof {
                    lemma_last_cause_step(rv, i as int);
                    assert(!pattern_ok(rv[i as int]));
                    assert(!clean_success(rv.take(i + 1)));
                }
                ok = false;
            },
            Result::Ok(entries) => {
                let ghost es = rv[i as int].outcomes->Ok_0;
                proof {
                    assert(es == entries@.map_values(|e: EntryOutcome| e@));
                }
                let m = entries.len();
                let mut j: usize = 0;
                let mut pattern_clean = true;
                while j < m
                    invariant
                        j <= m,
                        m == entries@.len(),
                        es == entries@.map_values(|e: EntryOutcome| e@),
                        es.len() == m,
                        pattern_clean == forall|k: int|
                            0 <= k < j ==> #[trigger] es[k] is Removed,
                        opt_view(cause) == prefer_later(
                            last_cause(rv.take(i as int)),
                            last_cause_entries(es.take(j as int)),
                        ),
                        i < rv.len(),
                        rv[i as int].outcomes == Result::<
                            Seq<EntryOutcomeView>,
                            Seq<char>,
                        >::Ok(es),
                    decreases m - j,
                {
                    proof {
                        assert(es[j as int] == entries@[j as int]@);
                        lemma_last_cause_entries_step(es, j as int);
                    }
                    match &entries[j] {
                        EntryOutcome::Removed => {},
                        EntryOutcome::RemoveFailed(c) => {
                            pattern_clean = false;
                            cause = Option::Some(c.clone());
                        },
                        EntryOutcome::Unreadable(c) => {
                            pattern_clean = false;
                            cause = Option::Some(c.clone());
                        },
                    }
                    j = j + 1;
                }
                proof {
                    assert(es.take(m as int) =~= es);
                    assert(pattern_clean == pattern_ok(rv[i as int]));
                    lemma_last_cause_step(rv, i as int);
                    assert(prefer_later(
                        last_cause(rv.take(i as int)),
                        last_cause_entries(es),
                    ) == last_cause(rv.take(i + 1)));
                    if !pattern_clean {
                        assert(!clean_success(rv.take(i + 1)));
                    }
                }
                if !pattern_clean {
                    ok = false;
                }
            },
        }
        proof {
            assert(rv.take(i + 1).drop_last() =~= rv.take(i as int));
            if ok {
                assert forall|k: int| 0 <= k < i + 1 implies pattern_ok(#[trigger] rv.take(
                    i + 1,
                )[k]) by {
                    if k < i {
                        assert(rv.take(i as int)[k] == rv.take(i + 1)[k]);
                        assert(pattern_ok(rv.take(i as int)[k]));
                    }
                }
            }
        }
        i = i + 1;
    }
    proof {
        assert(rv.take(n as int) =~= rv);
    }
    if ok {
        Result::Ok(())
    } else {
        Result::Err(HuakError::CleanupFailed { cause })
    }
}

/// A cleanup over patterns that all expanded and matched nothing at all
/// succeeds.
pub proof fn lemma_clean_empty_ok(rs: Seq<PatternOutcomeView>)
    requires
        forall|i: int|
            0 <= i < rs.len() ==> (#[trigger] rs[i]).outcomes is Ok && rs[i].outcomes->Ok_0.len()
                == 0,
    ensures
        clean_success(rs),
{
}

/// One entry that could not be deleted, anywhere, makes the whole cleanup
/// report failure — however many other entries were deleted.
pub proof fn lemma_partial_failure(rs: Seq<PatternOutcomeView>, i: int, j: int)
    requires
        0 <= i < rs.len(),
        rs[i].outcomes is Ok,
        0 <= j < rs[i].outcomes->Ok_0.len(),
        !(rs[i].outcomes->Ok_0[j] is Removed),
    ensures
        !clean_success(rs),
{
    assert(!pattern_ok(rs[i]));
}

} // verus!
