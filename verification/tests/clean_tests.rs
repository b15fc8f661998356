use huak::clean::{
    clean_outcome, get_delete_patterns, scan_patterns, DeletePath, EntryOutcome, GlobEntry,
    PathType, PatternOutcome,
};
use huak::error::HuakError;

fn dir_string(d: &tempfile::TempDir) -> String {
    d.path().to_str().unwrap().to_string()
}

fn make_dir(parent: &str, name: &str) -> String {
    let d = tempfile::Builder::new()
        .prefix(name)
        .rand_bytes(0)
        .disable_cleanup(true)
        .tempdir_in(parent)
        .unwrap();
    d.path().to_str().unwrap().to_string()
}

fn make_file(parent: &str, prefix: &str, suffix: &str) {
    tempfile::Builder::new()
        .prefix(prefix)
        .suffix(suffix)
        .rand_bytes(0)
        .disable_cleanup(true)
        .tempfile_in(parent)
        .unwrap();
}

#[test]
fn delete_patterns_are_the_fixed_table() {
    let patterns = get_delete_patterns();
    assert_eq!(patterns.len(), 2);
    assert_eq!(patterns[0].path_type, PathType::Directory);
    assert_eq!(patterns[0].glob, "**/__pycache__");
    assert_eq!(patterns[1].path_type, PathType::File);
    assert_eq!(patterns[1].glob, "**/*.pyc");
}

#[test]
fn cleanup_with_no_matches_succeeds() {
    let results = vec![
        PatternOutcome { outcomes: Ok(vec![]) },
        PatternOutcome { outcomes: Ok(vec![]) },
    ];
    assert!(clean_outcome(&results).is_ok());
    assert!(clean_outcome(&vec![]).is_ok());
}

#[test]
fn cleanup_where_everything_was_deleted_succeeds() {
    let results = vec![
        PatternOutcome { outcomes: Ok(vec![EntryOutcome::Removed, EntryOutcome::Removed]) },
        PatternOutcome { outcomes: Ok(vec![EntryOutcome::Removed]) },
    ];
    assert!(clean_outcome(&results).is_ok());
}

#[test]
fn one_locked_entry_fails_the_whole_cleanup() {
    let results = vec![
        PatternOutcome { outcomes: Ok(vec![EntryOutcome::Removed]) },
        PatternOutcome {
            outcomes: Ok(vec![EntryOutcome::RemoveFailed("permission denied".to_string())]),
        },
    ];
    match clean_outcome(&results) {
        Err(e @ HuakError::CleanupFailed { .. }) => {
            assert_eq!(e.exit_code(), 2);
            match e {
                HuakError::CleanupFailed { cause } => {
                    assert_eq!(cause, Some("permission denied".to_string()));
                }
                _ => unreachable!(),
            }
        }
        _ => panic!("expected CleanupFailed"),
    }
}

#[test]
fn only_the_last_observed_cause_survives() {
    let results = vec![
        PatternOutcome {
            outcomes: Ok(vec![
                EntryOutcome::RemoveFailed("first".to_string()),
                EntryOutcome::Removed,
            ]),
        },
        PatternOutcome {
            outcomes: Ok(vec![EntryOutcome::Unreadable("second".to_string())]),
        },
    ];
    match clean_outcome(&results) {
        Err(HuakError::CleanupFailed { cause }) => {
            assert_eq!(cause, Some("second".to_string()));
        }
        _ => panic!("expected CleanupFailed"),
    }
}

#[test]
fn failed_expansion_fails_the_cleanup_without_a_cause() {
    let results = vec![PatternOutcome { outcomes: Err("bad pattern".to_string()) }];
    match clean_outcome(&results) {
        Err(HuakError::CleanupFailed { cause }) => {
            assert_eq!(cause, None);
        }
        _ => panic!("expected CleanupFailed"),
    }
}

#[test]
fn scanning_finds_real_bytecode_entries() {
    let directory = tempfile::tempdir().unwrap();
    let base = dir_string(&directory);
    let pkg = make_dir(&base, "pkg");
    make_dir(&pkg, "__pycache__");
    make_file(&pkg, "mod", ".pyc");

    let patterns = vec![
        DeletePath { path_type: PathType::Directory, glob: format!("{}/**/__pycache__", base) },
        DeletePath { path_type: PathType::File, glob: format!("{}/**/*.pyc", base) },
    ];
    let scans = scan_patterns(&patterns);
    assert_eq!(scans.len(), 2);

    let dirs = scans[0].expansion.as_ref().unwrap();
    assert_eq!(dirs.len(), 1);
    match &dirs[0] {
        GlobEntry::Found(p) => assert!(p.ends_with("pkg/__pycache__")),
        GlobEntry::Unreadable(_) => panic!("expected a match"),
    }

    let files = scans[1].expansion.as_ref().unwrap();
    assert_eq!(files.len(), 1);
    match &files[0] {
        GlobEntry::Found(p) => assert!(p.ends_with("pkg/mod.pyc")),
        GlobEntry::Unreadable(_) => panic!("expected a match"),
    }
}

#[test]
fn scanning_an_invalid_pattern_reports_the_expansion_failure() {
    let patterns = vec![DeletePath { path_type: PathType::File, glob: "a***".to_string() }];
    let scans = scan_patterns(&patterns);
    assert!(scans[0].expansion.is_err());
}
