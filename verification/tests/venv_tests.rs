use std::path::Path;

use huak::error::HuakError;
use huak::venv::{create_venv, CreateDecision, Platform, Venv, DEFAULT_VENV_NAME};

fn dir_string(d: &tempfile::TempDir) -> String {
    d.path().to_str().unwrap().to_string()
}

fn make_dir(parent: &str, name: &str) -> String {
    let d = tempfile::Builder::new()
        .prefix(name)
        .rand_bytes(0)
        .disable_cleanup(true)
        .tempdir_in(parent)
        .unwrap();
    d.path().to_str().unwrap().to_string()
}

fn make_file(parent: &str, name: &str) {
    tempfile::Builder::new()
        .prefix(name)
        .rand_bytes(0)
        .disable_cleanup(true)
        .tempfile_in(parent)
        .unwrap();
}

/// Lay out on disk what the creation command would produce: the root, the
/// executable directory and a package-manager entry inside it.
fn materialize_venv(parent: &str, name: &str) -> String {
    let root = make_dir(parent, name);
    let bin = make_dir(&root, "bin");
    make_file(&bin, "pip");
    root
}

#[test]
fn default() {
    let venv = Venv::default();

    assert!(venv.path.ends_with(DEFAULT_VENV_NAME));
}

#[test]
fn find() {
    let directory = tempfile::tempdir().unwrap();
    let root = materialize_venv(&dir_string(&directory), ".venv");
    let first_venv = Venv::new(root);
    first_venv.create().unwrap();

    let second_venv = Venv::find(&dir_string(&directory)).unwrap();

    assert!(Path::new(&second_venv.path).exists());
    assert!(Path::new(&second_venv.bin_path(Platform::Other)).join("pip").exists());
    assert_eq!(first_venv.path, second_venv.path);
}

#[test]
fn name_is_final_component() {
    let venv = Venv::new("/tmp/project/.venv".to_string());
    assert_eq!(venv.name().unwrap(), ".venv");
}

#[test]
fn bin_path_depends_on_platform() {
    let venv = Venv::new("/v".to_string());
    assert_eq!(venv.bin_path(Platform::Other), "/v/bin");
    assert_eq!(venv.bin_path(Platform::Windows), "/v/Scripts");
    assert_eq!(venv.tool_path("black", Platform::Other), "/v/bin/black");
}

#[test]
fn create_on_present_root_is_a_noop() {
    let directory = tempfile::tempdir().unwrap();
    let root = make_dir(&dir_string(&directory), ".venv");
    make_file(&root, "marker");
    let marker = format!("{}/marker", root);
    let venv = Venv::new(root);

    let first = venv.create().unwrap();
    let second = venv.create().unwrap();

    assert!(matches!(first, CreateDecision::AlreadyPresent));
    assert!(matches!(second, CreateDecision::AlreadyPresent));
    assert!(Path::new(&marker).exists());
}

#[test]
fn create_on_absent_root_decides_the_creation_command() {
    let directory = tempfile::tempdir().unwrap();
    let parent = dir_string(&directory);
    let venv = Venv::new(format!("{}/.venv", parent));

    match venv.create().unwrap() {
        CreateDecision::Invoke(cmd) => {
            assert_eq!(cmd.program, "python");
            assert_eq!(cmd.args, vec!["-m".to_string(), "venv".to_string(), ".venv".to_string()]);
            assert_eq!(cmd.cwd, parent);
        }
        CreateDecision::AlreadyPresent => panic!("expected a creation command"),
    }
}

#[test]
fn create_on_root_without_parent_fails() {
    let root = Venv::new("/".to_string());
    match root.create_decision(false) {
        Err(HuakError::InvalidPath) => {}
        _ => panic!("expected InvalidPath for the filesystem root"),
    }

    let bare = Venv::new("bare-name-without-parent".to_string());
    match bare.create() {
        Err(HuakError::InvalidPath) => {}
        _ => panic!("expected InvalidPath for a bare relative name"),
    }
}

#[test]
fn create_venv_pairs_the_environment_with_its_decision() {
    let directory = tempfile::tempdir().unwrap();
    let root = make_dir(&dir_string(&directory), ".venv");

    let (venv, decision) = create_venv(root.clone()).unwrap();
    assert_eq!(venv.path, root);
    assert!(matches!(decision, CreateDecision::AlreadyPresent));
}

#[test]
fn locator_prefers_the_nearest_ancestor() {
    let directory = tempfile::tempdir().unwrap();
    let a = make_dir(&dir_string(&directory), "a");
    let b = make_dir(&a, "b");
    make_dir(&a, ".venv");
    let nested = make_dir(&b, "venv");

    let found = Venv::find(&b).unwrap();
    assert_eq!(found.path, nested);
}

#[test]
fn locator_walks_up_to_a_farther_ancestor() {
    let directory = tempfile::tempdir().unwrap();
    let a = make_dir(&dir_string(&directory), "a");
    let b = make_dir(&a, "b");
    let c = make_dir(&b, "c");
    let hidden = make_dir(&a, ".venv");

    let found = Venv::find(&c).unwrap();
    assert_eq!(found.path, hidden);
}

#[test]
fn locator_fails_within_the_bound() {
    let directory = tempfile::tempdir().unwrap();
    let mut deep = dir_string(&directory);
    for name in ["d1", "d2", "d3", "d4", "d5", "d6", "d7"] {
        deep = make_dir(&deep, name);
    }

    match Venv::find(&deep) {
        Err(HuakError::VenvNotFound { from }) => {
            assert_eq!(from, deep);
        }
        _ => panic!("expected VenvNotFound"),
    }
}
