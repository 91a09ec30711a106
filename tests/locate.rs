use sidecar_supervisor::locator::{
    backend_dir_path, is_valid_resource_dir, locate, project_marker_path, python_dir_path, resources_path, AncestorProbe, Candidate,
    DirProbe, SearchInputs,
};
use sidecar_supervisor::paths::{join, Platform};

const VALID: DirProbe = DirProbe { exists: true, has_python: true, has_backend: true };
const NO_BACKEND: DirProbe = DirProbe { exists: true, has_python: true, has_backend: false };
const NO_PYTHON: DirProbe = DirProbe { exists: true, has_python: false, has_backend: true };
const MISSING: DirProbe = DirProbe { exists: false, has_python: false, has_backend: false };

fn cand(path: &str, probe: DirProbe) -> Candidate {
    Candidate { path: path.to_string(), probe }
}

fn ancestor(has_marker: bool, path: &str, probe: DirProbe) -> AncestorProbe {
    AncestorProbe { has_marker, resources: cand(path, probe) }
}

#[test]
fn validity_needs_both_subdirectories() {
    assert!(is_valid_resource_dir(&VALID));
    assert!(!is_valid_resource_dir(&NO_BACKEND));
    assert!(!is_valid_resource_dir(&NO_PYTHON));
    assert!(!is_valid_resource_dir(&MISSING));
    assert!(!is_valid_resource_dir(&DirProbe { exists: false, has_python: true, has_backend: true }));
}

#[test]
fn beside_executable_wins_when_valid() {
    let inp = SearchInputs {
        beside_executable: Some(cand("/opt/app/resources", VALID)),
        packaged: Some(cand("/usr/share/app", VALID)),
        ancestors: vec![],
        working_dir: None,
    };
    assert_eq!(locate(&inp), Some("/opt/app/resources".to_string()));
}

#[test]
fn invalid_candidates_are_skipped_for_later_valid_one() {
    let inp = SearchInputs {
        beside_executable: Some(cand("/opt/app/resources", NO_BACKEND)),
        packaged: Some(cand("/usr/share/app", NO_PYTHON)),
        ancestors: vec![ancestor(false, "/home/u/proj/sub/resources", MISSING)],
        working_dir: Some(cand("/home/u/proj/sub/resources", VALID)),
    };
    assert_eq!(locate(&inp), Some("/home/u/proj/sub/resources".to_string()));
}

#[test]
fn packaged_directory_used_when_beside_executable_invalid() {
    let inp = SearchInputs {
        beside_executable: Some(cand("/opt/app/resources", MISSING)),
        packaged: Some(cand("/usr/share/app", VALID)),
        ancestors: vec![ancestor(true, "/proj/resources", VALID)],
        working_dir: None,
    };
    assert_eq!(locate(&inp), Some("/usr/share/app".to_string()));
}

#[test]
fn nearest_project_root_is_used() {
    let inp = SearchInputs {
        beside_executable: None,
        packaged: Some(cand("/usr/share/app", MISSING)),
        ancestors: vec![
            ancestor(false, "/proj/src-tauri/target/resources", MISSING),
            ancestor(true, "/proj/src-tauri/resources", VALID),
            ancestor(true, "/resources", VALID),
        ],
        working_dir: Some(cand("/proj/src-tauri/target/resources", MISSING)),
    };
    assert_eq!(locate(&inp), Some("/proj/src-tauri/resources".to_string()));
}

#[test]
fn project_root_returned_even_when_invalid() {
    let inp = SearchInputs {
        beside_executable: None,
        packaged: Some(cand("/usr/share/app", MISSING)),
        ancestors: vec![ancestor(false, "/proj/x/resources", MISSING), ancestor(true, "/proj/resources", NO_BACKEND)],
        working_dir: Some(cand("/proj/x/resources", MISSING)),
    };
    assert_eq!(locate(&inp), Some("/proj/resources".to_string()));
}

#[test]
fn falls_back_to_packaged_directory() {
    let inp = SearchInputs {
        beside_executable: Some(cand("/opt/app/resources", MISSING)),
        packaged: Some(cand("/usr/share/app", NO_BACKEND)),
        ancestors: vec![ancestor(false, "/a/resources", MISSING), ancestor(false, "/resources", MISSING)],
        working_dir: Some(cand("/a/resources", NO_PYTHON)),
    };
    assert_eq!(locate(&inp), Some("/usr/share/app".to_string()));
}

#[test]
fn falls_back_to_working_dir_without_packaged() {
    let inp = SearchInputs {
        beside_executable: Some(cand("/opt/app/resources", MISSING)),
        packaged: None,
        ancestors: vec![ancestor(false, "/w/resources", NO_BACKEND)],
        working_dir: Some(cand("/w/resources", NO_BACKEND)),
    };
    assert_eq!(locate(&inp), Some("/w/resources".to_string()));
}

#[test]
fn falls_back_to_beside_executable_as_last_guess() {
    let inp = SearchInputs {
        beside_executable: Some(cand("/opt/app/resources", MISSING)),
        packaged: None,
        ancestors: vec![],
        working_dir: None,
    };
    assert_eq!(locate(&inp), Some("/opt/app/resources".to_string()));
}

#[test]
fn no_candidate_at_all() {
    let inp = SearchInputs { beside_executable: None, packaged: None, ancestors: vec![], working_dir: None };
    assert_eq!(locate(&inp), None);
}

#[test]
fn join_inserts_one_separator() {
    assert_eq!(join(Platform::Unix, "/app", "resources"), "/app/resources");
    assert_eq!(join(Platform::Unix, "/", "resources"), "/resources");
    assert_eq!(join(Platform::Unix, "", "resources"), "resources");
    assert_eq!(join(Platform::Windows, "C:\\app", "resources"), "C:\\app\\resources");
    assert_eq!(join(Platform::Windows, "C:\\app\\", "resources"), "C:\\app\\resources");
    assert_eq!(join(Platform::Windows, "C:/app/", "resources"), "C:/app/resources");
}

#[test]
fn candidate_paths() {
    assert_eq!(resources_path(Platform::Unix, "/opt/app"), "/opt/app/resources");
    assert_eq!(project_marker_path(Platform::Unix, "/home/u/proj"), "/home/u/proj/src-tauri");
    assert_eq!(resources_path(Platform::Windows, "D:\\app"), "D:\\app\\resources");
}

#[test]
fn subdirectory_paths() {
    assert_eq!(python_dir_path(Platform::Unix, "/app/resources"), "/app/resources/python");
    assert_eq!(backend_dir_path(Platform::Unix, "/app/resources/"), "/app/resources/backend");
    assert_eq!(backend_dir_path(Platform::Windows, "C:\\r"), "C:\\r\\backend");
}
