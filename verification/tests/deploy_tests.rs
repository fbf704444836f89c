use std::collections::HashMap;

use lcmods::deploy::{judge_step, plan_deploy, plan_redeploy, DeployError, IoStep, StepVerdict};
use lcmods::payload::{is_safe_entry_name, PayloadEntry};

fn dir(name: &str) -> PayloadEntry {
    PayloadEntry { name: name.to_string(), is_dir: true, data: Vec::new() }
}

fn file(name: &str, data: &[u8]) -> PayloadEntry {
    PayloadEntry { name: name.to_string(), is_dir: false, data: data.to_vec() }
}

/// Runs a plan's first `upto` steps against an in-memory filesystem:
/// a path maps to `None` for a directory and `Some(bytes)` for a file.
fn apply(fs: &mut HashMap<String, Option<Vec<u8>>>, steps: &[IoStep], upto: usize) {
    for s in &steps[..upto] {
        match s {
            IoStep::MakeDir(p) => {
                fs.insert(p.clone(), None);
            }
            IoStep::WriteFile(p, d) => {
                fs.insert(p.clone(), Some(d.clone()));
            }
            IoStep::RemoveSubtree(p) => {
                fs.retain(|k, _| {
                    !(k == p
                        || (k.starts_with(p.as_str()) && k.as_bytes().get(p.len()) == Some(&b'/')))
                });
            }
        }
    }
}

#[test]
fn guard_classifies_entry_names() {
    assert!(is_safe_entry_name("BepInEx/plugins/mod.dll"));
    assert!(is_safe_entry_name("BepInEx/"));
    assert!(is_safe_entry_name("a/..b/c"));
    assert!(is_safe_entry_name("..."));
    assert!(is_safe_entry_name("a.b/c.d"));
    assert!(!is_safe_entry_name(""));
    assert!(!is_safe_entry_name("/etc/passwd"));
    assert!(!is_safe_entry_name(".."));
    assert!(!is_safe_entry_name("../evil.dll"));
    assert!(!is_safe_entry_name("a/../b"));
    assert!(!is_safe_entry_name("a/.."));
    assert!(!is_safe_entry_name("a\\b"));
    assert!(!is_safe_entry_name("C:/x"));
}

#[test]
fn traversal_entry_yields_no_plan() {
    let entries = vec![dir("BepInEx"), file("../evil.dll", b"x"), file("ok.txt", b"y")];
    match plan_deploy(&entries, "T") {
        Err(DeployError::PathTraversal(name)) => assert_eq!(name, "../evil.dll"),
        _ => panic!("expected PathTraversal"),
    }
}

#[test]
fn plan_lists_one_step_per_entry_in_order() {
    let entries = vec![dir("BepInEx"), file("BepInEx/core.dll", b"abc")];
    let steps = plan_deploy(&entries, "T").ok().unwrap();
    assert_eq!(steps.len(), 2);
    match &steps[0] {
        IoStep::MakeDir(p) => assert_eq!(p, "T/BepInEx"),
        _ => panic!("expected MakeDir"),
    }
    match &steps[1] {
        IoStep::WriteFile(p, d) => {
            assert_eq!(p, "T/BepInEx/core.dll");
            assert_eq!(d, b"abc");
        }
        _ => panic!("expected WriteFile"),
    }
}

#[test]
fn redeploy_plan_removes_subtree_first() {
    let entries = vec![file("BepInEx/core.dll", b"new")];
    let steps = plan_redeploy(&entries, "T", "BepInEx").ok().unwrap();
    assert_eq!(steps.len(), 2);
    match &steps[0] {
        IoStep::RemoveSubtree(p) => assert_eq!(p, "T/BepInEx"),
        _ => panic!("expected RemoveSubtree"),
    }
}

#[test]
fn judge_step_classifies_failures() {
    let entries = vec![file("BepInEx/core.dll", b"new")];
    let steps = plan_redeploy(&entries, "T", "BepInEx").ok().unwrap();
    assert!(matches!(judge_step(&steps, 0, None), StepVerdict::Continue));
    match judge_step(&steps, 0, Some("locked".to_string())) {
        StepVerdict::Abort(DeployError::RemovalFailed(c)) => assert_eq!(c, "locked"),
        _ => panic!("expected RemovalFailed"),
    }
    match judge_step(&steps, 1, Some("permission denied".to_string())) {
        StepVerdict::Abort(DeployError::ExtractionFailed(c)) => assert_eq!(c, "permission denied"),
        _ => panic!("expected ExtractionFailed"),
    }
}

#[test]
fn deploying_twice_gives_identical_file_set() {
    let entries = vec![dir("BepInEx"), file("BepInEx/a.dll", b"a"), file("readme.txt", b"r")];
    let steps = plan_deploy(&entries, "T").ok().unwrap();
    let mut once = HashMap::new();
    apply(&mut once, &steps, steps.len());
    let mut twice = once.clone();
    apply(&mut twice, &steps, steps.len());
    assert_eq!(once, twice);
    assert_eq!(once.len(), 3);
}

#[test]
fn redeploy_never_mixes_old_and_new_files() {
    let mut fs = HashMap::new();
    fs.insert("T/BepInEx".to_string(), None);
    fs.insert("T/BepInEx/old.dll".to_string(), Some(b"old".to_vec()));
    fs.insert("T/keep.txt".to_string(), Some(b"keep".to_vec()));
    let pre = fs.clone();

    let entries = vec![dir("BepInEx"), file("BepInEx/new.dll", b"new")];
    let steps = plan_redeploy(&entries, "T", "BepInEx").ok().unwrap();
    apply(&mut fs, &steps, steps.len());

    assert!(!fs.contains_key("T/BepInEx/old.dll"));
    assert_eq!(fs.get("T/BepInEx/new.dll"), Some(&Some(b"new".to_vec())));
    assert_eq!(fs.get("T/keep.txt"), Some(&Some(b"keep".to_vec())));

    // A removal failure aborts before any extraction step runs: the state
    // is exactly the pre-call state.
    let mut untouched = pre.clone();
    match judge_step(&steps, 0, Some("in use".to_string())) {
        StepVerdict::Abort(DeployError::RemovalFailed(_)) => {
            apply(&mut untouched, &steps, 0);
        }
        _ => panic!("expected RemovalFailed"),
    }
    assert_eq!(untouched, pre);
}

#[test]
fn interrupted_extraction_keeps_exactly_the_steps_already_run() {
    let entries = vec![dir("BepInEx"), file("BepInEx/a.dll", b"a"), file("BepInEx/b.dll", b"b")];
    let steps = plan_deploy(&entries, "T").ok().unwrap();
    let mut fs = HashMap::new();
    // The third step fails (say the volume is read-only from here on):
    // only the first two steps' paths exist.
    apply(&mut fs, &steps, 2);
    assert_eq!(fs.len(), 2);
    assert!(fs.contains_key("T/BepInEx"));
    assert_eq!(fs.get("T/BepInEx/a.dll"), Some(&Some(b"a".to_vec())));
    assert!(!fs.contains_key("T/BepInEx/b.dll"));
}
