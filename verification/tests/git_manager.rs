use rust_core::agent::git::{
    find_repo_root, generate_commit_message, nearest_repo_root, parent_path_str, repo_probe_path,
    CommitDecision, FileSnapshot,
    GitManager, WorktreePlan,
};

#[test]
fn generate_commit_message_test_files() {
    let files = vec!["M\ttests/test_foo.rs".to_string()];
    assert!(generate_commit_message(&files).contains("test:"));
}

#[test]
fn generate_commit_message_docs() {
    let files = vec!["M\tREADME.md".to_string()];
    assert!(generate_commit_message(&files).contains("docs:"));
}

#[test]
fn generate_commit_message_toml_lock_json() {
    let files = vec!["M\tCargo.toml".to_string(), "M\tCargo.lock".to_string()];
    assert!(generate_commit_message(&files).contains("chore:"));
}

#[test]
fn generate_commit_message_with_no_extension() {
    let files = vec!["M\tMakefile".to_string()];
    assert!(generate_commit_message(&files).contains("feat:"));
}

#[test]
fn generate_commit_message_with_tab_prefixes() {
    let files = vec!["A\tnew_file.rs".to_string(), "D\told_file.rs".to_string()];
    assert!(generate_commit_message(&files).contains("feat:"));
}

#[test]
fn find_repo_root_finds_git() {
    let root = find_repo_root(".");
    let _ = root;
}

#[test]
fn find_repo_root_not_found() {
    let root = find_repo_root("/nonexistent-git-test-find-none/a/b");
    assert!(root.is_none());
}

#[test]
fn git_manager_toggles() {
    let mut manager = GitManager::open(".", false);
    assert!(manager.status_visible());
    manager.toggle_status_display();
    assert!(!manager.status_visible());
    manager.toggle_status_display();
    assert!(manager.status_visible());
}

#[test]
fn clear_snapshots() {
    let mut manager = GitManager::open(".", false);
    manager.record_snapshot(FileSnapshot { path: "a".into(), hash: "h".into(), size: 1 });
    manager.clear_snapshots();
    assert_eq!(manager.snapshot_count(), 0);
}

#[test]
fn git_manager_repo_path() {
    let manager = GitManager::open("/some/repo", false);
    assert_eq!(manager.repo_path(), "/some/repo");
}

#[test]
fn git_manager_set_auto_commit() {
    let mut manager = GitManager::open(".", false);
    manager.set_auto_commit(false);
    assert!(!manager.auto_commit_enabled());
    manager.set_auto_commit(true);
    assert!(manager.auto_commit_enabled());
}

#[test]
fn git_manager_set_branch_isolation() {
    let mut manager = GitManager::open(".", false);
    manager.set_branch_isolation(false);
    assert!(!manager.branch_isolation_enabled());
    manager.set_branch_isolation(true);
    assert!(manager.branch_isolation_enabled());
}

#[test]
fn git_manager_debug_format() {
    let manager = GitManager::open(".", false);
    let debug_str = format!("{manager:?}");
    assert!(!debug_str.is_empty());
    assert!(debug_str.contains("GitManager"));
}

#[test]
fn auto_commit_disabled() {
    let manager = GitManager::open("/tmp/git-test-disabled", false);
    assert!(matches!(manager.auto_commit(&vec![], None), CommitDecision::NoRepository));
}

#[test]
fn auto_commit_disabled_with_real_repo() {
    let mut manager = GitManager::open("/tmp/repo", true);
    manager.set_auto_commit(false);
    match manager.auto_commit(&vec!["test_file.rs".to_string()], None) {
        CommitDecision::Skip(result) => assert!(!result.committed),
        _ => panic!("expected no commit"),
    }
    manager.set_auto_commit(true);
    match manager.auto_commit(&vec!["  src/main.rs  ".to_string()], None) {
        CommitDecision::Commit { message, files_changed } => {
            assert_eq!(files_changed, vec!["M\tsrc/main.rs".to_string()]);
            assert_eq!(message, "feat: update src/main.rs");
        }
        _ => panic!("expected a commit"),
    }
}

#[test]
fn revert_to_snapshot_no_match() {
    let mut manager = GitManager::open("/tmp/x", false);
    assert!(manager.take_snapshot("nonexistent.txt").is_none());
}

#[test]
fn snapshot_file_then_clear() {
    let mut manager = GitManager::open("/tmp/x", true);
    manager.record_snapshot(FileSnapshot { path: "snap.txt".into(), hash: "0".into(), size: 4 });
    assert_eq!(manager.snapshot_count(), 1);
    manager.record_snapshot(FileSnapshot { path: "other.txt".into(), hash: "1".into(), size: 2 });
    let taken = manager.take_snapshot("snap.txt").unwrap();
    assert_eq!(taken.size, 4);
    assert_eq!(manager.snapshot_count(), 1);
    manager.clear_snapshots();
    assert_eq!(manager.snapshot_count(), 0);
}

#[test]
fn branch_isolation_disabled_uses_main_worktree() {
    let mut manager = GitManager::open("/tmp/repo", true);
    manager.set_branch_isolation(false);
    match manager.create_subagent_worktree("test-agent") {
        Ok(WorktreePlan::MainWorktree(p)) => assert_eq!(p, "/tmp/repo"),
        _ => panic!("expected the main worktree"),
    }
    manager.set_branch_isolation(true);
    match manager.create_subagent_worktree("a1") {
        Ok(WorktreePlan::Isolated { branch, path }) => {
            assert_eq!(branch, "subagent/a1");
            assert_eq!(path, "/tmp/.pi-worktrees/a1");
        }
        _ => panic!("expected an isolated worktree"),
    }
    let none = GitManager::open("/tmp/repo", false);
    assert_eq!(none.create_subagent_worktree("a1").unwrap_err(), "No git repository available");
}

#[test]
fn parent_paths_follow_path_parent() {
    assert_eq!(parent_path_str("/a/b").as_deref(), Some("/a"));
    assert_eq!(parent_path_str("/a").as_deref(), Some("/"));
    assert_eq!(parent_path_str("/"), None);
    assert_eq!(parent_path_str(""), None);
    assert_eq!(parent_path_str("a").as_deref(), Some(""));
    assert_eq!(parent_path_str("a/b/").as_deref(), Some("a"));
    assert_eq!(parent_path_str("./a").as_deref(), Some("."));
}

#[test]
fn nearest_repo_root_takes_the_first_yes_going_up() {
    assert_eq!(nearest_repo_root("/a/b/c", &vec![false, true, true]), Some("/a/b".to_string()));
    assert_eq!(nearest_repo_root("/a/b/c", &vec![true]), Some("/a/b/c".to_string()));
    assert_eq!(nearest_repo_root("/a", &vec![false, false, true]), None);
    assert_eq!(nearest_repo_root("/a/b", &vec![false, false]), None);
    assert_eq!(repo_probe_path("/a/b"), "/a/b/.git");
}
