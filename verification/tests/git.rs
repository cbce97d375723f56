use rust_core::agent::git::{
    decide_auto_commit, generate_commit_message, status_from_entries, AutoCommitResult,
    CommitDecision, FileSnapshot, GitStatus, StatusFlags,
};

fn flags() -> StatusFlags {
    StatusFlags {
        index_new: false,
        index_modified: false,
        index_deleted: false,
        wt_new: false,
        wt_modified: false,
        wt_deleted: false,
    }
}

#[test]
fn generate_commit_message_empty_files() {
    let msg = generate_commit_message(&[]);
    assert_eq!(msg, "chore: empty commit");
}

#[test]
fn auto_commit_result_defaults() {
    let result = AutoCommitResult {
        committed: false,
        commit_oid: None,
        message: String::new(),
        files_changed: vec![],
        stats: None,
    };
    assert!(!result.committed);
    assert!(result.commit_oid.is_none());
}

#[test]
fn git_status_defaults() {
    let status = GitStatus {
        branch: "main".into(),
        is_clean: true,
        modified: 0,
        staged: 0,
        untracked: 0,
        changed_files: vec![],
        detached: false,
    };
    assert_eq!(status.branch, "main");
    assert!(status.is_clean);
}

#[test]
fn file_snapshot_fields() {
    let snap = FileSnapshot { path: "test.rs".to_string(), hash: "abc123".into(), size: 100 };
    assert_eq!(snap.path, "test.rs");
    assert_eq!(snap.hash, "abc123");
    assert_eq!(snap.size, 100);
}

#[test]
fn generate_commit_message_single_file() {
    let files = vec!["M\tsrc/main.rs".to_string()];
    let msg = generate_commit_message(&files);
    assert_eq!(msg, "feat: update src/main.rs");
}

#[test]
fn generate_commit_message_multiple_files() {
    let files = vec![
        "M\tsrc/main.rs".to_string(),
        "M\tsrc/lib.rs".to_string(),
        "M\ttests/integration.rs".to_string(),
        "A\tnew_file.rs".to_string(),
    ];
    let msg = generate_commit_message(&files);
    assert!(msg.contains("and 1 more"));
    assert_eq!(msg, "test: update src/main.rs, src/lib.rs, tests/integration.rs and 1 more");
}

#[test]
fn generate_commit_message_kinds() {
    assert!(generate_commit_message(&["M\ttests/test_foo.rs".to_string()]).contains("test:"));
    assert!(generate_commit_message(&["M\tREADME.md".to_string()]).contains("docs:"));
    assert!(generate_commit_message(&["M\tCargo.toml".to_string(), "M\tCargo.lock".to_string()])
        .contains("chore:"));
    assert!(generate_commit_message(&["M\tMakefile".to_string()]).contains("feat:"));
    assert_eq!(generate_commit_message(&["plain".to_string()]), "feat: update plain");
}

#[test]
fn status_tally_counts_each_kind() {
    let mut staged = flags();
    staged.index_new = true;
    let mut both = flags();
    both.index_modified = true;
    both.wt_modified = true;
    let mut new = flags();
    new.wt_new = true;
    let entries = vec![
        ("a.rs".to_string(), staged),
        ("b.rs".to_string(), both),
        ("c.rs".to_string(), new),
    ];
    let st = status_from_entries(true, Some("main".to_string()), &entries);
    assert_eq!(st.branch, "main");
    assert_eq!((st.staged, st.modified, st.untracked), (2, 1, 1));
    assert!(!st.is_clean);
    assert_eq!(
        st.changed_files,
        vec!["[staged] a.rs", "[staged] b.rs", "[modified] b.rs", "[untracked] c.rs"]
    );
    let detached = status_from_entries(false, None, &vec![]);
    assert_eq!(detached.branch, "HEAD (detached)");
    assert!(detached.detached);
    assert!(detached.is_clean);
}

#[test]
fn auto_commit_decisions() {
    assert!(matches!(decide_auto_commit(false, true, &vec![], None), CommitDecision::NoRepository));
    match decide_auto_commit(true, false, &vec!["a".to_string()], None) {
        CommitDecision::Skip(r) => assert!(!r.committed && r.message.is_empty()),
        other => panic!("unexpected {other:?}"),
    }
    match decide_auto_commit(true, true, &vec!["  ".to_string()], None) {
        CommitDecision::Skip(r) => assert_eq!(r.message, "No changes to commit"),
        other => panic!("unexpected {other:?}"),
    }
    match decide_auto_commit(true, true, &vec![" src/x.rs\n".to_string()], None) {
        CommitDecision::Commit { message, files_changed } => {
            assert_eq!(files_changed, vec!["M\tsrc/x.rs".to_string()]);
            assert_eq!(message, "feat: update src/x.rs");
        }
        other => panic!("unexpected {other:?}"),
    }
}
