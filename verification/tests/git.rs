use ps1::git::{
    files_status, ref_name, status, upstream_status, FilesStatus, Head, RefName, RepoFacts,
    Status, UpstreamStatus, INDEX_DELETED, INDEX_MODIFIED, INDEX_NEW, INDEX_RENAMED,
    INDEX_TYPECHANGE, UNCOMMITTED_FLAGS, WT_DELETED, WT_MODIFIED, WT_NEW, WT_RENAMED,
    WT_TYPECHANGE,
};

fn on_branch(name: &str) -> Head {
    Head {
        is_branch: true,
        shorthand: Some(name.to_string()),
        commit: Some("8d1e4f2a9b3c5d6e7f8091a2b3c4d5e6f7a8b9c0".to_string()),
    }
}

fn detached(id: &str) -> Head {
    Head { is_branch: false, shorthand: Some("HEAD".to_string()), commit: Some(id.to_string()) }
}

#[test]
fn no_repository_has_no_status() {
    assert_eq!(status(None), None);
}

#[test]
fn clean_branch_without_upstream() {
    let found = RepoFacts { head: Some(on_branch("main")), entries: Some(vec![]), ahead_behind: None };
    assert_eq!(
        status(Some(found)),
        Some(Status {
            ref_name: RefName::Branch("main".to_string()),
            files: FilesStatus { uncommitted_files: 0, untracked_files: 0 },
            upstream: None,
        })
    );
}

#[test]
fn two_modified_and_three_untracked_files() {
    let entries = vec![WT_NEW, WT_MODIFIED, WT_NEW, WT_MODIFIED, WT_NEW];
    let found = RepoFacts { head: Some(on_branch("main")), entries: Some(entries), ahead_behind: None };
    let status = status(Some(found)).unwrap();
    assert_eq!(status.files, FilesStatus { uncommitted_files: 2, untracked_files: 3 });
}

#[test]
fn two_ahead_and_one_behind() {
    let found = RepoFacts {
        head: Some(on_branch("topic")),
        entries: Some(vec![]),
        ahead_behind: Some((2, 1)),
    };
    let status = status(Some(found)).unwrap();
    assert_eq!(status.upstream, Some(UpstreamStatus { commits_ahead: 2, commits_behind: 1 }));
    assert_eq!(status.ref_name, RefName::Branch("topic".to_string()));
}

#[test]
fn reading_twice_gives_the_same_status() {
    let found = RepoFacts {
        head: Some(on_branch("main")),
        entries: Some(vec![WT_NEW, INDEX_MODIFIED, WT_DELETED | INDEX_RENAMED]),
        ahead_behind: Some((0, 7)),
    };
    let first = status(Some(found.clone()));
    let second = status(Some(found));
    assert!(first.is_some());
    assert_eq!(first, second);
}

#[test]
fn detached_head_shows_the_commit() {
    let id = "0123456789abcdef0123456789abcdef01234567";
    assert_eq!(ref_name(detached(id)), Some(RefName::Hash(id.to_string())));
    let found = RepoFacts { head: Some(detached(id)), entries: Some(vec![]), ahead_behind: None };
    assert_eq!(status(Some(found)).unwrap().ref_name, RefName::Hash(id.to_string()));
}

#[test]
fn branch_goes_before_commit() {
    let head = on_branch("main");
    assert!(head.commit.is_some());
    assert_eq!(ref_name(head), Some(RefName::Branch("main".to_string())));
}

#[test]
fn branch_without_a_short_name_shows_the_commit() {
    let head = Head { is_branch: true, shorthand: None, commit: Some("abc".to_string()) };
    assert_eq!(ref_name(head), Some(RefName::Hash("abc".to_string())));
}

#[test]
fn head_that_leads_nowhere_has_no_name() {
    let head = Head { is_branch: false, shorthand: Some("HEAD".to_string()), commit: None };
    assert_eq!(ref_name(head), None);
    let head = Head { is_branch: true, shorthand: None, commit: None };
    assert_eq!(ref_name(head), None);
}

#[test]
fn unresolved_head_has_no_status() {
    let found = RepoFacts { head: None, entries: Some(vec![WT_NEW]), ahead_behind: Some((1, 1)) };
    assert_eq!(status(Some(found)), None);
    let nameless = Head { is_branch: false, shorthand: None, commit: None };
    let found = RepoFacts { head: Some(nameless), entries: Some(vec![]), ahead_behind: None };
    assert_eq!(status(Some(found)), None);
}

#[test]
fn unlisted_files_have_no_status() {
    let found = RepoFacts { head: Some(on_branch("main")), entries: None, ahead_behind: Some((1, 1)) };
    assert_eq!(status(Some(found)), None);
}

#[test]
fn missing_upstream_is_absent_not_zero() {
    assert_eq!(upstream_status(None), None);
    assert_eq!(
        upstream_status(Some((0, 0))),
        Some(UpstreamStatus { commits_ahead: 0, commits_behind: 0 })
    );
    assert_ne!(upstream_status(None), Some(UpstreamStatus::default()));
}

#[test]
fn upstream_counts_keep_their_low_32_bits() {
    assert_eq!(
        upstream_status(Some((u32::MAX as usize, 3))),
        Some(UpstreamStatus { commits_ahead: u32::MAX, commits_behind: 3 })
    );
    let big = (u32::MAX as u64 + 6) as usize;
    assert_eq!(
        upstream_status(Some((big, big))),
        Some(UpstreamStatus { commits_ahead: big as u32, commits_behind: big as u32 })
    );
}

#[test]
fn defaults_are_zero() {
    assert_eq!(FilesStatus::default(), FilesStatus { uncommitted_files: 0, untracked_files: 0 });
    assert_eq!(UpstreamStatus::default(), UpstreamStatus { commits_ahead: 0, commits_behind: 0 });
    assert_eq!(files_status(&vec![]), FilesStatus::default());
}

#[test]
fn each_uncommitted_flag_counts_once() {
    let flags = [
        WT_MODIFIED,
        WT_DELETED,
        WT_RENAMED,
        WT_TYPECHANGE,
        INDEX_MODIFIED,
        INDEX_DELETED,
        INDEX_RENAMED,
        INDEX_TYPECHANGE,
    ];
    let mut union = 0;
    for flag in flags {
        assert_eq!(
            files_status(&vec![flag]),
            FilesStatus { uncommitted_files: 1, untracked_files: 0 },
            "flag {:#x}",
            flag
        );
        union |= flag;
    }
    assert_eq!(union, UNCOMMITTED_FLAGS);
    assert_eq!(
        files_status(&flags.to_vec()),
        FilesStatus { uncommitted_files: 8, untracked_files: 0 }
    );
    // Several flags on one file still make one file.
    assert_eq!(
        files_status(&vec![UNCOMMITTED_FLAGS]),
        FilesStatus { uncommitted_files: 1, untracked_files: 0 }
    );
}

#[test]
fn untracked_means_new_in_the_working_tree_and_nothing_else() {
    assert_eq!(files_status(&vec![WT_NEW]), FilesStatus { uncommitted_files: 0, untracked_files: 1 });
    assert_eq!(
        files_status(&vec![WT_NEW | INDEX_DELETED]),
        FilesStatus { uncommitted_files: 1, untracked_files: 0 }
    );
    assert_eq!(
        files_status(&vec![WT_NEW | WT_MODIFIED]),
        FilesStatus { uncommitted_files: 1, untracked_files: 0 }
    );
    // New and ignored at once is neither untracked nor uncommitted.
    assert_eq!(files_status(&vec![WT_NEW | 0x4000]), FilesStatus::default());
}

#[test]
fn other_flags_count_as_nothing() {
    let current = 0;
    let unreadable = 0x1000;
    let ignored = 0x4000;
    let conflicted = 0x8000;
    assert_eq!(
        files_status(&vec![current, INDEX_NEW, unreadable, ignored, conflicted]),
        FilesStatus::default()
    );
}

#[test]
fn no_file_counts_twice() {
    let mut entries = Vec::new();
    for flags in 0u32..0x1_0000 {
        entries.push(flags);
    }
    let files = files_status(&entries);
    assert!(files.untracked_files as usize + files.uncommitted_files as usize <= entries.len());
    assert_eq!(files.untracked_files, 1);
    let uncommitted = entries.iter().filter(|&&f| f & UNCOMMITTED_FLAGS != 0).count();
    assert_eq!(files.uncommitted_files as usize, uncommitted);
}

#[test]
fn flags_are_those_of_git2() {
    assert_eq!(INDEX_NEW, git2::Status::INDEX_NEW.bits());
    assert_eq!(INDEX_MODIFIED, git2::Status::INDEX_MODIFIED.bits());
    assert_eq!(INDEX_DELETED, git2::Status::INDEX_DELETED.bits());
    assert_eq!(INDEX_RENAMED, git2::Status::INDEX_RENAMED.bits());
    assert_eq!(INDEX_TYPECHANGE, git2::Status::INDEX_TYPECHANGE.bits());
    assert_eq!(WT_NEW, git2::Status::WT_NEW.bits());
    assert_eq!(WT_MODIFIED, git2::Status::WT_MODIFIED.bits());
    assert_eq!(WT_DELETED, git2::Status::WT_DELETED.bits());
    assert_eq!(WT_TYPECHANGE, git2::Status::WT_TYPECHANGE.bits());
    assert_eq!(WT_RENAMED, git2::Status::WT_RENAMED.bits());
    let uncommitted = git2::Status::WT_MODIFIED
        | git2::Status::WT_DELETED
        | git2::Status::WT_RENAMED
        | git2::Status::WT_TYPECHANGE
        | git2::Status::INDEX_MODIFIED
        | git2::Status::INDEX_DELETED
        | git2::Status::INDEX_RENAMED
        | git2::Status::INDEX_TYPECHANGE;
    assert_eq!(UNCOMMITTED_FLAGS, uncommitted.bits());
}

#[test]
fn flags_are_told_apart_as_git2_tells_them() {
    let uncommitted = git2::Status::from_bits_truncate(UNCOMMITTED_FLAGS);
    for bits in 0u32..0x1_0000 {
        let theirs = git2::Status::from_bits_truncate(bits);
        let expected = if theirs == git2::Status::WT_NEW {
            FilesStatus { uncommitted_files: 0, untracked_files: 1 }
        } else if theirs.intersects(uncommitted) {
            FilesStatus { uncommitted_files: 1, untracked_files: 0 }
        } else {
            FilesStatus::default()
        };
        assert_eq!(files_status(&vec![theirs.bits()]), expected, "flags {:#x}", bits);
    }
}
