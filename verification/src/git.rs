//! The state of a git repository, as far as a prompt shows it.
//!
//! Reading a repository is left to the caller, who hands over what was found as
//! [`RepoFacts`]. From that, [`status`] derives the [`Status`] to show: the name
//! of what is checked out, how many files are dirty or untracked, and how far the
//! branch has moved away from its upstream. A repository that cannot be opened,
//! has no commit to show or cannot list its files has no status at all; one
//! without an upstream still has one.

use vstd::prelude::*;
use crate::text::text_of;

verus! {

/// Flag of a file that is new in the index.
pub const INDEX_NEW: u32 = 0x0001;

/// Flag of a file that is modified in the index.
pub const INDEX_MODIFIED: u32 = 0x0002;

/// Flag of a file that is deleted from the index.
pub const INDEX_DELETED: u32 = 0x0004;

/// Flag of a file that is renamed in the index.
pub const INDEX_RENAMED: u32 = 0x0008;

/// Flag of a file whose type has changed in the index.
pub const INDEX_TYPECHANGE: u32 = 0x0010;

/// Flag of a file that is new in the working tree.
pub const WT_NEW: u32 = 0x0080;

/// Flag of a file that is modified in the working tree.
pub const WT_MODIFIED: u32 = 0x0100;

/// Flag of a file that is deleted from the working tree.
pub const WT_DELETED: u32 = 0x0200;

/// Flag of a file whose type has changed in the working tree.
pub const WT_TYPECHANGE: u32 = 0x0400;

/// Flag of a file that is renamed in the working tree.
pub const WT_RENAMED: u32 = 0x0800;

/// The flags of a change that is not committed yet: modified, deleted, renamed
/// or of another type, in the working tree or in the index.
pub const UNCOMMITTED_FLAGS: u32 = WT_MODIFIED | WT_DELETED | WT_RENAMED | WT_TYPECHANGE
    | INDEX_MODIFIED | INDEX_DELETED | INDEX_RENAMED | INDEX_TYPECHANGE;

/// What is checked out: a branch, or else a commit.
#[derive(Debug, Clone, Hash, PartialEq, Eq)]
pub enum RefName {
    /// The short name of the branch that HEAD points at.
    Branch(String),
    /// The full id of the commit that a detached HEAD leads to.
    Hash(String),
}

/// A [`RefName`] with its text as a sequence of characters.
pub enum RefNameView {
    Branch(Seq<char>),
    Hash(Seq<char>),
}

impl View for RefName {
    type V = RefNameView;

    open spec fn view(&self) -> RefNameView {
        match self {
            RefName::Branch(name) => RefNameView::Branch(name@),
            RefName::Hash(id) => RefNameView::Hash(id@),
        }
    }
}

/// How many files differ from what is committed.
#[derive(Debug, Clone, PartialEq, Eq, Structural)]
pub struct FilesStatus {
    /// Files with a change that is not committed.
    pub uncommitted_files: u32,
    /// Files that git does not track yet.
    pub untracked_files: u32,
}

impl Default for FilesStatus {
    fn default() -> (files: FilesStatus)
        ensures
            files == (FilesStatus { uncommitted_files: 0, untracked_files: 0 }),
    {
        FilesStatus { uncommitted_files: 0, untracked_files: 0 }
    }
}

/// How far a branch and its upstream have moved apart.
#[derive(Debug, Clone, PartialEq, Eq, Structural)]
pub struct UpstreamStatus {
    /// Commits of the branch that the upstream lacks.
    pub commits_ahead: u32,
    /// Commits of the upstream that the branch lacks.
    pub commits_behind: u32,
}

impl Default for UpstreamStatus {
    fn default() -> (upstream: UpstreamStatus)
        ensures
            upstream == (UpstreamStatus { commits_ahead: 0, commits_behind: 0 }),
    {
        UpstreamStatus { commits_ahead: 0, commits_behind: 0 }
    }
}

/// The state of a repository at one moment.
#[derive(Debug, Clone, PartialEq, Eq)]
pub struct Status {
    pub ref_name: RefName,
    pub files: FilesStatus,
    /// Absent where the branch has no upstream.
    pub upstream: Option<UpstreamStatus>,
}

/// A [`Status`] with its text as sequences of characters.
pub struct StatusView {
    pub ref_name: RefNameView,
    pub files: FilesStatus,
    pub upstream: Option<UpstreamStatus>,
}

impl View for Status {
    type V = StatusView;

    open spec fn view(&self) -> StatusView {
        StatusView { ref_name: self.ref_name@, files: self.files, upstream: self.upstream }
    }
}

/// What was read of HEAD.
#[derive(Debug, Clone, PartialEq, Eq)]
pub struct Head {
    /// Whether HEAD points at a branch.
    pub is_branch: bool,
    /// The short name of what HEAD points at, where it has one.
    pub shorthand: Option<String>,
    /// The full id of the commit that HEAD leads to, where it leads to one.
    pub commit: Option<String>,
}

/// What was read of a repository.
#[derive(Debug, Clone, PartialEq, Eq)]
pub struct RepoFacts {
    /// HEAD, where it could be resolved.
    pub head: Option<Head>,
    /// The flags of each file that differs from what is committed, where the
    /// files could be listed.
    pub entries: Option<Vec<u32>>,
    /// How many commits the branch is ahead of its upstream and how many
    /// behind, where it has an upstream and the two could be compared.
    pub ahead_behind: Option<(usize, usize)>,
}

/// A [`Head`] with its text as sequences of characters.
pub struct HeadView {
    pub is_branch: bool,
    pub shorthand: Option<Seq<char>>,
    pub commit: Option<Seq<char>>,
}

impl View for Head {
    type V = HeadView;

    open spec fn view(&self) -> HeadView {
        HeadView {
            is_branch: self.is_branch,
            shorthand: text_of(self.shorthand),
            commit: text_of(self.commit),
        }
    }
}

/// [`RepoFacts`] with text and lists as sequences.
pub struct RepoFactsView {
    pub head: Option<HeadView>,
    pub entries: Option<Seq<u32>>,
    pub ahead_behind: Option<(usize, usize)>,
}

impl View for RepoFacts {
    type V = RepoFactsView;

    open spec fn view(&self) -> RepoFactsView {
        RepoFactsView {
            head: match self.head {
                Some(head) => Some(head@),
                None => None,
            },
            entries: match self.entries {
                Some(entries) => Some(entries@),
                None => None,
            },
            ahead_behind: self.ahead_behind,
        }
    }
}

/// The view of what was read, where a repository was found.
pub open spec fn found_view(found: Option<RepoFacts>) -> Option<RepoFactsView> {
    match found {
        Some(facts) => Some(facts@),
        None => None,
    }
}

/// The view of a name, where there is one.
pub open spec fn name_view(name: Option<RefName>) -> Option<RefNameView> {
    match name {
        Some(n) => Some(n@),
        None => None,
    }
}

/// The view of a status, where there is one.
pub open spec fn status_view(status: Option<Status>) -> Option<StatusView> {
    match status {
        Some(s) => Some(s@),
        None => None,
    }
}

/// The name to show for a HEAD: the branch where it points at one that has a
/// short name, else the commit it leads to, else nothing.
pub open spec fn ref_name_of(head: HeadView) -> Option<RefNameView> {
    if head.is_branch && head.shorthand is Some {
        Some(RefNameView::Branch(head.shorthand->0))
    } else if head.commit is Some {
        Some(RefNameView::Hash(head.commit->0))
    } else {
        None
    }
}

/// Whether a file with these flags is untracked: new in the working tree, and
/// nothing else.
pub open spec fn is_untracked(flags: u32) -> bool {
    flags == WT_NEW
}

/// Whether a file with these flags counts as uncommitted: it is not untracked,
/// and one of [`UNCOMMITTED_FLAGS`] is set.
pub open spec fn is_uncommitted(flags: u32) -> bool {
    !is_untracked(flags) && flags & UNCOMMITTED_FLAGS != 0
}

/// How many of `entries` are untracked.
pub open spec fn count_untracked(entries: Seq<u32>) -> nat
    decreases entries.len(),
{
    if entries.len() == 0 {
        0
    } else {
        count_untracked(entries.drop_last()) + if is_untracked(entries.last()) {
            1nat
        } else {
            0nat
        }
    }
}

/// How many of `entries` are uncommitted.
pub open spec fn count_uncommitted(entries: Seq<u32>) -> nat
    decreases entries.len(),
{
    if entries.len() == 0 {
        0
    } else {
        count_uncommitted(entries.drop_last()) + if is_uncommitted(entries.last()) {
            1nat
        } else {
            0nat
        }
    }
}

/// The counts for a list of files, given by their flags.
pub open spec fn files_of(entries: Seq<u32>) -> FilesStatus {
    FilesStatus {
        uncommitted_files: count_uncommitted(entries) as u32,
        untracked_files: count_untracked(entries) as u32,
    }
}

/// The distance to show for what the comparison with the upstream gave.
pub open spec fn upstream_of(ahead_behind: Option<(usize, usize)>) -> Option<UpstreamStatus> {
    match ahead_behind {
        Some((ahead, behind)) => Some(
            UpstreamStatus { commits_ahead: ahead as u32, commits_behind: behind as u32 },
        ),
        None => None,
    }
}

/// The status of a repository of which `found` was read; none where no
/// repository was found, HEAD leads to nothing that has a name, or the files
/// could not be listed. A missing upstream takes nothing away from the rest.
pub open spec fn status_of(found: Option<RepoFactsView>) -> Option<StatusView> {
    match found {
        Some(facts) => {
            if facts.head is Some && ref_name_of(facts.head->0) is Some && facts.entries is Some {
                Some(
                    StatusView {
                        ref_name: ref_name_of(facts.head->0)->0,
                        files: files_of(facts.entries->0),
                        upstream: upstream_of(facts.ahead_behind),
                    },
                )
            } else {
                None
            }
        },
        None => None,
    }
}

/// Reading an unchanged repository twice gives the same status: two readings
/// that hold the same facts have equal statuses.
pub proof fn lemma_status_of_same_facts(first: Option<RepoFacts>, second: Option<RepoFacts>)
    requires
        found_view(first) == found_view(second),
    ensures
        status_of(found_view(first)) == status_of(found_view(second)),
{
}

/// A repository has a status exactly where it was found, its HEAD has a name
/// to show and its files could be listed; whether it has an upstream plays no part.
pub proof fn lemma_status_present(found: Option<RepoFactsView>)
    ensures
        status_of(found) is Some <==> found is Some && found->0.head is Some && ref_name_of(
            found->0.head->0,
        ) is Some && found->0.entries is Some,
        status_of(found) is Some ==> status_of(found)->0.upstream == upstream_of(
            found->0.ahead_behind,
        ),
{
}

/// No file counts twice: the untracked and the uncommitted ones together are
/// at most all files.
pub proof fn lemma_counts_are_disjoint(entries: Seq<u32>)
    ensures
        count_untracked(entries) + count_uncommitted(entries) <= entries.len(),
    decreases entries.len(),
{
    if entries.len() > 0 {
        lemma_counts_are_disjoint(entries.drop_last());
    }
}

/// A file that is only new in the working tree has none of the flags of an
/// uncommitted change, so it makes no difference which of the two is asked first.
pub proof fn lemma_untracked_has_no_uncommitted_flag(flags: u32)
    requires
        is_untracked(flags),
    ensures
        flags & UNCOMMITTED_FLAGS == 0,
{
    assert(WT_NEW & UNCOMMITTED_FLAGS == 0) by (bit_vector);
}

/// The name to show for `head`.
pub fn ref_name(head: Head) -> (name: Option<RefName>)
    ensures
        name_view(name) == ref_name_of(head@),
{
    let Head { is_branch, shorthand, commit } = head;
    let branch: Option<RefName> = if is_branch {
        match shorthand {
            Some(short) => Some(RefName::Branch(short)),
            None => None,
        }
    } else {
        None
    };
    match branch {
        Some(b) => Some(b),
        None => match commit {
            Some(id) => Some(RefName::Hash(id)),
            None => None,
        },
    }
}

/// Counts the untracked and the uncommitted among the files with these flags.
pub fn files_status(entries: &Vec<u32>) -> (files: FilesStatus)
    requires
        entries@.len() <= u32::MAX,
    ensures
        files.untracked_files == count_untracked(entries@),
        files.uncommitted_files == count_uncommitted(entries@),
        files == files_of(entries@),
{
    let mut files = FilesStatus::default();
    let mut i: usize = 0;
    while i < entries.len()
        invariant
            i <= entries@.len() <= u32::MAX,
            files.untracked_files == count_untracked(entries@.take(i as int)),
            files.uncommitted_files == count_uncommitted(entries@.take(i as int)),
        decreases entries@.len() - i,
    {
        let flags: u32 = entries[i];
        proof {
            let next = entries@.take(i + 1);
            assert(next.drop_last() =~= entries@.take(i as int));
            assert(next.last() == flags);
            lemma_counts_are_disjoint(entries@.take(i as int));
        }
        if flags == WT_NEW {
            files.untracked_files += 1;
        } else if flags & UNCOMMITTED_FLAGS != 0 {
            files.uncommitted_files += 1;
        }
        i += 1;
    }
    assert(entries@.take(i as int) =~= entries@);
    files
}

/// The distance to show for what the comparison with the upstream gave. Counts
/// beyond 32 bits keep their low 32 bits.
pub fn upstream_status(ahead_behind: Option<(usize, usize)>) -> (upstream: Option<UpstreamStatus>)
    ensures
        upstream == upstream_of(ahead_behind),
{
    match ahead_behind {
        Some((ahead, behind)) => Some(
            UpstreamStatus { commits_ahead: ahead as u32, commits_behind: behind as u32 },
        ),
        None => None,
    }
}

/// The status of a repository of which `found` was read.
pub fn status(found: Option<RepoFacts>) -> (status: Option<Status>)
    requires
        found is Some && found->0.entries is Some ==> found->0.entries->0@.len() <= u32::MAX,
    ensures
        status_view(status) == status_of(found_view(found)),
{
    let facts = found?;
    let RepoFacts { head, entries, ahead_behind } = facts;
    let ref_name = ref_name(head?)?;
    let files = files_status(&entries?);
    let upstream = upstream_status(ahead_behind);
    Some(Status { ref_name, files, upstream })
}

} // verus!
