//! Collects the readings of a repository and assembles its snapshot.
//!
//! Each query is made on its own and degrades on its own: one that fails
//! leaves its counter at zero (or the branch absent) and the rest of the
//! snapshot as it is. The functions that make the queries decide nothing:
//! `assemble_snapshot` says what the snapshot is for whatever they
//! returned. Nothing is written: the one query that would create a file
//! where it finds none, the read of a reference's log, is made only for a
//! reference that exists.

use crate::models::git_repo_state::{GitRepoState, RepoSnapshot};
use crate::models::git_special_state::text_of;
use crate::services::git_queries::{discover_repository, find_local_branch, status_flags};
use crate::services::git_state_detector::{
    classified,
    classify,
    lemma_detection_is_repeatable,
    read_operation,
    HeadProbe,
    HeadReading,
    OperationFlag,
    RebaseSteps,
};
use git2::{Repository, StatusOptions};
use vstd::prelude::*;

verus! {

/// The status flags of one entry of a status list.
#[derive(Debug, Clone, Copy, PartialEq, Eq, Structural)]
pub struct EntryFlags {
    /// Newly added to the index.
    pub index_new: bool,
    /// Modified in the index.
    pub index_modified: bool,
    /// Deleted from the index.
    pub index_deleted: bool,
    /// Renamed in the index.
    pub index_renamed: bool,
    /// Changed in type in the index.
    pub index_typechange: bool,
    /// New in the working tree: untracked.
    pub wt_new: bool,
    /// Modified in the working tree.
    pub wt_modified: bool,
    /// Deleted from the working tree.
    pub wt_deleted: bool,
    /// Changed in type in the working tree.
    pub wt_typechange: bool,
    /// Renamed in the working tree.
    pub wt_renamed: bool,
}

/// The three ways in which an entry of a status list is counted.
#[derive(Debug, Clone, Copy, PartialEq, Eq, Structural)]
pub enum ChangeKind {
    /// The index differs from HEAD.
    Staged,
    /// The working tree differs from the index.
    Unstaged,
    /// The working tree holds a file that is not tracked.
    Untracked,
}

impl EntryFlags {
    /// The index differs from HEAD: the entry is new, modified, deleted,
    /// changed in type or renamed there.
    pub open spec fn staged(self) -> bool {
        self.index_new || self.index_modified || self.index_deleted || self.index_typechange
            || self.index_renamed
    }

    /// The working tree differs from the index: the entry is modified,
    /// deleted, changed in type or renamed there. An untracked entry is
    /// not counted here.
    pub open spec fn unstaged(self) -> bool {
        self.wt_modified || self.wt_deleted || self.wt_typechange || self.wt_renamed
    }

    /// The entry is new in the working tree.
    pub open spec fn untracked(self) -> bool {
        self.wt_new
    }

    /// Whether the entry is counted as `kind`.
    pub open spec fn counts_as(self, kind: ChangeKind) -> bool {
        match kind {
            ChangeKind::Staged => self.staged(),
            ChangeKind::Unstaged => self.unstaged(),
            ChangeKind::Untracked => self.untracked(),
        }
    }

    /// Whether the entry is counted as `kind`.
    pub fn is_counted_as(&self, kind: ChangeKind) -> (b: bool)
        ensures
            b == self.counts_as(kind),
    {
        match kind {
            ChangeKind::Staged => self.index_new || self.index_modified || self.index_deleted
                || self.index_typechange || self.index_renamed,
            ChangeKind::Unstaged => self.wt_modified || self.wt_deleted || self.wt_typechange
                || self.wt_renamed,
            ChangeKind::Untracked => self.wt_new,
        }
    }
}

/// The test that picks the entries counted as `kind`.
pub open spec fn of_kind(kind: ChangeKind) -> spec_fn(EntryFlags) -> bool {
    |entry: EntryFlags| entry.counts_as(kind)
}

/// The number of entries that are counted as `kind`.
pub open spec fn count_of(entries: Seq<EntryFlags>, kind: ChangeKind) -> nat {
    entries.filter(of_kind(kind)).len()
}

/// Counts the entries of a status list that are counted as `kind`.
pub fn count_entries(entries: &Vec<EntryFlags>, kind: ChangeKind) -> (n: usize)
    ensures
        n == count_of(entries@, kind),
{
    let mut n: usize = 0;
    let mut i: usize = 0;
    while i < entries.len()
        invariant
            i <= entries.len(),
            n <= i,
            n == count_of(entries@.take(i as int), kind),
        decreases entries.len() - i,
    {
        proof {
            reveal(Seq::filter);
            assert(entries@.take(i + 1).drop_last() =~= entries@.take(i as int));
        }
        if entries[i].is_counted_as(kind) {
            n = n + 1;
        }
        i = i + 1;
    }
    proof {
        assert(entries@.take(i as int) =~= entries@);
    }
    n
}

/// The entries of a status list that was read, and none where it could
/// not be read.
pub open spec fn entries_of(list: Option<Vec<EntryFlags>>) -> Option<Seq<EntryFlags>> {
    match list {
        Some(entries) => Some(entries@),
        None => None,
    }
}

/// The number of entries of a status list that are counted as `kind`, and
/// zero where the list could not be read.
pub open spec fn counted(list: Option<Seq<EntryFlags>>, kind: ChangeKind) -> nat {
    match list {
        Some(entries) => count_of(entries, kind),
        None => 0,
    }
}

/// The number of entries of a status list that are counted as `kind`, and
/// zero where the list could not be read.
pub fn count_or_zero(list: &Option<Vec<EntryFlags>>, kind: ChangeKind) -> (n: usize)
    ensures
        n == counted(entries_of(*list), kind),
{
    match list {
        Some(entries) => count_entries(entries, kind),
        None => 0,
    }
}

/// Both counts where they could be resolved, and zero for both where they
/// could not.
pub fn divergence_or_zero(counts: Option<(usize, usize)>) -> (r: (usize, usize))
    ensures
        r == match counts {
            Some(pair) => pair,
            None => (0usize, 0usize),
        },
{
    match counts {
        Some(pair) => pair,
        None => (0, 0),
    }
}

/// The number of stash entries that was read, and zero where the stash
/// could not be read.
pub fn stash_count(read: Option<usize>) -> (n: usize)
    ensures
        n == match read {
            Some(k) => k,
            None => 0,
        },
{
    match read {
        Some(k) => k,
        None => 0,
    }
}

/// The branch that HEAD is on, from what was read of HEAD: its short name
/// where HEAD is attached and has one, and none where HEAD is detached or
/// where that could not be read (`detached` is `None`).
pub open spec fn branch_text(detached: Option<bool>, shorthand: Option<Seq<char>>) -> Option<
    Seq<char>,
> {
    if detached == Some(false) {
        shorthand
    } else {
        None
    }
}

/// The branch that HEAD is on, from what was read of HEAD.
pub fn branch_for(detached: Option<bool>, shorthand: Option<String>) -> (r: Option<String>)
    ensures
        text_of(r) == branch_text(detached, text_of(shorthand)),
{
    match detached {
        Some(false) => shorthand,
        _ => None,
    }
}

/// What the queries for one snapshot returned. Each query was made on its
/// own, and a `None` stands for one that failed or was not called for.
#[derive(Debug)]
pub struct Readings {
    /// Whether HEAD is detached.
    pub detached: Option<bool>,
    /// The short name of HEAD, read where HEAD is attached.
    pub shorthand: Option<String>,
    /// How many commits HEAD is ahead of and behind its upstream.
    pub divergence: Option<(usize, usize)>,
    /// The status list as it was read for the staged count.
    pub staged_list: Option<Vec<EntryFlags>>,
    /// The status list as it was read for the unstaged count.
    pub unstaged_list: Option<Vec<EntryFlags>>,
    /// The status list as it was read for the untracked count.
    pub untracked_list: Option<Vec<EntryFlags>>,
    /// The number of entries of the stash, where there is a stash and it
    /// could be read.
    pub stash: Option<usize>,
    /// The operation flag.
    pub flag: OperationFlag,
    /// The counters of the rebase sequence, read under a rebase flag.
    pub rebase: Option<RebaseSteps>,
    /// What was read of HEAD under the clean flag.
    pub head: HeadProbe,
}

/// What `Readings` stand for.
pub ghost struct Observed {
    pub detached: Option<bool>,
    pub shorthand: Option<Seq<char>>,
    pub divergence: Option<(usize, usize)>,
    pub staged_list: Option<Seq<EntryFlags>>,
    pub unstaged_list: Option<Seq<EntryFlags>>,
    pub untracked_list: Option<Seq<EntryFlags>>,
    pub stash: Option<usize>,
    pub flag: OperationFlag,
    pub rebase: Option<RebaseSteps>,
    pub head: HeadReading,
}

impl View for Readings {
    type V = Observed;

    open spec fn view(&self) -> Observed {
        Observed {
            detached: self.detached,
            shorthand: text_of(self.shorthand),
            divergence: self.divergence,
            staged_list: entries_of(self.staged_list),
            unstaged_list: entries_of(self.unstaged_list),
            untracked_list: entries_of(self.untracked_list),
            stash: self.stash,
            flag: self.flag,
            rebase: self.rebase,
            head: self.head@,
        }
    }
}

impl Observed {
    /// The snapshot that the readings amount to. Each field comes from the
    /// readings of its own query, and from no other: the branch from HEAD,
    /// ahead and behind from the divergence in that order, each count
    /// from the list read for it, and the state from the flag and what was
    /// read under it. What could not be read counts as zero, or as no
    /// branch.
    pub open spec fn snapshot(self) -> RepoSnapshot {
        RepoSnapshot {
            branch: branch_text(self.detached, self.shorthand),
            special_state: classified(self.flag, self.rebase, self.head),
            ahead: match self.divergence {
                Some(pair) => pair.0 as nat,
                None => 0,
            },
            behind: match self.divergence {
                Some(pair) => pair.1 as nat,
                None => 0,
            },
            staged: counted(self.staged_list, ChangeKind::Staged),
            unstaged: counted(self.unstaged_list, ChangeKind::Unstaged),
            untracked: counted(self.untracked_list, ChangeKind::Untracked),
            stashed: match self.stash {
                Some(k) => k as nat,
                None => 0,
            },
        }
    }
}

/// What was found at a working directory.
#[derive(Debug)]
pub enum Discovery {
    /// No repository lies at or above the directory, or none could be
    /// opened.
    NoRepository,
    /// The repository is bare. Nothing further was read of it.
    Bare,
    /// A repository with a working tree, and what was read of it.
    WorkTree(Readings),
}

/// Assembles the snapshot from what was found: none where there is no
/// repository or where it is bare, and else the snapshot that the readings
/// amount to.
pub fn assemble_snapshot(found: Discovery) -> (r: Option<GitRepoState>)
    ensures
        found is NoRepository || found is Bare ==> r is None,
        found matches Discovery::WorkTree(x) ==> (r matches Some(s) && s@ == x@.snapshot()),
        r matches Some(s) ==> s@.special_state.detectable(),
{
    match found {
        Discovery::NoRepository => None,
        Discovery::Bare => None,
        Discovery::WorkTree(x) => {
            let branch = branch_for(x.detached, x.shorthand);
            let special_state = classify(x.flag, x.rebase, &x.head);
            let (ahead, behind) = divergence_or_zero(x.divergence);
            let staged = count_or_zero(&x.staged_list, ChangeKind::Staged);
            let unstaged = count_or_zero(&x.unstaged_list, ChangeKind::Unstaged);
            let untracked = count_or_zero(&x.untracked_list, ChangeKind::Untracked);
            let stashed = stash_count(x.stash);
            Some(
                GitRepoState {
                    branch,
                    special_state,
                    ahead,
                    behind,
                    staged,
                    unstaged,
                    untracked,
                    stashed,
                },
            )
        },
    }
}

/// A snapshot is repeatable: two runs whose queries returned the same
/// give the same snapshot, field by field. A reading that was not called
/// for (the short name of a HEAD that is not attached, the rebase sequence
/// under another flag, HEAD under a flag that is not clean) has no part in
/// the snapshot, so it need not agree.
pub proof fn lemma_snapshot_is_repeatable(first: Observed, second: Observed)
    requires
        first.detached == second.detached,
        first.detached == Some(false) ==> first.shorthand == second.shorthand,
        first.divergence == second.divergence,
        first.staged_list == second.staged_list,
        first.unstaged_list == second.unstaged_list,
        first.untracked_list == second.untracked_list,
        first.stash == second.stash,
        first.flag == second.flag,
        first.flag.rebasing() ==> first.rebase == second.rebase,
        first.flag is Clean ==> first.head == second.head,
    ensures
        first.snapshot() == second.snapshot(),
{
    lemma_detection_is_repeatable(
        first.flag,
        first.rebase,
        first.head,
        second.rebase,
        second.head,
    );
}

/// Reads the status list, with untracked files listed; `None` where it
/// cannot be read.
fn read_status_list(repository: &Repository) -> Option<Vec<EntryFlags>> {
    let mut opts = StatusOptions::new();
    opts.include_untracked(true);
    match repository.statuses(Some(&mut opts)) {
        Ok(statuses) => Some(status_flags(&statuses)),
        Err(_) => None,
    }
}

/// Reads the number of stash entries: the length of the log of the stash
/// reference. `None` where there is no stash reference, or where it or its
/// log cannot be read. The log is asked for only where the reference was
/// found, because reading the log of a reference that has none would
/// create its file; no entry of the log is looked at.
fn read_stash(repo: &Repository) -> Option<usize> {
    match repo.find_reference("refs/stash") {
        Ok(_) => match repo.reflog("refs/stash") {
            Ok(log) => Some(log.len()),
            Err(_) => None,
        },
        Err(_) => None,
    }
}

/// Reads the short name of HEAD; `None` where HEAD cannot be resolved or
/// has no name that is valid UTF-8.
fn read_shorthand(repository: &Repository) -> Option<String> {
    match repository.head() {
        Ok(head) => match head.shorthand() {
            Some(name) => Some(name.to_owned()),
            None => None,
        },
        Err(_) => None,
    }
}

/// Reads how far HEAD and its upstream have diverged, where HEAD is on a
/// local branch that has an upstream and both point at commits.
fn upstream_divergence(repo: &Repository) -> Option<(usize, usize)> {
    let head = match repo.head() {
        Ok(h) => h,
        Err(_) => return None,
    };
    let head_name = match head.shorthand() {
        Some(name) => name,
        None => return None,
    };
    let head_branch = match find_local_branch(repo, head_name) {
        Ok(b) => b,
        Err(_) => return None,
    };
    let upstream = match head_branch.upstream() {
        Ok(up) => up,
        Err(_) => return None,
    };
    let head_oid = match head.target() {
        Some(oid) => oid,
        None => return None,
    };
    let upstream_oid = match upstream.get().target() {
        Some(oid) => oid,
        None => return None,
    };
    match repo.graph_ahead_behind(head_oid, upstream_oid) {
        Ok(counts) => Some(counts),
        Err(_) => None,
    }
}

/// Makes the queries of one snapshot, each on its own, and records what
/// each returned. HEAD's short name is read only where HEAD is attached.
fn read_work_tree(repo: &Repository) -> (r: Readings)
    ensures
        r.detached != Some(false) ==> r.shorthand is None,
        !r.flag.rebasing() ==> r.rebase is None,
        !(r.flag is Clean) ==> r.head is Unreadable,
{
    let detached = match repo.head_detached() {
        Ok(detached) => Some(detached),
        Err(_) => None,
    };
    let shorthand = match detached {
        Some(false) => read_shorthand(repo),
        _ => None,
    };
    let divergence = upstream_divergence(repo);
    let staged_list = read_status_list(repo);
    let unstaged_list = read_status_list(repo);
    let untracked_list = read_status_list(repo);
    let stash = read_stash(repo);
    let (flag, rebase, head) = read_operation(repo);
    Readings {
        detached,
        shorthand,
        divergence,
        staged_list,
        unstaged_list,
        untracked_list,
        stash,
        flag,
        rebase,
        head,
    }
}

/// Looks for the repository at or above `cwd` and, where it has a working
/// tree, reads it. Of a bare repository nothing further is read.
fn discover(cwd: &std::path::Path) -> Discovery {
    let repo = match discover_repository(cwd) {
        Ok(repo) => repo,
        Err(_) => return Discovery::NoRepository,
    };
    if repo.is_bare() {
        return Discovery::Bare;
    }
    Discovery::WorkTree(read_work_tree(&repo))
}

/// The snapshot of the repository at or above `cwd`; `None` where there is
/// none, or where it is bare. What is read depends on the repository on
/// disk; `assemble_snapshot` says what the snapshot is for whatever was
/// read.
pub fn get_git_repo_state(cwd: &std::path::Path) -> (r: Option<GitRepoState>)
    ensures
        r matches Some(state) ==> state@.special_state.detectable(),
{
    assemble_snapshot(discover(cwd))
}

} // verus!
