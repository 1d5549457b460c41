//! The snapshot of a repository that the prompt is rendered from.

use crate::models::git_special_state::{text_of, GitSpecialState, SpecialState};
use vstd::prelude::*;

verus! {

/// One snapshot of a repository: where HEAD is, what operation is in
/// progress, and how the working tree, the index, the stash and the
/// upstream differ from the last commit.
#[derive(Debug)]
pub struct GitRepoState {
    /// Branch name (remains populated even in special states; display logic
    /// determines what to show).
    pub branch: Option<String>,
    /// Special git state (if any).
    pub special_state: GitSpecialState,
    /// Commits reachable from HEAD and not from its upstream.
    pub ahead: usize,
    /// Commits reachable from the upstream and not from HEAD.
    pub behind: usize,
    /// Entries of the index that differ from HEAD.
    pub staged: usize,
    /// Entries of the working tree that differ from the index.
    pub unstaged: usize,
    /// Entries of the working tree that are not tracked.
    pub untracked: usize,
    /// Entries of the stash list.
    pub stashed: usize,
}

/// What a `GitRepoState` stands for.
pub ghost struct RepoSnapshot {
    pub branch: Option<Seq<char>>,
    pub special_state: SpecialState,
    pub ahead: nat,
    pub behind: nat,
    pub staged: nat,
    pub unstaged: nat,
    pub untracked: nat,
    pub stashed: nat,
}

impl View for GitRepoState {
    type V = RepoSnapshot;

    open spec fn view(&self) -> RepoSnapshot {
        RepoSnapshot {
            branch: text_of(self.branch),
            special_state: self.special_state@,
            ahead: self.ahead as nat,
            behind: self.behind as nat,
            staged: self.staged as nat,
            unstaged: self.unstaged as nat,
            untracked: self.untracked as nat,
            stashed: self.stashed as nat,
        }
    }
}

impl RepoSnapshot {
    /// The snapshot of a repository of which nothing is known: no branch,
    /// no operation in progress, every counter zero.
    pub open spec fn empty() -> RepoSnapshot {
        RepoSnapshot {
            branch: None,
            special_state: SpecialState::Normal,
            ahead: 0,
            behind: 0,
            staged: 0,
            unstaged: 0,
            untracked: 0,
            stashed: 0,
        }
    }
}

impl Default for GitRepoState {
    fn default() -> (r: GitRepoState)
        ensures
            r@ == RepoSnapshot::empty(),
    {
        GitRepoState {
            branch: None,
            special_state: GitSpecialState::Normal,
            ahead: 0,
            behind: 0,
            staged: 0,
            unstaged: 0,
            untracked: 0,
            stashed: 0,
        }
    }
}

} // verus!
