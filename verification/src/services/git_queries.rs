//! The queries that the prompt makes of a repository.
//!
//! Nothing in this file is proved. Each item declares a type of the
//! `git2` crate (or `std::path::Path`, where its queries start) or gives a
//! contract to one of its functions, so that the verified code of this
//! crate can hold and call it. The contracts say no more than the crate's
//! source shows, and most say nothing, because what a query returns
//! depends on the repository on disk.

use crate::services::git_state_detector::OperationFlag;
use crate::services::git_status::EntryFlags;
use std::path::Path;
use vstd::prelude::*;

verus! {

/// `git2::Repository`: an open repository.
#[verifier::external_type_specification]
#[verifier::external_body]
pub struct ExRepository(git2::Repository);

/// `git2::Error`: why a query failed.
#[verifier::external_type_specification]
#[verifier::external_body]
pub struct ExError(git2::Error);

/// `git2::Reference`: a reference such as HEAD, once resolved.
#[verifier::external_type_specification]
#[verifier::external_body]
pub struct ExReference<'repo>(git2::Reference<'repo>);

/// `git2::Branch`: a reference that is a branch.
#[verifier::external_type_specification]
#[verifier::external_body]
pub struct ExBranch<'repo>(git2::Branch<'repo>);

/// `git2::Rebase`: the rebase sequence that is in progress.
#[verifier::external_type_specification]
#[verifier::external_body]
pub struct ExRebase<'repo>(git2::Rebase<'repo>);

/// `git2::RebaseOperation`: one step of a rebase sequence. This crate holds
/// no value of it; `Rebase` yields it as an iterator.
#[verifier::external_type_specification]
#[verifier::external_body]
pub struct ExRebaseOperation<'rebase>(git2::RebaseOperation<'rebase>);

/// `git2::Statuses`: the status list of a working tree and index.
#[verifier::external_type_specification]
#[verifier::external_body]
pub struct ExStatuses<'repo>(git2::Statuses<'repo>);

/// `git2::StatusOptions`: how a status list is to be gathered.
#[verifier::external_type_specification]
#[verifier::external_body]
pub struct ExStatusOptions(git2::StatusOptions);

/// `git2::Reflog`: the log of a reference.
#[verifier::external_type_specification]
#[verifier::external_body]
pub struct ExReflog(git2::Reflog);

/// `git2::Oid`: the identifier of an object.
#[verifier::external_type_specification]
#[verifier::external_body]
pub struct ExOid(git2::Oid);

/// `std::path::Path`: a path of the file system.
#[verifier::external_type_specification]
#[verifier::external_body]
pub struct ExPath(Path);

/// `Repository::discover`: opens the repository at or above `path`. Whether
/// one is found depends on the file system, so nothing is claimed.
#[verifier::external_body]
pub(crate) fn discover_repository(path: &Path) -> (r: Result<git2::Repository, git2::Error>) {
    git2::Repository::discover(path)
}

/// `Repository::is_bare`: whether the repository has no working tree.
pub assume_specification[ git2::Repository::is_bare ](repo: &git2::Repository) -> (r: bool)
;

/// `Repository::state`: the operation flag, each variant of
/// `git2::RepositoryState` turned into the variant of the same name. Any
/// flag may come back. (The call panics only where libgit2 itself fails to
/// report a state, which it does only when out of memory.)
#[verifier::external_body]
#[allow(unreachable_patterns)]
pub(crate) fn operation_flag(repo: &git2::Repository) -> (r: OperationFlag) {
    match repo.state() {
        git2::RepositoryState::Clean => OperationFlag::Clean,
        git2::RepositoryState::Merge => OperationFlag::Merge,
        git2::RepositoryState::Revert => OperationFlag::Revert,
        git2::RepositoryState::RevertSequence => OperationFlag::RevertSequence,
        git2::RepositoryState::CherryPick => OperationFlag::CherryPick,
        git2::RepositoryState::CherryPickSequence => OperationFlag::CherryPickSequence,
        git2::RepositoryState::Bisect => OperationFlag::Bisect,
        git2::RepositoryState::Rebase => OperationFlag::Rebase,
        git2::RepositoryState::RebaseInteractive => OperationFlag::RebaseInteractive,
        git2::RepositoryState::RebaseMerge => OperationFlag::RebaseMerge,
        git2::RepositoryState::ApplyMailbox => OperationFlag::ApplyMailbox,
        git2::RepositoryState::ApplyMailboxOrRebase => OperationFlag::ApplyMailboxOrRebase,
        _ => OperationFlag::Unrecognized,
    }
}

/// `Repository::open_rebase`, with no options: the rebase sequence in
/// progress, or the error where it cannot be opened.
#[verifier::external_body]
pub(crate) fn open_rebase(repo: &git2::Repository) -> (r: Result<
    git2::Rebase<'_>,
    git2::Error,
>) {
    repo.open_rebase(None)
}

/// `Rebase::operation_current`: the index, from zero, of the step being
/// applied, or `None` before the first step.
pub assume_specification<'a>[ git2::Rebase::<'a>::operation_current ](
    rebase: &mut git2::Rebase<'a>,
) -> (r: Option<usize>)
;

/// `Rebase::len`: the number of steps in the sequence.
pub assume_specification<'a>[ git2::Rebase::<'a>::len ](rebase: &git2::Rebase<'a>) -> (r: usize)
;

/// `Repository::head_detached`: whether HEAD points at a commit rather
/// than at a branch.
pub assume_specification[ git2::Repository::head_detached ](repo: &git2::Repository) -> (r:
    Result<bool, git2::Error>)
;

/// `Repository::head`: the reference that HEAD resolves to.
pub assume_specification<'a>[ git2::Repository::head ](repo: &'a git2::Repository) -> (r:
    Result<git2::Reference<'a>, git2::Error>)
;

/// `Reference::target`: the object that a direct reference points at.
pub assume_specification<'a>[ git2::Reference::<'a>::target ](
    reference: &git2::Reference<'a>,
) -> (r: Option<git2::Oid>)
;

/// `Reference::shorthand`: the short name of a reference, where it is
/// valid UTF-8. (The call panics where libgit2 has no short name for the
/// reference, which it has for every reference that it hands out.)
pub assume_specification<'a, 'b>[ git2::Reference::<'a>::shorthand ](
    reference: &'b git2::Reference<'a>,
) -> (r: Option<&'b str>)
;

/// `Repository::find_branch`, for a local branch of the given name.
#[verifier::external_body]
pub(crate) fn find_local_branch<'a>(repo: &'a git2::Repository, name: &str) -> (r:
    Result<git2::Branch<'a>, git2::Error>) {
    repo.find_branch(name, git2::BranchType::Local)
}

/// `Branch::upstream`: the remote-tracking branch of a local branch.
pub assume_specification<'a>[ git2::Branch::<'a>::upstream ](branch: &git2::Branch<'a>) -> (r:
    Result<git2::Branch<'a>, git2::Error>)
;

/// `Branch::get`: the reference that the branch is.
pub assume_specification<'a, 'b>[ git2::Branch::<'a>::get ](branch: &'b git2::Branch<'a>) -> (r:
    &'b git2::Reference<'a>)
;

/// `Repository::graph_ahead_behind`: how many commits are reachable from
/// `local` and not from `upstream`, and the reverse.
pub assume_specification[ git2::Repository::graph_ahead_behind ](
    repo: &git2::Repository,
    local: git2::Oid,
    upstream: git2::Oid,
) -> (r: Result<(usize, usize), git2::Error>)
;

/// `StatusOptions::new`: the default options. (The call panics where
/// libgit2 refuses the version of the options that the crate was built
/// with.)
pub assume_specification[ git2::StatusOptions::new ]() -> (r: git2::StatusOptions)
;

/// `StatusOptions::include_untracked`: sets whether untracked files are
/// listed.
pub assume_specification<'a>[ git2::StatusOptions::include_untracked ](
    options: &'a mut git2::StatusOptions,
    wanted: bool,
) -> (r: &'a mut git2::StatusOptions)
;

/// `Repository::statuses`: gathers the status list.
pub assume_specification<'a>[ git2::Repository::statuses ](
    repo: &'a git2::Repository,
    options: Option<&mut git2::StatusOptions>,
) -> (r: Result<git2::Statuses<'a>, git2::Error>)
;

/// `Statuses::iter` and `StatusEntry::status`: the flags of each entry of
/// the list, in the list's order, each flag read by the method of `Status`
/// that tests it.
#[verifier::external_body]
pub(crate) fn status_flags(statuses: &git2::Statuses<'_>) -> (r: Vec<EntryFlags>) {
    statuses.iter().map(|entry| entry.status()).map(|s| EntryFlags {
        index_new: s.is_index_new(),
        index_modified: s.is_index_modified(),
        index_deleted: s.is_index_deleted(),
        index_renamed: s.is_index_renamed(),
        index_typechange: s.is_index_typechange(),
        wt_new: s.is_wt_new(),
        wt_modified: s.is_wt_modified(),
        wt_deleted: s.is_wt_deleted(),
        wt_typechange: s.is_wt_typechange(),
        wt_renamed: s.is_wt_renamed(),
    }).collect()
}

/// `Repository::find_reference`: the reference of the given name, or the
/// error where there is none or it cannot be read.
pub assume_specification<'a>[ git2::Repository::find_reference ](
    repo: &'a git2::Repository,
    name: &str,
) -> (r: Result<git2::Reference<'a>, git2::Error>)
;

/// `Repository::reflog`: the log of the reference of the given name, empty
/// where the reference has no log yet. (Where the log's file is missing,
/// libgit2 creates it: this crate asks for the log of a reference only
/// after it has found the reference.)
pub assume_specification[ git2::Repository::reflog ](repo: &git2::Repository, name: &str) -> (r:
    Result<git2::Reflog, git2::Error>)
;

/// `Reflog::len`: the number of entries in the log.
pub assume_specification[ git2::Reflog::len ](log: &git2::Reflog) -> (r: usize)
;

} // verus!
