use gprompt::models::git_repo_state::GitRepoState;
use gprompt::models::git_special_state::{GitSpecialState, OperationProgress};
use gprompt::services::git_state_detector::{HeadProbe, OperationFlag, RebaseSteps};
use gprompt::services::git_status::{assemble_snapshot, Discovery, EntryFlags, Readings};

const CURRENT: EntryFlags = EntryFlags {
    index_new: false,
    index_modified: false,
    index_deleted: false,
    index_renamed: false,
    index_typechange: false,
    wt_new: false,
    wt_modified: false,
    wt_deleted: false,
    wt_typechange: false,
    wt_renamed: false,
};

const UNTRACKED: EntryFlags = EntryFlags { wt_new: true, ..CURRENT };
const ADDED: EntryFlags = EntryFlags { index_new: true, ..CURRENT };
const MODIFIED: EntryFlags = EntryFlags { wt_modified: true, ..CURRENT };

/// What is read of a clean repository on `master`, with the given status list.
fn on_master(list: Vec<EntryFlags>) -> Readings {
    Readings {
        detached: Some(false),
        shorthand: Some("master".to_string()),
        divergence: None,
        staged_list: Some(list.clone()),
        unstaged_list: Some(list.clone()),
        untracked_list: Some(list),
        stash: Some(0),
        flag: OperationFlag::Clean,
        rebase: None,
        head: HeadProbe::Attached,
    }
}

fn snapshot(readings: Readings) -> GitRepoState {
    assemble_snapshot(Discovery::WorkTree(readings)).unwrap()
}

fn counters(state: &GitRepoState) -> [usize; 6] {
    [
        state.ahead,
        state.behind,
        state.staged,
        state.unstaged,
        state.untracked,
        state.stashed,
    ]
}

#[test]
fn no_repository_gives_no_snapshot() {
    assert!(assemble_snapshot(Discovery::NoRepository).is_none());
}

#[test]
fn bare_repository_gives_no_snapshot() {
    assert!(assemble_snapshot(Discovery::Bare).is_none());
}

#[test]
fn fresh_repository_without_commits() {
    // HEAD names a branch that does not exist yet, so its short name cannot be read
    let readings = Readings { shorthand: None, ..on_master(Vec::new()) };
    let state = snapshot(readings);
    assert_eq!(state.ahead, 0);
    assert_eq!(state.behind, 0);
    assert_eq!(state.branch, None);
    assert_eq!(state.special_state, GitSpecialState::Normal);
    assert_eq!(counters(&state), [0, 0, 0, 0, 0, 0]);
}

#[test]
fn clean_repository_on_master() {
    let state = snapshot(on_master(Vec::new()));
    assert_eq!(state.branch.as_deref(), Some("master"));
    assert_eq!(state.special_state, GitSpecialState::Normal);
    assert_eq!(counters(&state), [0, 0, 0, 0, 0, 0]);
}

#[test]
fn one_untracked_file() {
    let state = snapshot(on_master(vec![UNTRACKED]));
    assert_eq!(counters(&state), [0, 0, 0, 0, 1, 0]);
}

#[test]
fn one_file_added() {
    let state = snapshot(on_master(vec![ADDED]));
    assert_eq!(counters(&state), [0, 0, 1, 0, 0, 0]);
}

#[test]
fn one_committed_file_modified() {
    let state = snapshot(on_master(vec![MODIFIED]));
    assert_eq!(counters(&state), [0, 0, 0, 1, 0, 0]);
}

#[test]
fn one_commit_ahead_of_the_upstream() {
    let state = snapshot(Readings { divergence: Some((1, 0)), ..on_master(Vec::new()) });
    assert_eq!(counters(&state), [1, 0, 0, 0, 0, 0]);
    let state = snapshot(Readings { divergence: Some((0, 2)), ..on_master(Vec::new()) });
    assert_eq!(counters(&state), [0, 2, 0, 0, 0, 0]);
}

#[test]
fn rebase_halted_on_conflict_keeps_its_counters() {
    let readings = Readings {
        flag: OperationFlag::RebaseMerge,
        rebase: Some(RebaseSteps { current_index: Some(0), total: 2 }),
        head: HeadProbe::Unreadable,
        divergence: Some((3, 1)),
        stash: Some(2),
        ..on_master(vec![UNTRACKED, ADDED, MODIFIED, UNTRACKED])
    };
    let state = snapshot(readings);
    assert_eq!(
        state.special_state,
        GitSpecialState::Rebasing(Some(OperationProgress { current: 1, total: 2 }))
    );
    assert_eq!(state.branch.as_deref(), Some("master"));
    assert_eq!(counters(&state), [3, 1, 1, 1, 2, 2]);
}

#[test]
fn checkout_of_a_commit() {
    let readings = Readings {
        detached: Some(true),
        shorthand: None,
        head: HeadProbe::Detached(Some("a1b2c3d4e5f60718293a4b5c6d7e8f9012345678".to_string())),
        ..on_master(Vec::new())
    };
    let state = snapshot(readings);
    assert_eq!(state.special_state, GitSpecialState::Detached("a1b2c3d".to_string()));
    assert_eq!(state.branch, None);
    assert_eq!(counters(&state), [0, 0, 0, 0, 0, 0]);
}

#[test]
fn each_query_that_failed_degrades_its_own_field_only() {
    let all = vec![UNTRACKED, ADDED, MODIFIED];
    let full = Readings { divergence: Some((4, 5)), stash: Some(6), ..on_master(all.clone()) };
    assert_eq!(counters(&snapshot(full)), [4, 5, 1, 1, 1, 6]);

    let readings = Readings { divergence: None, stash: Some(6), ..on_master(all.clone()) };
    assert_eq!(counters(&snapshot(readings)), [0, 0, 1, 1, 1, 6]);
    let readings = Readings {
        staged_list: None,
        divergence: Some((4, 5)),
        stash: Some(6),
        ..on_master(all.clone())
    };
    assert_eq!(counters(&snapshot(readings)), [4, 5, 0, 1, 1, 6]);
    let readings = Readings {
        unstaged_list: None,
        divergence: Some((4, 5)),
        stash: Some(6),
        ..on_master(all.clone())
    };
    assert_eq!(counters(&snapshot(readings)), [4, 5, 1, 0, 1, 6]);
    let readings = Readings {
        untracked_list: None,
        divergence: Some((4, 5)),
        stash: Some(6),
        ..on_master(all.clone())
    };
    assert_eq!(counters(&snapshot(readings)), [4, 5, 1, 1, 0, 6]);
    let readings = Readings { stash: None, divergence: Some((4, 5)), ..on_master(all.clone()) };
    assert_eq!(counters(&snapshot(readings)), [4, 5, 1, 1, 1, 0]);
    let readings = Readings { detached: None, ..on_master(all) };
    let state = snapshot(readings);
    assert_eq!(state.branch, None);
    assert_eq!(counters(&state), [0, 0, 1, 1, 1, 0]);
}

#[test]
fn each_list_feeds_its_own_counter() {
    let readings = Readings {
        staged_list: Some(vec![ADDED, ADDED, ADDED, UNTRACKED]),
        unstaged_list: Some(vec![MODIFIED, MODIFIED, ADDED]),
        untracked_list: Some(vec![UNTRACKED, MODIFIED]),
        ..on_master(Vec::new())
    };
    assert_eq!(counters(&snapshot(readings)), [0, 0, 3, 2, 1, 0]);
}

#[test]
fn branch_stays_while_an_operation_is_in_progress() {
    let readings = Readings { flag: OperationFlag::Merge, ..on_master(Vec::new()) };
    let state = snapshot(readings);
    assert_eq!(state.branch.as_deref(), Some("master"));
    assert_eq!(state.special_state, GitSpecialState::Merging);
}

#[test]
fn same_readings_give_the_same_snapshot() {
    let first = snapshot(Readings { divergence: Some((1, 2)), ..on_master(vec![UNTRACKED]) });
    let second = snapshot(Readings { divergence: Some((1, 2)), ..on_master(vec![UNTRACKED]) });
    assert_eq!(first.branch, second.branch);
    assert_eq!(first.special_state, second.special_state);
    assert_eq!(counters(&first), counters(&second));
    // What was not called for has no part in the snapshot
    let third = snapshot(Readings {
        divergence: Some((1, 2)),
        rebase: Some(RebaseSteps { current_index: Some(1), total: 3 }),
        ..on_master(vec![UNTRACKED])
    });
    assert_eq!(first.special_state, third.special_state);
    assert_eq!(counters(&first), counters(&third));
}
