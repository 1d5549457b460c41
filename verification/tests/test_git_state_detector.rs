use gprompt::models::git_special_state::{GitSpecialState, OperationProgress};
use gprompt::services::git_state_detector::{
    classify, detached_head_state, rebase_state, short_sha, HeadProbe, OperationFlag,
    RebaseSteps, SHORT_SHA_LEN,
};

fn steps(current_index: Option<usize>, total: usize) -> Option<RebaseSteps> {
    Some(RebaseSteps { current_index, total })
}

fn rebasing(current: usize, total: usize) -> GitSpecialState {
    GitSpecialState::Rebasing(Some(OperationProgress { current, total }))
}

const ALL_FLAGS: [OperationFlag; 13] = [
    OperationFlag::Clean,
    OperationFlag::Merge,
    OperationFlag::Revert,
    OperationFlag::RevertSequence,
    OperationFlag::CherryPick,
    OperationFlag::CherryPickSequence,
    OperationFlag::Bisect,
    OperationFlag::Rebase,
    OperationFlag::RebaseInteractive,
    OperationFlag::RebaseMerge,
    OperationFlag::ApplyMailbox,
    OperationFlag::ApplyMailboxOrRebase,
    OperationFlag::Unrecognized,
];

#[test]
fn short_sha_keeps_the_first_seven_characters() {
    assert_eq!(SHORT_SHA_LEN, 7);
    assert_eq!(short_sha("a1b2c3d4e5f6789"), "a1b2c3d");
    assert_eq!(
        short_sha("0123456789abcdef0123456789abcdef01234567"),
        "0123456"
    );
    assert_eq!(short_sha("a1b2c3d"), "a1b2c3d");
}

#[test]
fn short_sha_keeps_a_shorter_identifier_whole() {
    assert_eq!(short_sha("a1b2c3"), "a1b2c3");
    assert_eq!(short_sha("a"), "a");
    assert_eq!(short_sha(""), "");
}

#[test]
fn short_sha_counts_characters() {
    assert_eq!(short_sha("ääääääääää"), "äääääää");
    assert_eq!(short_sha("äääääé"), "äääääé");
}

#[test]
fn rebase_step_is_counted_from_one() {
    assert_eq!(rebase_state(steps(Some(2), 7)), rebasing(3, 7));
    assert_eq!(rebase_state(steps(Some(0), 1)), rebasing(1, 1));
    assert_eq!(rebase_state(steps(Some(6), 7)), rebasing(7, 7));
}

#[test]
fn rebase_without_a_usable_step_carries_none() {
    // The sequence could not be opened
    assert_eq!(rebase_state(None), GitSpecialState::Rebasing(None));
    // No step has been applied yet
    assert_eq!(rebase_state(steps(None, 7)), GitSpecialState::Rebasing(None));
    // The sequence is empty
    assert_eq!(rebase_state(steps(Some(0), 0)), GitSpecialState::Rebasing(None));
    assert_eq!(rebase_state(steps(None, 0)), GitSpecialState::Rebasing(None));
    // The step lies beyond the sequence
    assert_eq!(rebase_state(steps(Some(7), 7)), GitSpecialState::Rebasing(None));
    assert_eq!(rebase_state(steps(Some(100), 1)), GitSpecialState::Rebasing(None));
}

#[test]
fn rebase_step_at_the_largest_index_does_not_overflow() {
    assert_eq!(
        rebase_state(steps(Some(usize::MAX), usize::MAX)),
        GitSpecialState::Rebasing(None)
    );
    assert_eq!(
        rebase_state(steps(Some(usize::MAX - 1), usize::MAX)),
        rebasing(usize::MAX, usize::MAX)
    );
}

#[test]
fn detached_head_shows_the_short_identifier() {
    let head = HeadProbe::Detached(Some(
        "a1b2c3d4e5f60718293a4b5c6d7e8f9012345678".to_string(),
    ));
    assert_eq!(
        detached_head_state(&head),
        GitSpecialState::Detached("a1b2c3d".to_string())
    );
    let head = HeadProbe::Detached(Some("abc".to_string()));
    assert_eq!(
        detached_head_state(&head),
        GitSpecialState::Detached("abc".to_string())
    );
}

#[test]
fn detached_head_without_identifier_is_unknown() {
    assert_eq!(
        detached_head_state(&HeadProbe::Detached(None)),
        GitSpecialState::Detached("unknown".to_string())
    );
}

#[test]
fn attached_or_unreadable_head_is_normal() {
    assert_eq!(detached_head_state(&HeadProbe::Attached), GitSpecialState::Normal);
    assert_eq!(detached_head_state(&HeadProbe::Unreadable), GitSpecialState::Normal);
}

#[test]
fn every_rebase_flag_is_rebasing() {
    for flag in [
        OperationFlag::Rebase,
        OperationFlag::RebaseInteractive,
        OperationFlag::RebaseMerge,
    ] {
        assert!(flag.is_rebase());
        assert_eq!(
            classify(flag, steps(Some(2), 7), &HeadProbe::Unreadable),
            rebasing(3, 7)
        );
        assert_eq!(
            classify(flag, None, &HeadProbe::Unreadable),
            GitSpecialState::Rebasing(None)
        );
    }
}

#[test]
fn cherry_pick_flags_carry_no_step() {
    for flag in [OperationFlag::CherryPick, OperationFlag::CherryPickSequence] {
        assert_eq!(
            classify(flag, steps(Some(2), 7), &HeadProbe::Attached),
            GitSpecialState::CherryPicking(None)
        );
    }
}

#[test]
fn flags_without_payload_map_to_their_state() {
    let head = HeadProbe::Detached(Some("a1b2c3d4e5".to_string()));
    let cases = [
        (OperationFlag::Merge, GitSpecialState::Merging),
        (OperationFlag::Revert, GitSpecialState::Reverting),
        (OperationFlag::RevertSequence, GitSpecialState::Reverting),
        (OperationFlag::Bisect, GitSpecialState::Bisecting),
        (OperationFlag::ApplyMailbox, GitSpecialState::ApplyingPatches),
        (OperationFlag::ApplyMailboxOrRebase, GitSpecialState::ApplyingPatches),
    ];
    for (flag, expected) in cases {
        assert_eq!(classify(flag, steps(Some(2), 7), &head), expected);
    }
}

#[test]
fn clean_flag_is_decided_by_head() {
    let flag = OperationFlag::Clean;
    assert!(flag.is_clean());
    assert_eq!(classify(flag, None, &HeadProbe::Attached), GitSpecialState::Normal);
    assert_eq!(classify(flag, None, &HeadProbe::Unreadable), GitSpecialState::Normal);
    assert_eq!(
        classify(flag, None, &HeadProbe::Detached(None)),
        GitSpecialState::Detached("unknown".to_string())
    );
    assert_eq!(
        classify(flag, None, &HeadProbe::Detached(Some("a1b2c3d4e5".to_string()))),
        GitSpecialState::Detached("a1b2c3d".to_string())
    );
}

#[test]
fn unrecognized_flag_falls_back_to_normal() {
    let head = HeadProbe::Detached(Some("a1b2c3d4e5".to_string()));
    assert_eq!(
        classify(OperationFlag::Unrecognized, steps(Some(2), 7), &head),
        GitSpecialState::Normal
    );
}

#[test]
fn only_the_rebase_flags_are_rebase_and_only_clean_is_clean() {
    let rebase = ALL_FLAGS.iter().filter(|flag| flag.is_rebase()).count();
    let clean = ALL_FLAGS.iter().filter(|flag| flag.is_clean()).count();
    assert_eq!(rebase, 3);
    assert_eq!(clean, 1);
}

#[test]
fn every_flag_gives_exactly_one_variant() {
    let heads = [
        HeadProbe::Unreadable,
        HeadProbe::Attached,
        HeadProbe::Detached(None),
        HeadProbe::Detached(Some("a1b2c3d4e5".to_string())),
    ];
    let rebases = [None, steps(None, 3), steps(Some(1), 3), steps(Some(3), 3)];
    for flag in ALL_FLAGS {
        for head in &heads {
            for rebase in rebases {
                let state = classify(flag, rebase, head);
                let variants = [
                    matches!(state, GitSpecialState::Normal),
                    matches!(state, GitSpecialState::Rebasing(_)),
                    matches!(state, GitSpecialState::CherryPicking(_)),
                    matches!(state, GitSpecialState::Detached(_)),
                    matches!(state, GitSpecialState::Merging),
                    matches!(state, GitSpecialState::Reverting),
                    matches!(state, GitSpecialState::Bisecting),
                    matches!(state, GitSpecialState::ApplyingPatches),
                ];
                assert_eq!(variants.iter().filter(|holds| **holds).count(), 1);
                // The step, where one is carried, lies within the sequence
                if let GitSpecialState::Rebasing(Some(progress)) = state {
                    assert!(1 <= progress.current && progress.current <= progress.total);
                }
            }
        }
    }
}

#[test]
fn readings_that_the_flag_does_not_call_for_change_nothing() {
    let first = classify(OperationFlag::Merge, None, &HeadProbe::Attached);
    let second = classify(
        OperationFlag::Merge,
        steps(Some(1), 3),
        &HeadProbe::Detached(None),
    );
    assert_eq!(first, second);
    let first = classify(OperationFlag::Clean, None, &HeadProbe::Attached);
    let second = classify(OperationFlag::Clean, steps(Some(1), 3), &HeadProbe::Attached);
    assert_eq!(first, second);
}
