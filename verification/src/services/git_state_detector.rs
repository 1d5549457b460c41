//! Logic for detecting git special states.
//!
//! A repository's on-disk markers encode one operation at a time. The
//! detector reads the coarse operation flag, reads further only what that
//! flag calls for (the rebase sequence under a rebase flag, HEAD under the
//! clean flag), and maps what it has read to exactly one state. No failure
//! of a query is passed on: each degrades to the most conservative state.

use crate::models::git_special_state::{GitSpecialState, OperationProgress, SpecialState};
use crate::services::git_queries::{open_rebase, operation_flag};
use git2::Repository;
use vstd::prelude::*;

verus! {

/// The coarse operation flag of a repository.
#[derive(Debug, Clone, Copy, PartialEq, Eq, Structural)]
pub enum OperationFlag {
    /// No operation is in progress.
    Clean,
    /// A merge is in progress.
    Merge,
    /// A revert is in progress.
    Revert,
    /// A revert of several commits is in progress.
    RevertSequence,
    /// A cherry-pick is in progress.
    CherryPick,
    /// A cherry-pick of several commits is in progress.
    CherryPickSequence,
    /// A bisect is in progress.
    Bisect,
    /// A rebase is in progress.
    Rebase,
    /// An interactive rebase is in progress.
    RebaseInteractive,
    /// A rebase by merging is in progress.
    RebaseMerge,
    /// Patches from a mailbox are being applied.
    ApplyMailbox,
    /// Patches are being applied, or a rebase is in progress.
    ApplyMailboxOrRebase,
    /// A flag that this crate does not know.
    Unrecognized,
}

impl OperationFlag {
    /// Whether the flag is one of the three rebase flags.
    pub open spec fn rebasing(self) -> bool {
        self is Rebase || self is RebaseInteractive || self is RebaseMerge
    }

    /// Whether the flag is one of the two cherry-pick flags.
    pub open spec fn cherry_picking(self) -> bool {
        self is CherryPick || self is CherryPickSequence
    }

    /// Whether the flag is one of the two revert flags.
    pub open spec fn reverting(self) -> bool {
        self is Revert || self is RevertSequence
    }

    /// Whether the flag is one of the two patch-apply flags.
    pub open spec fn applying_patches(self) -> bool {
        self is ApplyMailbox || self is ApplyMailboxOrRebase
    }

    /// Whether the flag is one of the three rebase flags.
    pub fn is_rebase(self) -> (b: bool)
        ensures
            b == self.rebasing(),
    {
        match self {
            OperationFlag::Rebase
            | OperationFlag::RebaseInteractive
            | OperationFlag::RebaseMerge => true,
            _ => false,
        }
    }

    /// Whether the flag says that no operation is in progress.
    pub fn is_clean(self) -> (b: bool)
        ensures
            b == (self is Clean),
    {
        match self {
            OperationFlag::Clean => true,
            _ => false,
        }
    }
}

/// The step counters of a rebase sequence, as the sequence reports them.
#[derive(Debug, Clone, Copy, PartialEq, Eq, Structural)]
pub struct RebaseSteps {
    /// The index of the step being applied, counted from zero, where the
    /// sequence has one.
    pub current_index: Option<usize>,
    /// The number of steps in the sequence.
    pub total: usize,
}

/// What was read of HEAD.
#[derive(Debug, PartialEq, Eq)]
pub enum HeadProbe {
    /// Whether HEAD is detached could not be read, or was not asked.
    Unreadable,
    /// HEAD names a branch.
    Attached,
    /// HEAD points at a commit; its full identifier, where it could be read.
    Detached(Option<String>),
}

/// What a `HeadProbe` stands for.
pub ghost enum HeadReading {
    Unreadable,
    Attached,
    Detached(Option<Seq<char>>),
}

impl View for HeadProbe {
    type V = HeadReading;

    open spec fn view(&self) -> HeadReading {
        match self {
            HeadProbe::Unreadable => HeadReading::Unreadable,
            HeadProbe::Attached => HeadReading::Attached,
            HeadProbe::Detached(Some(id)) => HeadReading::Detached(Some(id@)),
            HeadProbe::Detached(None) => HeadReading::Detached(None),
        }
    }
}

/// The length of a short commit identifier.
pub const SHORT_SHA_LEN: usize = 7;

/// The first seven characters of an identifier, or all of it where it has
/// fewer.
pub open spec fn short_form(id: Seq<char>) -> Seq<char> {
    if id.len() >= SHORT_SHA_LEN {
        id.subrange(0, SHORT_SHA_LEN as int)
    } else {
        id
    }
}

/// The progress that a rebase sequence's counters amount to: step
/// `index + 1` of `total`, where that is a step of the sequence.
pub open spec fn progress_of(steps: RebaseSteps) -> Option<OperationProgress> {
    match steps.current_index {
        Some(index) => if OperationProgress::valid(index + 1, steps.total as int) {
            Some(OperationProgress { current: (index + 1) as usize, total: steps.total })
        } else {
            None
        },
        None => None,
    }
}

/// The state under a rebase flag: `Rebasing`, with the step where the
/// sequence could be opened and its counters name one.
pub open spec fn rebasing_state(rebase: Option<RebaseSteps>) -> SpecialState {
    match rebase {
        Some(steps) => SpecialState::Rebasing(progress_of(steps)),
        None => SpecialState::Rebasing(None),
    }
}

/// The state under the clean flag: `Detached` with the short identifier
/// (or "unknown" where the identifier could not be read) when HEAD is
/// detached, `Normal` otherwise.
pub open spec fn idle_state(head: HeadReading) -> SpecialState {
    match head {
        HeadReading::Detached(Some(id)) => SpecialState::Detached(short_form(id)),
        HeadReading::Detached(None) => SpecialState::Detached("unknown"@),
        HeadReading::Attached => SpecialState::Normal,
        HeadReading::Unreadable => SpecialState::Normal,
    }
}

/// The state that a flag and the readings made under it amount to. The
/// flag alone decides the variant, but for `Clean`, where HEAD decides
/// between `Detached` and `Normal`; a flag that is not recognized gives
/// `Normal`.
pub open spec fn classified(
    flag: OperationFlag,
    rebase: Option<RebaseSteps>,
    head: HeadReading,
) -> SpecialState {
    if flag.rebasing() {
        rebasing_state(rebase)
    } else if flag.cherry_picking() {
        SpecialState::CherryPicking(None)
    } else if flag is Merge {
        SpecialState::Merging
    } else if flag.reverting() {
        SpecialState::Reverting
    } else if flag is Bisect {
        SpecialState::Bisecting
    } else if flag.applying_patches() {
        SpecialState::ApplyingPatches
    } else if flag is Clean {
        idle_state(head)
    } else {
        SpecialState::Normal
    }
}

impl SpecialState {
    /// What holds of every state that detection reports: a step that is
    /// carried lies within its operation, a cherry-pick carries no step,
    /// and a commit identifier has at most seven characters.
    pub open spec fn detectable(self) -> bool {
        &&& self.wf()
        &&& self matches SpecialState::CherryPicking(p) ==> p is None
        &&& self matches SpecialState::Detached(id) ==> id.len() <= SHORT_SHA_LEN
    }
}

/// The short form of a commit identifier: its first seven characters, or
/// all of it where it has fewer.
pub fn short_sha(id: &str) -> (r: String)
    ensures
        r@ == short_form(id@),
{
    if id.unicode_len() >= SHORT_SHA_LEN {
        id.substring_char(0, SHORT_SHA_LEN).to_owned()
    } else {
        id.to_owned()
    }
}

/// The state under a rebase flag, from what the rebase sequence reported
/// (`None` where it could not be opened).
pub fn rebase_state(rebase: Option<RebaseSteps>) -> (r: GitSpecialState)
    ensures
        r@ == rebasing_state(rebase),
{
    match rebase {
        Some(steps) => match steps.current_index {
            Some(index) => {
                if index < steps.total {
                    GitSpecialState::Rebasing(OperationProgress::new(index + 1, steps.total))
                } else {
                    GitSpecialState::Rebasing(None)
                }
            },
            None => GitSpecialState::Rebasing(None),
        },
        None => GitSpecialState::Rebasing(None),
    }
}

/// The state under the clean flag, from what was read of HEAD.
pub fn detached_head_state(head: &HeadProbe) -> (r: GitSpecialState)
    ensures
        r@ == idle_state(head@),
{
    match head {
        HeadProbe::Detached(Some(id)) => GitSpecialState::Detached(short_sha(id.as_str())),
        HeadProbe::Detached(None) => GitSpecialState::Detached("unknown".to_owned()),
        HeadProbe::Attached => GitSpecialState::Normal,
        HeadProbe::Unreadable => GitSpecialState::Normal,
    }
}

/// Classifies a repository from its operation flag and the readings made
/// under it. `rebase` is read only under a rebase flag and `head` only
/// under the clean flag.
pub fn classify(flag: OperationFlag, rebase: Option<RebaseSteps>, head: &HeadProbe) -> (r:
    GitSpecialState)
    ensures
        r@ == classified(flag, rebase, head@),
        r@.detectable(),
{
    proof {
        lemma_classified_is_detectable(flag, rebase, head@);
    }
    match flag {
        OperationFlag::Rebase
        | OperationFlag::RebaseInteractive
        | OperationFlag::RebaseMerge => rebase_state(rebase),
        OperationFlag::CherryPick
        | OperationFlag::CherryPickSequence => GitSpecialState::CherryPicking(None),
        OperationFlag::Merge => GitSpecialState::Merging,
        OperationFlag::Revert | OperationFlag::RevertSequence => GitSpecialState::Reverting,
        OperationFlag::Bisect => GitSpecialState::Bisecting,
        OperationFlag::ApplyMailbox
        | OperationFlag::ApplyMailboxOrRebase => GitSpecialState::ApplyingPatches,
        OperationFlag::Clean => detached_head_state(head),
        OperationFlag::Unrecognized => GitSpecialState::Normal,
    }
}

/// Every classification is a state that detection may report.
pub proof fn lemma_classified_is_detectable(
    flag: OperationFlag,
    rebase: Option<RebaseSteps>,
    head: HeadReading,
)
    ensures
        classified(flag, rebase, head).detectable(),
{
    reveal_strlit("unknown");
}

/// Classification is total and exhaustive: every flag falls in exactly one
/// group, and the group, together with HEAD under the clean flag, fixes
/// the one variant that is reported.
pub proof fn lemma_classification_is_exhaustive(
    flag: OperationFlag,
    rebase: Option<RebaseSteps>,
    head: HeadReading,
)
    ensures
        ({
            let state = classified(flag, rebase, head);
            &&& state is Rebasing <==> flag.rebasing()
            &&& state is CherryPicking <==> flag.cherry_picking()
            &&& state is Merging <==> flag is Merge
            &&& state is Reverting <==> flag.reverting()
            &&& state is Bisecting <==> flag is Bisect
            &&& state is ApplyingPatches <==> flag.applying_patches()
            &&& state is Detached <==> flag is Clean && head is Detached
            &&& state is Normal <==> (flag is Clean && !(head is Detached)) || flag is Unrecognized
        }),
{
}

/// Detection is repeatable: two runs that find the same flag, and under it
/// the same readings, report the same state. A reading that the flag does
/// not call for has no part in the result, so it need not agree.
pub proof fn lemma_detection_is_repeatable(
    flag: OperationFlag,
    first_rebase: Option<RebaseSteps>,
    first_head: HeadReading,
    second_rebase: Option<RebaseSteps>,
    second_head: HeadReading,
)
    requires
        flag.rebasing() ==> first_rebase == second_rebase,
        flag is Clean ==> first_head == second_head,
    ensures
        classified(flag, first_rebase, first_head) == classified(
            flag,
            second_rebase,
            second_head,
        ),
{
}

/// Reads the step counters of the rebase in progress; `None` where the
/// sequence cannot be opened.
fn read_rebase_steps(repo: &Repository) -> (r: Option<RebaseSteps>) {
    match open_rebase(repo) {
        Ok(mut rebase) => {
            let current_index = rebase.operation_current();
            let total = rebase.len();
            Some(RebaseSteps { current_index, total })
        },
        Err(_) => None,
    }
}

/// Reads whether HEAD is detached and, where it is, the identifier of the
/// commit it points at.
fn read_head(repo: &Repository) -> (r: HeadProbe) {
    match repo.head_detached() {
        Ok(true) => match repo.head() {
            Ok(head) => match head.target() {
                Some(oid) => HeadProbe::Detached(Some(oid.to_string())),
                None => HeadProbe::Detached(None),
            },
            Err(_) => HeadProbe::Detached(None),
        },
        Ok(false) => HeadProbe::Attached,
        Err(_) => HeadProbe::Unreadable,
    }
}

/// Reads the operation flag and what it calls for: the rebase sequence
/// under a rebase flag, HEAD under the clean flag. What is not called for
/// is not read, and stands as `None` and `Unreadable`.
pub(crate) fn read_operation(repo: &Repository) -> (r: (
    OperationFlag,
    Option<RebaseSteps>,
    HeadProbe,
))
    ensures
        !r.0.rebasing() ==> r.1 is None,
        !(r.0 is Clean) ==> r.2 is Unreadable,
{
    let flag = operation_flag(repo);
    let rebase = if flag.is_rebase() {
        read_rebase_steps(repo)
    } else {
        None
    };
    let head = if flag.is_clean() {
        read_head(repo)
    } else {
        HeadProbe::Unreadable
    };
    (flag, rebase, head)
}

/// Detects the special state of a git repository.
///
/// Always returns a state: a query that fails degrades to the most
/// conservative state at its step. What comes back depends on the
/// repository on disk; whatever it is, it is the classification of what was
/// read, and so a state that detection may report.
pub fn detect_special_state(repo: &Repository) -> (r: GitSpecialState)
    ensures
        r@.detectable(),
{
    let (flag, rebase, head) = read_operation(repo);
    classify(flag, rebase, &head)
}

} // verus!
