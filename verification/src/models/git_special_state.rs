//! The operation a repository is suspended in, and the text shown for it.

use vstd::prelude::*;

verus! {

/// The step that a multi-step operation has reached, counted from one.
#[derive(Debug, Clone, Copy, PartialEq, Eq, Structural)]
pub struct OperationProgress {
    /// The step being applied, counted from one.
    pub current: usize,
    /// The number of steps in the operation.
    pub total: usize,
}

impl OperationProgress {
    /// Whether `current` of `total` is a step of an operation: both are
    /// positive and `current` does not pass `total`.
    pub open spec fn valid(current: int, total: int) -> bool {
        current >= 1 && total >= 1 && current <= total
    }

    /// Well-formedness: the step lies within the operation.
    pub open spec fn wf(&self) -> bool {
        Self::valid(self.current as int, self.total as int)
    }

    /// Step `current` of `total`, or `None` where that is no step of any
    /// operation.
    pub fn new(current: usize, total: usize) -> (r: Option<OperationProgress>)
        ensures
            r is Some <==> Self::valid(current as int, total as int),
            r matches Some(p) ==> p == (OperationProgress { current, total }) && p.wf(),
    {
        if current > 0 && total > 0 && current <= total {
            Some(OperationProgress { current, total })
        } else {
            None
        }
    }
}

/// The character that stands for the decimal digit `d`.
pub open spec fn digit_char(d: nat) -> char
    recommends
        d < 10,
{
    ('0' as nat + d) as char
}

/// The decimal numeral of `n`, without leading zeros.
pub open spec fn decimal(n: nat) -> Seq<char>
    decreases n,
{
    if n < 10 {
        seq![digit_char(n)]
    } else {
        decimal(n / 10).push(digit_char(n % 10))
    }
}

fn digit_text(d: usize) -> (s: &'static str)
    requires
        d < 10,
    ensures
        s@ == seq![digit_char(d as nat)],
{
    proof {
        reveal_strlit("0");
        reveal_strlit("1");
        reveal_strlit("2");
        reveal_strlit("3");
        reveal_strlit("4");
        reveal_strlit("5");
        reveal_strlit("6");
        reveal_strlit("7");
        reveal_strlit("8");
        reveal_strlit("9");
    }
    if d == 0 {
        "0"
    } else if d == 1 {
        "1"
    } else if d == 2 {
        "2"
    } else if d == 3 {
        "3"
    } else if d == 4 {
        "4"
    } else if d == 5 {
        "5"
    } else if d == 6 {
        "6"
    } else if d == 7 {
        "7"
    } else if d == 8 {
        "8"
    } else {
        "9"
    }
}

/// Writes `n` as a decimal numeral.
pub fn to_decimal(n: usize) -> (s: String)
    ensures
        s@ == decimal(n as nat),
    decreases n,
{
    if n < 10 {
        digit_text(n).to_owned()
    } else {
        let head = to_decimal(n / 10);
        head.concat(digit_text(n % 10))
    }
}

/// Represents special git operations in progress.
#[derive(Debug, Clone, PartialEq, Eq)]
pub enum GitSpecialState {
    /// On a branch, with no operation in progress.
    Normal,
    /// A rebase is in progress, at the given step where it is known.
    Rebasing(Option<OperationProgress>),
    /// A cherry-pick is in progress, at the given step where it is known.
    CherryPicking(Option<OperationProgress>),
    /// HEAD points at a commit; the text is the commit's short identifier.
    Detached(String),
    /// A merge is in progress.
    Merging,
    /// A revert is in progress.
    Reverting,
    /// A bisect is in progress.
    Bisecting,
    /// Patches from a mailbox are being applied.
    ApplyingPatches,
}

/// What a `GitSpecialState` stands for: the same variants, over plain
/// mathematical values.
pub ghost enum SpecialState {
    Normal,
    Rebasing(Option<OperationProgress>),
    CherryPicking(Option<OperationProgress>),
    Detached(Seq<char>),
    Merging,
    Reverting,
    Bisecting,
    ApplyingPatches,
}

impl View for GitSpecialState {
    type V = SpecialState;

    open spec fn view(&self) -> SpecialState {
        match self {
            GitSpecialState::Normal => SpecialState::Normal,
            GitSpecialState::Rebasing(p) => SpecialState::Rebasing(*p),
            GitSpecialState::CherryPicking(p) => SpecialState::CherryPicking(*p),
            GitSpecialState::Detached(sha) => SpecialState::Detached(sha@),
            GitSpecialState::Merging => SpecialState::Merging,
            GitSpecialState::Reverting => SpecialState::Reverting,
            GitSpecialState::Bisecting => SpecialState::Bisecting,
            GitSpecialState::ApplyingPatches => SpecialState::ApplyingPatches,
        }
    }
}

/// The name of an operation, followed by " current/total" where the step is
/// known.
pub open spec fn text_with_progress(name: Seq<char>, progress: Option<OperationProgress>) -> Seq<
    char,
> {
    match progress {
        Some(p) => name + seq![' '] + decimal(p.current as nat) + seq!['/'] + decimal(
            p.total as nat,
        ),
        None => name,
    }
}

impl SpecialState {
    /// Well-formedness: a step that is carried lies within its operation.
    pub open spec fn wf(self) -> bool {
        match self {
            SpecialState::Rebasing(Some(p)) => p.wf(),
            SpecialState::CherryPicking(Some(p)) => p.wf(),
            _ => true,
        }
    }

    /// The text shown in place of the branch name: none for `Normal`, and
    /// for every other state its label, with the step or the commit where
    /// the state carries one.
    pub open spec fn display_text(self) -> Option<Seq<char>> {
        match self {
            SpecialState::Normal => None,
            SpecialState::Rebasing(p) => Some(text_with_progress("Rebasing"@, p)),
            SpecialState::CherryPicking(p) => Some(text_with_progress("Cherry-picking"@, p)),
            SpecialState::Detached(sha) => Some("Detached @ "@ + sha),
            SpecialState::Merging => Some("Merging"@),
            SpecialState::Reverting => Some("Reverting"@),
            SpecialState::Bisecting => Some("Bisecting"@),
            SpecialState::ApplyingPatches => Some("Applying patches"@),
        }
    }
}

/// The text that an optional string holds.
pub open spec fn text_of(s: Option<String>) -> Option<Seq<char>> {
    match s {
        Some(t) => Some(t@),
        None => None,
    }
}

impl Default for GitSpecialState {
    fn default() -> (r: GitSpecialState)
        ensures
            r@ == SpecialState::Normal,
    {
        GitSpecialState::Normal
    }
}

impl GitSpecialState {
    /// Returns the display string for this special state, or `None` for
    /// `Normal`.
    pub fn display_name(&self) -> (r: Option<String>)
        ensures
            text_of(r) == self@.display_text(),
    {
        match self {
            GitSpecialState::Normal => None,
            GitSpecialState::Rebasing(progress) => Some(
                Self::format_with_progress("Rebasing", progress),
            ),
            GitSpecialState::CherryPicking(progress) => Some(
                Self::format_with_progress("Cherry-picking", progress),
            ),
            GitSpecialState::Detached(sha) => Some(
                "Detached @ ".to_owned().concat(sha.as_str()),
            ),
            GitSpecialState::Merging => Some("Merging".to_owned()),
            GitSpecialState::Reverting => Some("Reverting".to_owned()),
            GitSpecialState::Bisecting => Some("Bisecting".to_owned()),
            GitSpecialState::ApplyingPatches => Some("Applying patches".to_owned()),
        }
    }

    fn format_with_progress(state_name: &str, progress: &Option<OperationProgress>) -> (r: String)
        ensures
            r@ == text_with_progress(state_name@, *progress),
    {
        match progress {
            Some(p) => {
                let mut text = state_name.to_owned();
                text.append(" ");
                text.append(to_decimal(p.current).as_str());
                text.append("/");
                text.append(to_decimal(p.total).as_str());
                proof {
                    reveal_strlit(" ");
                    reveal_strlit("/");
                }
                text
            },
            None => state_name.to_owned(),
        }
    }
}

} // verus!
