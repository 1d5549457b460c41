//! The symbols that stand for a repository's counters, and their colours.

use vstd::prelude::*;

verus! {

/// The colours that the prompt is painted in, each named as the terminal
/// names it.
#[derive(Debug, Clone, Copy, PartialEq, Eq, Structural)]
pub enum PromptColour {
    Red,
    Yellow,
    Blue,
    Purple,
    Cyan,
    White,
}

/// What the prompt can say of a repository, each with a symbol of its own.
pub enum GitStatusSymbol {
    /// The branch name; it has no symbol.
    Branch,
    /// HEAD is ahead of its upstream.
    Ahead,
    /// HEAD is behind its upstream.
    Behind,
    /// The working tree differs from the index.
    Unstaged,
    /// The index differs from HEAD.
    Staged,
    /// The stash list is not empty.
    Stashed,
    /// The working tree holds untracked files.
    Untracked,
}

impl GitStatusSymbol {
    /// The text of the symbol.
    pub open spec fn symbol_text(&self) -> Seq<char> {
        match self {
            GitStatusSymbol::Branch => Seq::empty(),
            GitStatusSymbol::Ahead => seq!['↑'],
            GitStatusSymbol::Behind => seq!['↓'],
            GitStatusSymbol::Unstaged => seq!['×'],
            GitStatusSymbol::Staged => seq!['+'],
            GitStatusSymbol::Stashed => seq!['•'],
            GitStatusSymbol::Untracked => seq!['*'],
        }
    }

    /// The colour of the symbol.
    pub open spec fn spec_color(&self) -> PromptColour {
        match self {
            GitStatusSymbol::Branch => PromptColour::White,
            GitStatusSymbol::Ahead => PromptColour::Cyan,
            GitStatusSymbol::Behind => PromptColour::Cyan,
            GitStatusSymbol::Unstaged => PromptColour::Red,
            GitStatusSymbol::Staged => PromptColour::Cyan,
            GitStatusSymbol::Stashed => PromptColour::Yellow,
            GitStatusSymbol::Untracked => PromptColour::Yellow,
        }
    }

    /// The symbol, as text.
    pub fn symbol(&self) -> (r: &'static str)
        ensures
            r@ == self.symbol_text(),
    {
        proof {
            reveal_strlit("");
            reveal_strlit("↑");
            reveal_strlit("↓");
            reveal_strlit("×");
            reveal_strlit("+");
            reveal_strlit("•");
            reveal_strlit("*");
        }
        match self {
            GitStatusSymbol::Branch => "",
            GitStatusSymbol::Ahead => "↑",
            GitStatusSymbol::Behind => "↓",
            GitStatusSymbol::Unstaged => "×",
            GitStatusSymbol::Staged => "+",
            GitStatusSymbol::Stashed => "•",
            GitStatusSymbol::Untracked => "*",
        }
    }

    /// The colour that the symbol is painted in.
    #[verifier::when_used_as_spec(spec_color)]
    pub fn color(&self) -> (r: PromptColour)
        ensures
            r == self.spec_color(),
    {
        match self {
            GitStatusSymbol::Branch => PromptColour::White,
            GitStatusSymbol::Ahead => PromptColour::Cyan,
            GitStatusSymbol::Behind => PromptColour::Cyan,
            GitStatusSymbol::Unstaged => PromptColour::Red,
            GitStatusSymbol::Staged => PromptColour::Cyan,
            GitStatusSymbol::Stashed => PromptColour::Yellow,
            GitStatusSymbol::Untracked => PromptColour::Yellow,
        }
    }
}

} // verus!
