use gprompt::models::prompt::{GitStatusSymbol, PromptColour};

#[test]
fn test_git_status_symbol_symbols() {
    assert_eq!(GitStatusSymbol::Ahead.symbol(), "↑");
    assert_eq!(GitStatusSymbol::Behind.symbol(), "↓");
    assert_eq!(GitStatusSymbol::Unstaged.symbol(), "×");
    assert_eq!(GitStatusSymbol::Staged.symbol(), "+");
    assert_eq!(GitStatusSymbol::Stashed.symbol(), "•");
    assert_eq!(GitStatusSymbol::Untracked.symbol(), "*");
}

#[test]
fn test_git_status_symbol_colors() {
    assert_eq!(GitStatusSymbol::Ahead.color(), PromptColour::Cyan);
    assert_eq!(GitStatusSymbol::Behind.color(), PromptColour::Cyan);
    assert_eq!(GitStatusSymbol::Unstaged.color(), PromptColour::Red);
    assert_eq!(GitStatusSymbol::Staged.color(), PromptColour::Cyan);
    assert_eq!(GitStatusSymbol::Stashed.color(), PromptColour::Yellow);
    assert_eq!(GitStatusSymbol::Untracked.color(), PromptColour::Yellow);
}

#[test]
fn branch_has_no_symbol_and_is_white() {
    assert_eq!(GitStatusSymbol::Branch.symbol(), "");
    assert_eq!(GitStatusSymbol::Branch.color(), PromptColour::White);
}
