//! Turns the working directory and a repository's snapshot into the text
//! of the prompt.

use crate::models::git_repo_state::{GitRepoState, RepoSnapshot};
use crate::models::git_special_state::text_of;
use crate::models::prompt::{GitStatusSymbol, PromptColour};
use crate::services::terminal::{home_dir_text, paint, paint_dimmed, painted, path_text};
use std::path::Path;
use vstd::prelude::*;
use vstd::std_specs::iter::IteratorSpec;

verus! {

/// Whether `text` begins with `prefix`.
pub fn starts_with(text: &str, prefix: &str) -> (b: bool)
    ensures
        b == prefix@.is_prefix_of(text@),
{
    broadcast use vstd::string::group_string_axioms;

    let mut rest_of_text = text.chars();
    let mut rest_of_prefix = prefix.chars();
    let ghost mut matched: Seq<char> = Seq::empty();
    loop
        invariant
            text@ == matched + rest_of_text.remaining(),
            prefix@ == matched + rest_of_prefix.remaining(),
            rest_of_text.obeys_prophetic_iter_laws(),
            rest_of_prefix.obeys_prophetic_iter_laws(),
            rest_of_prefix.decrease() is Some,
        decreases rest_of_prefix.decrease()->0,
    {
        match rest_of_prefix.next() {
            None => return true,
            Some(wanted) => match rest_of_text.next() {
                None => return false,
                Some(found) => {
                    if found != wanted {
                        assert(text@[matched.len() as int] != prefix@[matched.len() as int]);
                        return false;
                    }
                    proof {
                        matched = matched.push(found);
                    }
                },
            },
        }
    }
}

/// The text that an optional string slice holds.
pub open spec fn slice_text_of(s: Option<&str>) -> Option<Seq<char>> {
    match s {
        Some(t) => Some(t@),
        None => None,
    }
}

/// The working directory as the prompt shows it: with `~` in place of the
/// home directory where the path begins with it, and as it is where there
/// is no home directory, where its path is empty, or where the working
/// directory lies elsewhere.
pub open spec fn abbreviated(cwd: Seq<char>, home: Option<Seq<char>>) -> Seq<char> {
    match home {
        Some(h) => if h.len() > 0 && h.is_prefix_of(cwd) {
            seq!['~'] + cwd.skip(h.len() as int)
        } else {
            cwd
        },
        None => cwd,
    }
}

/// Abbreviates the home directory at the start of a path to `~`.
pub fn abbreviate_home(cwd: &str, home: Option<&str>) -> (r: String)
    ensures
        r@ == abbreviated(cwd@, slice_text_of(home)),
{
    match home {
        Some(h) => {
            let home_len = h.unicode_len();
            if home_len > 0 && starts_with(cwd, h) {
                proof {
                    reveal_strlit("~");
                }
                let rest = cwd.substring_char(home_len, cwd.unicode_len());
                "~".to_owned().concat(rest)
            } else {
                cwd.to_owned()
            }
        },
        None => cwd.to_owned(),
    }
}

/// Abbreviates the user's home directory at the start of a path to `~`.
/// Which directory that is, and whether there is one, the environment
/// decides; whatever it is, the result is the path abbreviated by it.
pub fn abbreviate_path(cwd_text: &str) -> (r: String)
    ensures
        exists|home: Option<Seq<char>>| r@ == abbreviated(cwd_text@, home),
{
    let home = home_dir_text();
    let home_text = match &home {
        Some(text) => Some(text.as_str()),
        None => None,
    };
    let r = abbreviate_home(cwd_text, home_text);
    assert(r@ == abbreviated(cwd_text@, slice_text_of(home_text)));
    r
}

/// The working directory as the prompt shows it, with the user's home
/// directory abbreviated to `~`.
pub fn get_path(cwd: &Path) -> String {
    let cwd_text = path_text(cwd);
    abbreviate_path(cwd_text.as_str())
}

/// What stands where the branch name does: the text of the operation in
/// progress, and the branch name only where there is none.
pub open spec fn label_text(state: RepoSnapshot) -> Option<Seq<char>> {
    match state.special_state.display_text() {
        Some(text) => Some(text),
        None => state.branch,
    }
}

/// A symbol in its colour where it is shown, and nothing where it is not.
pub open spec fn symbol_if(shown: bool, symbol: GitStatusSymbol) -> Seq<char> {
    if shown {
        painted(symbol.color(), false, symbol.symbol_text())
    } else {
        Seq::empty()
    }
}

/// The symbols of the counters that are not zero, in the order ahead,
/// behind, unstaged, staged, stashed, untracked.
pub open spec fn symbols_text(state: RepoSnapshot) -> Seq<char> {
    symbol_if(state.ahead > 0, GitStatusSymbol::Ahead) + symbol_if(
        state.behind > 0,
        GitStatusSymbol::Behind,
    ) + symbol_if(state.unstaged > 0, GitStatusSymbol::Unstaged) + symbol_if(
        state.staged > 0,
        GitStatusSymbol::Staged,
    ) + symbol_if(state.stashed > 0, GitStatusSymbol::Stashed) + symbol_if(
        state.untracked > 0,
        GitStatusSymbol::Untracked,
    )
}

/// The part of the prompt that speaks of the repository: the label in
/// dimmed white and a space, where there is a label, then the symbols.
pub open spec fn git_segment_text(state: RepoSnapshot) -> Seq<char> {
    (match label_text(state) {
        Some(label) => painted(PromptColour::White, true, label) + seq![' '],
        None => Seq::empty(),
    }) + symbols_text(state)
}

/// The snapshot that an optional repository state stands for.
pub open spec fn snapshot_of(state: Option<GitRepoState>) -> Option<RepoSnapshot> {
    match state {
        Some(s) => Some(s@),
        None => None,
    }
}

/// The whole prompt: an empty line; the path in blue, a space and the
/// repository's part, where there is a repository; and on a last line the
/// prompt glyph in purple and a space.
pub open spec fn prompt_text(path: Seq<char>, state: Option<RepoSnapshot>) -> Seq<char> {
    seq!['\n'] + painted(PromptColour::Blue, false, path) + seq![' '] + (match state {
        Some(s) => git_segment_text(s),
        None => Seq::empty(),
    }) + seq!['\n'] + painted(PromptColour::Purple, false, seq!['❯']) + seq![' ']
}

/// Appends the symbol in its colour where `shown` holds.
fn push_symbol(text: &mut String, shown: bool, symbol: GitStatusSymbol)
    ensures
        final(text)@ == old(text)@ + symbol_if(shown, symbol),
{
    if shown {
        let coloured = paint(symbol.color(), symbol.symbol());
        text.append(coloured.as_str());
    }
}

/// What stands where the branch name does.
fn label(state: &GitRepoState) -> (r: Option<String>)
    ensures
        text_of(r) == label_text(state@),
{
    match state.special_state.display_name() {
        Some(special_display) => Some(special_display),
        None => match &state.branch {
            Some(branch) => Some(branch.clone()),
            None => None,
        },
    }
}

/// The symbols of the counters that are not zero.
fn symbols(state: &GitRepoState) -> (r: String)
    ensures
        r@ == symbols_text(state@),
{
    let mut text = String::new();
    push_symbol(&mut text, state.ahead > 0, GitStatusSymbol::Ahead);
    push_symbol(&mut text, state.behind > 0, GitStatusSymbol::Behind);
    push_symbol(&mut text, state.unstaged > 0, GitStatusSymbol::Unstaged);
    push_symbol(&mut text, state.staged > 0, GitStatusSymbol::Staged);
    push_symbol(&mut text, state.stashed > 0, GitStatusSymbol::Stashed);
    push_symbol(&mut text, state.untracked > 0, GitStatusSymbol::Untracked);
    text
}

/// Renders the part of the prompt that speaks of the repository.
pub fn git_segment(state: &GitRepoState) -> (r: String)
    ensures
        r@ == git_segment_text(state@),
{
    let mut text = String::new();
    match label(state) {
        Some(shown) => {
            proof {
                reveal_strlit(" ");
            }
            text.append(paint_dimmed(PromptColour::White, shown.as_str()).as_str());
            text.append(" ");
        },
        None => {},
    }
    text.append(symbols(state).as_str());
    text
}

/// Renders the prompt for a working directory, already abbreviated, and
/// the snapshot of its repository, where it lies in one.
pub fn render_prompt(path_segment: &str, git_state: &Option<GitRepoState>) -> (r: String)
    ensures
        r@ == prompt_text(path_segment@, snapshot_of(*git_state)),
{
    proof {
        reveal_strlit("\n");
        reveal_strlit(" ");
        reveal_strlit("❯");
    }
    let mut text = "\n".to_owned();
    text.append(paint(PromptColour::Blue, path_segment).as_str());
    text.append(" ");
    match git_state {
        Some(state) => {
            text.append(git_segment(state).as_str());
        },
        None => {},
    }
    text.append("\n");
    text.append(paint(PromptColour::Purple, "❯").as_str());
    text.append(" ");
    text
}

} // verus!
