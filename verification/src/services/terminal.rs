//! Colours on the terminal, and the paths that the prompt shows.
//!
//! Nothing in this file is proved. Each item gives a contract to a call
//! into the `ansi_term` or `dirs` crate, or into `std::path`.

use crate::models::prompt::PromptColour;
use ansi_term::Colour;
use std::path::Path;
use vstd::prelude::*;

verus! {

/// The digits of the escape code that selects `colour` as the foreground.
pub open spec fn foreground_code(colour: PromptColour) -> Seq<char> {
    match colour {
        PromptColour::Red => seq!['3', '1'],
        PromptColour::Yellow => seq!['3', '3'],
        PromptColour::Blue => seq!['3', '4'],
        PromptColour::Purple => seq!['3', '5'],
        PromptColour::Cyan => seq!['3', '6'],
        PromptColour::White => seq!['3', '7'],
    }
}

/// `text` between the escape sequence that selects `colour`, dimmed where
/// asked, and the one that resets the terminal.
pub open spec fn painted(colour: PromptColour, dimmed: bool, text: Seq<char>) -> Seq<char> {
    seq!['\u{1b}', '['] + (if dimmed {
        seq!['2', ';']
    } else {
        Seq::empty()
    }) + foreground_code(colour) + seq!['m'] + text + seq!['\u{1b}', '[', '0', 'm']
}

/// `Colour::paint` of the variant that has the name of `colour`, shown as
/// text: `text` after the escape sequence `ESC [ code m` of the colour's
/// foreground code, and before the reset sequence `ESC [ 0 m`.
#[verifier::external_body]
pub(crate) fn paint(colour: PromptColour, text: &str) -> (r: String)
    ensures
        r@ == painted(colour, false, text@),
{
    match colour {
        PromptColour::Red => Colour::Red,
        PromptColour::Yellow => Colour::Yellow,
        PromptColour::Blue => Colour::Blue,
        PromptColour::Purple => Colour::Purple,
        PromptColour::Cyan => Colour::Cyan,
        PromptColour::White => Colour::White,
    }.paint(text).to_string()
}

/// `Colour::dimmed` and `Style::paint` of the variant that has the name of
/// `colour`, shown as text: as `paint`, with the code `2` and a semicolon
/// before the colour's code.
#[verifier::external_body]
pub(crate) fn paint_dimmed(colour: PromptColour, text: &str) -> (r: String)
    ensures
        r@ == painted(colour, true, text@),
{
    match colour {
        PromptColour::Red => Colour::Red,
        PromptColour::Yellow => Colour::Yellow,
        PromptColour::Blue => Colour::Blue,
        PromptColour::Purple => Colour::Purple,
        PromptColour::Cyan => Colour::Cyan,
        PromptColour::White => Colour::White,
    }.dimmed().paint(text).to_string()
}

/// `dirs::home_dir`: the user's home directory, where there is one and its
/// path is valid UTF-8. It depends on the environment, so nothing is
/// claimed of it.
#[verifier::external_body]
pub(crate) fn home_dir_text() -> (r: Option<String>) {
    dirs::home_dir().and_then(|home| home.to_str().map(|text| text.to_owned()))
}

/// `Path::display`: the path as text, with a replacement character for
/// what is not valid UTF-8.
#[verifier::external_body]
pub(crate) fn path_text(path: &Path) -> (r: String) {
    path.display().to_string()
}

} // verus!
