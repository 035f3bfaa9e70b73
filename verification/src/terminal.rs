//! The control sequences that the frame is made of, as the `termion` crate
//! writes them.

use vstd::prelude::*;
use crate::text::decimal;

verus! {

/// The two characters that introduce a control sequence: escape, then `[`.
pub open spec fn csi() -> Seq<char> {
    seq!['\u{1b}', '[']
}

/// The sequence that hides the cursor glyph.
pub open spec fn hide_cursor_text() -> Seq<char> {
    csi() + seq!['?', '2', '5', 'l']
}

/// The sequence that shows the cursor glyph.
pub open spec fn show_cursor_text() -> Seq<char> {
    csi() + seq!['?', '2', '5', 'h']
}

/// The sequence that clears the line the cursor is in.
pub open spec fn clear_line_text() -> Seq<char> {
    csi() + seq!['2', 'K']
}

/// The sequence that moves the cursor to column `x` of row `y`, both counted
/// from one: the row's numeral, `;`, the column's numeral, `H`.
pub open spec fn goto_text(x: nat, y: nat) -> Seq<char> {
    csi() + decimal(y) + seq![';'] + decimal(x) + seq!['H']
}

/// Formats `termion::cursor::Hide`. Trusted: that `Display` writes the
/// introducer followed by `?25l`, as the crate's source gives it.
#[verifier::external_body]
pub(crate) fn hide_cursor_sequence() -> (s: String)
    ensures
        s@ == hide_cursor_text(),
{
    format!("{}", termion::cursor::Hide)
}

/// Formats `termion::cursor::Show`. Trusted: that `Display` writes the
/// introducer followed by `?25h`, as the crate's source gives it.
#[verifier::external_body]
pub(crate) fn show_cursor_sequence() -> (s: String)
    ensures
        s@ == show_cursor_text(),
{
    format!("{}", termion::cursor::Show)
}

/// Formats `termion::clear::CurrentLine`. Trusted: that `Display` writes the
/// introducer followed by `2K`, as the crate's source gives it.
#[verifier::external_body]
pub(crate) fn clear_line_sequence() -> (s: String)
    ensures
        s@ == clear_line_text(),
{
    format!("{}", termion::clear::CurrentLine)
}

/// Formats `termion::cursor::Goto(x, y)`. Trusted: that `Display` writes the
/// introducer, the row in decimal, `;`, the column in decimal and `H`. The
/// crate asserts that the position is not `(0, 0)`, so that position is
/// left out.
#[verifier::external_body]
pub(crate) fn goto_sequence(x: u16, y: u16) -> (s: String)
    requires
        !(x == 0 && y == 0),
    ensures
        s@ == goto_text(x as nat, y as nat),
{
    format!("{}", termion::cursor::Goto(x, y))
}

} // verus!
