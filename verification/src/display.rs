//! What passes between the game and the display that shows it.
//!
//! The game never draws. A tick takes an [`Input`], the key and the time the
//! display reports for the frame, and returns a [`Frame`]: the commands to
//! carry out, in order, and whether the player asked to leave.

use vstd::prelude::*;

verus! {

/// The keys the game tells apart.
#[derive(Clone, Copy, Debug, PartialEq, Eq, Structural)]
pub enum Key {
    /// Starts a game from the menu or after a loss.
    P,
    /// Asks to leave, from the menu or after a loss.
    Q,
    /// Flaps, while playing.
    Space,
    /// Any other key. The game ignores it.
    Other,
}

/// What the display reports for one frame.
#[derive(Clone, Copy, Debug, PartialEq, Eq, Structural)]
pub struct Input {
    /// The key pressed since the last frame, if any.
    pub key: Option<Key>,
    /// Time since the last frame, in microseconds.
    pub elapsed_micros: u64,
}

/// The colours the game draws with.
#[derive(Clone, Copy, Debug, PartialEq, Eq, Structural)]
pub enum Color {
    Black,
    Navy,
    Red,
    Yellow,
}

/// Index of a character in code page 437, the glyph set of the display.
pub uninterp spec fn cp437(c: char) -> u16;

/// The glyph that the display draws for `c`.
///
/// Calls `to_cp437` of bracket-lib, a table from characters to indices in
/// code page 437. The contract only names what the table holds for `c`.
#[verifier::external_body]
pub(crate) fn glyph(c: char) -> (g: u16)
    ensures
        g == cp437(c),
{
    bracket_lib::prelude::to_cp437(c)
}

/// One drawing command as mathematics sees it.
pub enum Drawing {
    Clear { background: Option<Color> },
    SetCell { x: int, y: int, fg: Color, bg: Color, glyph: u16 },
    Print { x: int, y: int, text: Seq<char> },
    PrintCentered { y: int, text: Seq<char> },
}

/// One command for the display. Cells outside the grid are the display's to
/// ignore: the game does not clip.
#[derive(Debug, PartialEq, Eq)]
pub enum DrawCommand {
    /// Clear the whole grid, to the given background colour if there is one.
    Clear { background: Option<Color> },
    /// Draw one glyph in one cell.
    SetCell { x: i32, y: i32, fg: Color, bg: Color, glyph: u16 },
    /// Write a text starting at a cell.
    Print { x: i32, y: i32, text: String },
    /// Write a text centred in a row.
    PrintCentered { y: i32, text: String },
}

impl View for DrawCommand {
    type V = Drawing;

    open spec fn view(&self) -> Drawing {
        match *self {
            DrawCommand::Clear { background } => Drawing::Clear { background },
            DrawCommand::SetCell { x, y, fg, bg, glyph } => Drawing::SetCell {
                x: x as int,
                y: y as int,
                fg,
                bg,
                glyph,
            },
            DrawCommand::Print { x, y, text } => Drawing::Print {
                x: x as int,
                y: y as int,
                text: text@,
            },
            DrawCommand::PrintCentered { y, text } => Drawing::PrintCentered {
                y: y as int,
                text: text@,
            },
        }
    }
}

/// The drawings that a list of commands stands for, in the same order.
pub open spec fn drawings(commands: Seq<DrawCommand>) -> Seq<Drawing> {
    commands.map_values(|c: DrawCommand| c@)
}

/// What one tick hands back to the display.
#[derive(Debug)]
pub struct Frame {
    /// The commands to carry out, first to last.
    pub commands: Vec<DrawCommand>,
    /// Whether the display should stop calling after this frame.
    pub quit: bool,
}

} // verus!
