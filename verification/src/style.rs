//! Styled text: the vocabulary of the frame commands the renderer emits.
//!
//! A frame command places a run of styled text spans at a 1-based
//! (column, row) cell of the grid. Turning a style into concrete terminal
//! escape sequences is the terminal collaborator's job, not the library's.

use vstd::prelude::*;

verus! {

/// The palette the renderer uses.
#[derive(Clone, Copy, PartialEq, Eq, Structural, Debug)]
pub enum Color {
    Default,
    Black,
    White,
    Blue,
    Green,
    Red,
    Yellow,
    Magenta,
}

/// A text style: foreground and background colors plus emphasis flags.
#[derive(Clone, Copy, PartialEq, Eq, Structural, Debug)]
pub struct Style {
    pub fg: Color,
    pub bg: Color,
    pub bold: bool,
    pub underline: bool,
}

impl Style {
    /// The unstyled default.
    pub open spec fn spec_plain() -> Style {
        Style { fg: Color::Default, bg: Color::Default, bold: false, underline: false }
    }

    /// The unstyled default.
    pub fn plain() -> (s: Style)
        ensures
            s == Style::spec_plain(),
    {
        Style { fg: Color::Default, bg: Color::Default, bold: false, underline: false }
    }

    /// A plain style with only the foreground color set.
    pub open spec fn spec_fg(color: Color) -> Style {
        Style { fg: color, bg: Color::Default, bold: false, underline: false }
    }

    /// A plain style with only the foreground color set.
    pub fn colored(color: Color) -> (s: Style)
        ensures
            s == Style::spec_fg(color),
    {
        Style { fg: color, bg: Color::Default, bold: false, underline: false }
    }
}

/// The mathematical model of a [`Span`]: its style and its text as a
/// sequence of characters.
#[verifier::ext_equal]
pub ghost struct SpanModel {
    pub style: Style,
    pub text: Seq<char>,
}

/// A run of uniformly styled text.
#[derive(Debug)]
pub struct Span {
    pub style: Style,
    pub text: String,
}

impl View for Span {
    type V = SpanModel;

    open spec fn view(&self) -> SpanModel {
        SpanModel { style: self.style, text: self.text@ }
    }
}

/// The mathematical model of a [`FrameCommand`].
#[verifier::ext_equal]
pub ghost struct FrameCommandModel {
    pub column: int,
    pub row: int,
    pub spans: Seq<SpanModel>,
}

/// One placement operation of a frame: write the given spans, left to
/// right, starting at the 1-based grid cell (column, row).
#[derive(Debug)]
pub struct FrameCommand {
    pub column: u16,
    pub row: u16,
    pub spans: Vec<Span>,
}

impl View for FrameCommand {
    type V = FrameCommandModel;

    open spec fn view(&self) -> FrameCommandModel {
        FrameCommandModel {
            column: self.column as int,
            row: self.row as int,
            spans: self.spans@.map_values(|s: Span| s@),
        }
    }
}

} // verus!
