//! How a piece of text is to be drawn.

use vstd::prelude::*;

verus! {

/// The colours the components use.
#[derive(Clone, Copy, Debug, PartialEq, Eq, Structural)]
pub enum Color {
    Green,
    LightCyan,
    White,
    LightBlue,
    DarkGray,
    Red,
    Gray,
    Yellow,
}

/// A foreground colour, if any, and whether the text is bold.
#[derive(Clone, Copy, Debug, PartialEq, Eq)]
pub struct Style {
    pub fg: Option<Color>,
    pub bold: bool,
}

impl Style {
    /// No colour, not bold.
    pub open spec fn plain() -> Style {
        Style { fg: None, bold: false }
    }

    /// The style of the first span of the selected row: bold green.
    pub open spec fn highlight() -> Style {
        Style { fg: Some(Color::Green), bold: true }
    }

    /// The plain style.
    pub fn new() -> (s: Style)
        ensures
            s == Style::plain(),
    {
        Style { fg: None, bold: false }
    }

    /// This style with the foreground colour `color`.
    pub fn fg(self, color: Color) -> (s: Style)
        ensures
            s == (Style { fg: Some(color), bold: self.bold }),
    {
        Style { fg: Some(color), bold: self.bold }
    }

    /// This style made bold.
    pub fn bold(self) -> (s: Style)
        ensures
            s == (Style { fg: self.fg, bold: true }),
    {
        Style { fg: self.fg, bold: true }
    }
}

impl Default for Style {
    fn default() -> (s: Style)
        ensures
            s == Style::plain(),
    {
        Style { fg: None, bold: false }
    }
}

/// The colour of a panel's border: light cyan with the focus, white without.
pub open spec fn border_for(has_focus: bool) -> Color {
    if has_focus {
        Color::LightCyan
    } else {
        Color::White
    }
}

/// The border colour of a panel that has or lacks the focus.
pub fn border_color(has_focus: bool) -> (c: Color)
    ensures
        c == border_for(has_focus),
{
    if has_focus {
        Color::LightCyan
    } else {
        Color::White
    }
}

} // verus!
