//! How the help text is set off on a terminal.

use vstd::prelude::*;

verus! {

/// One of the sixteen colours that every terminal has.
#[derive(Debug, Clone, Copy, PartialEq, Eq, Structural)]
pub enum AnsiColor {
    Black,
    Red,
    Green,
    Yellow,
    Blue,
    Magenta,
    Cyan,
    White,
    BrightBlack,
    BrightRed,
    BrightGreen,
    BrightYellow,
    BrightBlue,
    BrightMagenta,
    BrightCyan,
    BrightWhite,
}

/// How a piece of text is set off: in bold or not, in a colour or not.
#[derive(Debug, Clone, Copy, PartialEq, Eq, Structural)]
pub struct Style {
    /// Whether the text is bold.
    pub bold: bool,
    /// The colour of the text; that of the terminal if none.
    pub fg_color: Option<AnsiColor>,
}

/// How the parts of the help text are set off. A part that is not listed
/// here is plain.
#[derive(Debug, Clone, Copy, PartialEq, Eq, Structural)]
pub struct Styles {
    /// The headings.
    pub header: Style,
    /// What the user writes as it stands: commands and flags.
    pub literal: Style,
}

/// The styles of the help text: headings in bold, literals in bold yellow.
pub fn make_style() -> (r: Styles)
    ensures
        r.header == (Style { bold: true, fg_color: None }),
        r.literal == (Style { bold: true, fg_color: Some(AnsiColor::Yellow) }),
{
    Styles {
        header: Style { bold: true, fg_color: None },
        literal: Style { bold: true, fg_color: Some(AnsiColor::Yellow) },
    }
}

} // verus!
