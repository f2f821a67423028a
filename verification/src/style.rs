//! A plain model of the styling the browser attaches to rendered text. The
//! host maps these values onto its terminal library; the core only decides
//! which style each piece of text gets.

use vstd::prelude::*;

verus! {

/// A terminal color: one of the named palette entries or a 24-bit value.
#[derive(Clone, Copy, Debug, Eq, PartialEq, Structural)]
pub enum UiColor {
    Black,
    Blue,
    Cyan,
    DarkGray,
    Gray,
    Green,
    Red,
    Reset,
    White,
    Yellow,
    Rgb(u8, u8, u8),
}

/// A text style: optional foreground and background colors and the two
/// modifiers the browser uses.
#[derive(Clone, Copy, Debug, Eq, PartialEq, Structural)]
pub struct UiStyle {
    pub fg: Option<UiColor>,
    pub bg: Option<UiColor>,
    pub bold: bool,
    pub dim: bool,
}

impl UiStyle {
    /// The unstyled default.
    pub open spec fn spec_plain() -> UiStyle {
        UiStyle { fg: None, bg: None, bold: false, dim: false }
    }

    pub fn plain() -> (r: UiStyle)
        ensures
            r == UiStyle::spec_plain(),
    {
        UiStyle { fg: None, bg: None, bold: false, dim: false }
    }

    pub open spec fn spec_fg(self, c: UiColor) -> UiStyle {
        UiStyle { fg: Some(c), ..self }
    }

    pub fn fg(self, c: UiColor) -> (r: UiStyle)
        ensures
            r == self.spec_fg(c),
    {
        UiStyle { fg: Some(c), ..self }
    }

    pub open spec fn spec_bg(self, c: UiColor) -> UiStyle {
        UiStyle { bg: Some(c), ..self }
    }

    pub fn bg(self, c: UiColor) -> (r: UiStyle)
        ensures
            r == self.spec_bg(c),
    {
        UiStyle { bg: Some(c), ..self }
    }

    pub open spec fn spec_bold(self) -> UiStyle {
        UiStyle { bold: true, ..self }
    }

    pub fn bold(self) -> (r: UiStyle)
        ensures
            r == self.spec_bold(),
    {
        UiStyle { bold: true, ..self }
    }

    pub open spec fn spec_dim(self) -> UiStyle {
        UiStyle { dim: true, ..self }
    }

    pub fn dim(self) -> (r: UiStyle)
        ensures
            r == self.spec_dim(),
    {
        UiStyle { dim: true, ..self }
    }
}

} // verus!
