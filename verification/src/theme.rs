//! The colours of the selection dialog.

use vstd::prelude::*;

verus! {

/// One of the eight base colours of a terminal.
#[derive(Debug, Clone, Copy, PartialEq, Eq, Structural)]
pub enum BaseColor {
    Black,
    Red,
    Green,
    Yellow,
    Blue,
    Magenta,
    Cyan,
    White,
}

/// A colour of the terminal.
#[derive(Debug, Clone, Copy, PartialEq, Eq, Structural)]
pub enum Color {
    /// The colour that the terminal itself is set to.
    TerminalDefault,
    /// The regular version of a base colour.
    Dark(BaseColor),
    /// The light version of a base colour.
    Light(BaseColor),
    /// A colour of 24 bits: red, green, blue.
    Rgb(u8, u8, u8),
    /// A colour of the terminal's palette of 216: red, green and blue, each
    /// from 0 to 5.
    RgbLowRes(u8, u8, u8),
}

/// The part of the screen that a colour is used for.
#[derive(Debug, Clone, Copy, PartialEq, Eq, Structural)]
pub enum PaletteColor {
    Background,
    Shadow,
    View,
    Primary,
    Secondary,
    Tertiary,
    TitlePrimary,
    TitleSecondary,
    Highlight,
    HighlightInactive,
    HighlightText,
}

/// How the borders of a view are drawn.
#[derive(Debug, Clone, Copy, PartialEq, Eq, Structural)]
pub enum BorderStyle {
    /// Plain lines.
    Simple,
    /// Lines with a light and a dark side.
    Outset,
    /// No borders at all.
    Borderless,
}

/// The colour given to one part of the screen.
#[derive(Debug, Clone, Copy, PartialEq, Eq, Structural)]
pub struct PaletteEntry {
    pub slot: PaletteColor,
    pub color: Color,
}

/// The look of the dialog: the style of its borders, and the colours that
/// differ from the terminal library's own palette.
#[derive(Debug, Clone, PartialEq, Eq)]
pub struct Theme {
    pub borders: BorderStyle,
    pub palette: Vec<PaletteEntry>,
}

/// A colour can be shown when, if it is one of the palette of 216, none of
/// its three parts is above 5. The terminal library stops the program on
/// any other.
pub open spec fn showable(color: Color) -> bool {
    color matches Color::RgbLowRes(red, green, blue) ==> red <= 5 && green <= 5 && blue <= 5
}

/// The colour that the dialog gives to a part of the screen, or `None` for
/// a part that keeps the colour of the terminal library's palette.
pub open spec fn dialog_color(slot: PaletteColor) -> Option<Color> {
    match slot {
        PaletteColor::Background => Some(Color::TerminalDefault),
        PaletteColor::View => Some(Color::TerminalDefault),
        PaletteColor::Primary => Some(Color::Dark(BaseColor::Blue)),
        PaletteColor::Secondary => Some(Color::Light(BaseColor::Blue)),
        PaletteColor::Tertiary => Some(Color::RgbLowRes(5, 1, 5)),
        PaletteColor::TitlePrimary => Some(Color::RgbLowRes(5, 4, 0)),
        PaletteColor::Highlight => Some(Color::RgbLowRes(5, 5, 0)),
        PaletteColor::HighlightInactive => Some(Color::RgbLowRes(3, 3, 0)),
        PaletteColor::Shadow => None,
        PaletteColor::TitleSecondary => None,
        PaletteColor::HighlightText => None,
    }
}

/// The place of a part of the screen in the order of the palette.
pub open spec fn rank(slot: PaletteColor) -> int {
    match slot {
        PaletteColor::Background => 0,
        PaletteColor::Shadow => 1,
        PaletteColor::View => 2,
        PaletteColor::Primary => 3,
        PaletteColor::Secondary => 4,
        PaletteColor::Tertiary => 5,
        PaletteColor::TitlePrimary => 6,
        PaletteColor::TitleSecondary => 7,
        PaletteColor::Highlight => 8,
        PaletteColor::HighlightInactive => 9,
        PaletteColor::HighlightText => 10,
    }
}

/// The look of the selection dialog: simple borders, the terminal's own
/// background, blue text, and yellow for the highlighted entry.
///
/// The palette names the parts of the screen that have a colour of the
/// dialog, each once and with that colour, in the order of the palette, and
/// every colour in it can be shown.
pub fn create_theme() -> (theme: Theme)
    ensures
        theme.borders == BorderStyle::Simple,
        theme.palette.len() == 8,
        forall|i: int|
            0 <= i < theme.palette.len() ==> dialog_color((#[trigger] theme.palette[i]).slot)
                == Some(theme.palette[i].color),
        forall|slot: PaletteColor|
            dialog_color(slot) is Some ==> exists|i: int|
                0 <= i < theme.palette.len() && (#[trigger] theme.palette[i]).slot == slot,
        forall|i: int, j: int|
            0 <= i < j < theme.palette.len() ==> rank((#[trigger] theme.palette[i]).slot) < rank(
                (#[trigger] theme.palette[j]).slot,
            ),
        forall|i: int|
            0 <= i < theme.palette.len() ==> showable((#[trigger] theme.palette[i]).color),
{
    let mut palette: Vec<PaletteEntry> = Vec::new();
    palette.push(PaletteEntry { slot: PaletteColor::Background, color: Color::TerminalDefault });
    palette.push(PaletteEntry { slot: PaletteColor::View, color: Color::TerminalDefault });
    palette.push(
        PaletteEntry { slot: PaletteColor::Primary, color: Color::Dark(BaseColor::Blue) },
    );
    palette.push(
        PaletteEntry { slot: PaletteColor::Secondary, color: Color::Light(BaseColor::Blue) },
    );
    palette.push(PaletteEntry { slot: PaletteColor::Tertiary, color: Color::RgbLowRes(5, 1, 5) });
    palette.push(
        PaletteEntry { slot: PaletteColor::TitlePrimary, color: Color::RgbLowRes(5, 4, 0) },
    );
    palette.push(PaletteEntry { slot: PaletteColor::Highlight, color: Color::RgbLowRes(5, 5, 0) });
    palette.push(
        PaletteEntry { slot: PaletteColor::HighlightInactive, color: Color::RgbLowRes(3, 3, 0) },
    );
    assert forall|slot: PaletteColor| dialog_color(slot) is Some implies exists|i: int|
        0 <= i < palette.len() && (#[trigger] palette[i]).slot == slot by {
        match slot {
            PaletteColor::Background => assert(palette[0].slot == slot),
            PaletteColor::View => assert(palette[1].slot == slot),
            PaletteColor::Primary => assert(palette[2].slot == slot),
            PaletteColor::Secondary => assert(palette[3].slot == slot),
            PaletteColor::Tertiary => assert(palette[4].slot == slot),
            PaletteColor::TitlePrimary => assert(palette[5].slot == slot),
            PaletteColor::Highlight => assert(palette[6].slot == slot),
            PaletteColor::HighlightInactive => assert(palette[7].slot == slot),
            _ => {},
        }
    }
    Theme { borders: BorderStyle::Simple, palette }
}

} // verus!
