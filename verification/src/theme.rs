//! The retro look of the terminal client: deep blue ground, green text, amber and
//! cyan accents.
use vstd::prelude::*;

verus! {

/// A colour of the screen, by its red, green and blue parts.
#[derive(Clone, Copy, Debug, PartialEq, Eq, Structural)]
pub struct Rgb {
    pub red: u8,
    pub green: u8,
    pub blue: u8,
}

/// The parts of the screen that the palette colours.
#[derive(Clone, Copy, Debug, PartialEq, Eq, Structural)]
pub enum PaletteRole {
    Background,
    View,
    Primary,
    TitlePrimary,
    Secondary,
    Highlight,
    HighlightInactive,
    Shadow,
}

/// How the borders of views are drawn.
#[derive(Clone, Copy, Debug, PartialEq, Eq, Structural)]
pub enum Borders {
    NoBorders,
    Simple,
    Outset,
}

/// One colour of the palette.
#[derive(Clone, Copy, Debug, PartialEq, Eq, Structural)]
pub struct PaletteEntry {
    pub role: PaletteRole,
    pub color: Rgb,
}

/// A look for the screen: whether views cast shadows, the border style, and the
/// colours that replace those of the default palette.
#[derive(Clone, Debug)]
pub struct Look {
    pub shadow: bool,
    pub borders: Borders,
    pub palette: Vec<PaletteEntry>,
}

/// A palette entry.
pub open spec fn entry(role: PaletteRole, red: u8, green: u8, blue: u8) -> PaletteEntry {
    PaletteEntry { role, color: Rgb { red, green, blue } }
}

/// The colours of the retro look.
pub open spec fn retro_palette() -> Seq<PaletteEntry> {
    seq![
        entry(PaletteRole::Background, 0, 0, 20),
        entry(PaletteRole::View, 0, 0, 20),
        entry(PaletteRole::Primary, 0, 255, 0),
        entry(PaletteRole::TitlePrimary, 0, 255, 128),
        entry(PaletteRole::Secondary, 255, 191, 0),
        entry(PaletteRole::Highlight, 0, 255, 255),
        entry(PaletteRole::HighlightInactive, 0, 128, 128),
        entry(PaletteRole::Shadow, 0, 0, 40),
    ]
}

/// The retro look: shadows on, simple borders, and the retro palette.
pub fn create_retro_theme() -> (look: Look)
    ensures
        look.shadow,
        look.borders == Borders::Simple,
        look.palette@ == retro_palette(),
{
    let mut palette: Vec<PaletteEntry> = Vec::new();
    palette.push(PaletteEntry { role: PaletteRole::Background, color: Rgb { red: 0, green: 0, blue: 20 } });
    palette.push(PaletteEntry { role: PaletteRole::View, color: Rgb { red: 0, green: 0, blue: 20 } });
    palette.push(PaletteEntry { role: PaletteRole::Primary, color: Rgb { red: 0, green: 255, blue: 0 } });
    palette.push(
        PaletteEntry { role: PaletteRole::TitlePrimary, color: Rgb { red: 0, green: 255, blue: 128 } },
    );
    palette.push(
        PaletteEntry { role: PaletteRole::Secondary, color: Rgb { red: 255, green: 191, blue: 0 } },
    );
    palette.push(
        PaletteEntry { role: PaletteRole::Highlight, color: Rgb { red: 0, green: 255, blue: 255 } },
    );
    palette.push(
        PaletteEntry {
            role: PaletteRole::HighlightInactive,
            color: Rgb { red: 0, green: 128, blue: 128 },
        },
    );
    palette.push(PaletteEntry { role: PaletteRole::Shadow, color: Rgb { red: 0, green: 0, blue: 40 } });
    assert(palette@ =~= retro_palette());
    Look { shadow: true, borders: Borders::Simple, palette }
}

} // verus!
