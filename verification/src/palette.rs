use vstd::prelude::*;

verus! {

/// A colour by its red, green and blue parts.
#[derive(Clone, Copy, Debug, PartialEq, Eq, Structural)]
pub struct Rgb {
    pub r: u8,
    pub g: u8,
    pub b: u8,
}

/// The colours in which a host paints the screen: dark pixels, lit
/// pixels, and the bands above and below the picture.
#[derive(Clone, Copy, Debug, PartialEq, Eq, Structural)]
pub struct Palette {
    pub background: Rgb,
    pub foreground: Rgb,
    pub gutter: Rgb,
}

/// How many palettes there are.
pub const PALETTE_COUNT: usize = 5;

/// The colour whose parts are as far from 255 as those of `colour` are
/// from 0.
pub open spec fn complement(colour: Rgb) -> Rgb {
    Rgb { r: (255 - colour.r) as u8, g: (255 - colour.g) as u8, b: (255 - colour.b) as u8 }
}

/// The palette with the given background and foreground, and the
/// background's complement for the gutter.
pub open spec fn palette_of(background: Rgb, foreground: Rgb) -> Palette {
    Palette { background, foreground, gutter: complement(background) }
}

/// The palettes in their order: the default one, bitbee, neutral green,
/// mac paint and paper back.
pub open spec fn palettes() -> Seq<Palette> {
    seq![
        palette_of(Rgb { r: 34, g: 35, b: 35 }, Rgb { r: 240, g: 246, b: 240 }),
        palette_of(Rgb { r: 41, g: 43, b: 48 }, Rgb { r: 207, g: 171, b: 74 }),
        palette_of(Rgb { r: 0, g: 76, b: 61 }, Rgb { r: 255, g: 234, b: 249 }),
        palette_of(Rgb { r: 139, g: 200, b: 254 }, Rgb { r: 5, g: 27, b: 44 }),
        palette_of(Rgb { r: 184, g: 194, b: 185 }, Rgb { r: 56, g: 43, b: 38 }),
    ]
}

pub fn default_palette() -> (palette: Palette)
    ensures
        palette == palettes()[0],
{
    Palette {
        background: Rgb { r: 34, g: 35, b: 35 },
        foreground: Rgb { r: 240, g: 246, b: 240 },
        gutter: Rgb { r: 255 - 34, g: 255 - 35, b: 255 - 35 },
    }
}

pub fn bitbee() -> (palette: Palette)
    ensures
        palette == palettes()[1],
{
    Palette {
        background: Rgb { r: 41, g: 43, b: 48 },
        foreground: Rgb { r: 207, g: 171, b: 74 },
        gutter: Rgb { r: 255 - 41, g: 255 - 43, b: 255 - 48 },
    }
}

pub fn neutral_green() -> (palette: Palette)
    ensures
        palette == palettes()[2],
{
    Palette {
        background: Rgb { r: 0, g: 76, b: 61 },
        foreground: Rgb { r: 255, g: 234, b: 249 },
        gutter: Rgb { r: 255, g: 255 - 76, b: 255 - 61 },
    }
}

pub fn mac_paint() -> (palette: Palette)
    ensures
        palette == palettes()[3],
{
    Palette {
        background: Rgb { r: 139, g: 200, b: 254 },
        foreground: Rgb { r: 5, g: 27, b: 44 },
        gutter: Rgb { r: 255 - 139, g: 255 - 200, b: 255 - 254 },
    }
}

pub fn paper_back() -> (palette: Palette)
    ensures
        palette == palettes()[4],
{
    Palette {
        background: Rgb { r: 184, g: 194, b: 185 },
        foreground: Rgb { r: 56, g: 43, b: 38 },
        gutter: Rgb { r: 255 - 184, g: 255 - 194, b: 255 - 185 },
    }
}

/// Palette number `index`.
pub fn palette(index: usize) -> (palette: Palette)
    requires
        index < 5,
    ensures
        palette == palettes()[index as int],
{
    if index == 0 {
        default_palette()
    } else if index == 1 {
        bitbee()
    } else if index == 2 {
        neutral_green()
    } else if index == 3 {
        mac_paint()
    } else {
        paper_back()
    }
}

} // verus!
