//! The theme provider: a fixed named set of colors, loaded once at startup
//! and passed read-only into every rendering call.

use vstd::prelude::*;

verus! {

/// A color as red, green and blue channels.
#[derive(Clone, Copy, Debug, PartialEq, Eq, Structural)]
pub struct Rgb {
    pub r: u8,
    pub g: u8,
    pub b: u8,
}

/// The named colors every renderer draws from.  Immutable once loaded.
#[derive(Clone, Copy, Debug, PartialEq, Eq, Structural)]
pub struct Palette {
    pub rosewater: Rgb,
    pub flamingo: Rgb,
    pub mauve: Rgb,
    pub sky: Rgb,
    pub sapphire: Rgb,
    pub crust: Rgb,
    pub text: Rgb,
    pub blue: Rgb,
    pub pink: Rgb,
    pub base: Rgb,
    pub surface0: Rgb,
    pub yellow: Rgb,
}

/// Relies on catppuccin's PALETTE constant: the mocha flavor's colors, as
/// fixed RGB channel values.
#[verifier::external_body]
pub fn mocha_palette() -> (r: Palette)
    ensures
        r.rosewater == (Rgb { r: 245, g: 224, b: 220 }),
        r.flamingo == (Rgb { r: 242, g: 205, b: 205 }),
        r.mauve == (Rgb { r: 203, g: 166, b: 247 }),
        r.sky == (Rgb { r: 137, g: 220, b: 235 }),
        r.sapphire == (Rgb { r: 116, g: 199, b: 236 }),
        r.crust == (Rgb { r: 17, g: 17, b: 27 }),
        r.text == (Rgb { r: 205, g: 214, b: 244 }),
        r.blue == (Rgb { r: 137, g: 180, b: 250 }),
        r.pink == (Rgb { r: 245, g: 194, b: 231 }),
        r.base == (Rgb { r: 30, g: 30, b: 46 }),
        r.surface0 == (Rgb { r: 49, g: 50, b: 68 }),
        r.yellow == (Rgb { r: 249, g: 226, b: 175 }),
{
    let m = catppuccin::PALETTE.mocha.colors;
    let c = |x: catppuccin::Color| Rgb { r: x.rgb.r, g: x.rgb.g, b: x.rgb.b };
    Palette {
        rosewater: c(m.rosewater), flamingo: c(m.flamingo), mauve: c(m.mauve),
        sky: c(m.sky), sapphire: c(m.sapphire), crust: c(m.crust),
        text: c(m.text), blue: c(m.blue), pink: c(m.pink),
        base: c(m.base), surface0: c(m.surface0), yellow: c(m.yellow),
    }
}

} // verus!
