//! HSL colors for the drawable entities.
//!
//! Saturation and lightness are held in centiunits (100 is full saturation),
//! so a color is a plain integer value. Converting to an RGB quadruple for a
//! rendering surface is the renderer's business.

use vstd::prelude::*;

verus! {

/// The palette the game picks from.
#[derive(Clone, Copy, Debug)]
pub enum DefinedColors {
    RED,
    CYAN,
}

/// A color as hue (degrees, 0 to 360) with saturation and lightness in
/// centiunits.
#[derive(Clone, Copy, Debug)]
pub struct Color {
    pub hue: i16,
    pub saturation: i64,
    pub lightness: i64,
}

impl Color {
    /// Fully saturated, fully light color at the named palette entry's hue.
    pub fn new(color: DefinedColors) -> (c: Color)
        ensures
            c.hue == (match color {
                DefinedColors::RED => 180i16,
                DefinedColors::CYAN => 0i16,
            }),
            c.saturation == 100,
            c.lightness == 100,
    {
        Color {
            hue: match color {
                DefinedColors::RED => 180,
                DefinedColors::CYAN => 0,
            },
            saturation: 100,
            lightness: 100,
        }
    }
}

} // verus!
