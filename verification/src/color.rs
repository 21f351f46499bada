//! The colour in which a body is shown.

use vstd::prelude::*;

verus! {

/// A red, green and blue triple, each channel from 0 (dark) to 255 (full).
#[derive(Debug, Clone, Copy, PartialEq, Eq, Structural)]
pub struct Color(pub u8, pub u8, pub u8);

/// Where a body gets its colour from.
#[derive(Debug, Clone, Copy, PartialEq, Eq, Structural)]
pub enum ObjectColor {
    /// A colour that the user chose; it stays whatever happens to the body.
    UserSet(Color),
    /// The colour that `mass_to_color` gives for the body's current mass.
    FromMass,
}

impl ObjectColor {
    /// The colour in which a body of mass `mass` is shown: the user's
    /// choice if there is one, else the colour of the mass.
    pub open spec fn spec_color_for(self, mass: usize) -> Color {
        match self {
            ObjectColor::UserSet(color) => color,
            ObjectColor::FromMass => spec_mass_to_color(mass),
        }
    }

    #[verifier::when_used_as_spec(spec_color_for)]
    pub fn color_for(self, mass: usize) -> (color: Color)
        ensures
            color == self.spec_color_for(mass),
    {
        match self {
            ObjectColor::UserSet(color) => color,
            ObjectColor::FromMass => mass_to_color(mass),
        }
    }
}

impl From<Color> for ObjectColor {
    /// A colour on its own stands for the user's choice of it.
    fn from(color: Color) -> (object_color: ObjectColor) {
        ObjectColor::UserSet(color)
    }
}

impl vstd::std_specs::convert::FromSpecImpl<Color> for ObjectColor {
    open spec fn obeys_from_spec() -> bool {
        true
    }

    open spec fn from_spec(color: Color) -> ObjectColor {
        ObjectColor::UserSet(color)
    }
}

/// Masses are taken modulo this number before a colour is chosen, so that
/// every mass has a colour.
pub const COLOR_MOD: usize = 300_000_000;

/// The width of one of the six bands into which the reduced mass falls.
pub const COLOR_SEGMENT: usize = 50_000_000;

/// The weakest channel value that the mass colours use.
pub const CHANNEL_LOW: usize = 51;

/// The strongest channel value.
pub const CHANNEL_HIGH: usize = 255;

/// The colour of the band with number `band`, counted from zero: red,
/// yellow, green, cyan, blue, magenta.
pub open spec fn band_color(band: int) -> Color {
    if band == 0 {
        Color(255, 51, 51)
    } else if band == 1 {
        Color(255, 255, 51)
    } else if band == 2 {
        Color(51, 255, 51)
    } else if band == 3 {
        Color(51, 255, 255)
    } else if band == 4 {
        Color(51, 51, 255)
    } else {
        Color(255, 51, 255)
    }
}

/// The colour of a body of mass `mass`: the colour of the band that
/// `mass % COLOR_MOD` lies in.
pub open spec fn spec_mass_to_color(mass: usize) -> Color {
    band_color((mass % COLOR_MOD) as int / COLOR_SEGMENT as int)
}

/// The colour of a body of mass `mass`, the mass given as a whole number
/// (the fraction cut off, anything below zero counted as zero).
#[verifier::when_used_as_spec(spec_mass_to_color)]
pub fn mass_to_color(mass: usize) -> (color: Color)
    ensures
        color == spec_mass_to_color(mass),
{
    let mmass: usize = mass % COLOR_MOD;
    let span: usize = CHANNEL_HIGH - CHANNEL_LOW;
    let r: usize;
    let g: usize;
    let b: usize;
    if mmass < COLOR_SEGMENT {
        r = CHANNEL_HIGH;
        g = CHANNEL_LOW + span * (mmass / COLOR_SEGMENT);
        b = CHANNEL_LOW;
    } else if mmass < 2 * COLOR_SEGMENT {
        r = CHANNEL_HIGH - span * ((mmass - COLOR_SEGMENT) / COLOR_SEGMENT);
        g = CHANNEL_HIGH;
        b = CHANNEL_LOW;
    } else if mmass < 3 * COLOR_SEGMENT {
        r = CHANNEL_LOW;
        g = CHANNEL_HIGH;
        b = CHANNEL_LOW + span * ((mmass - COLOR_SEGMENT * 2) / COLOR_SEGMENT);
    } else if mmass < 4 * COLOR_SEGMENT {
        r = CHANNEL_LOW;
        g = CHANNEL_HIGH - span * ((mmass - COLOR_SEGMENT * 3) / COLOR_SEGMENT);
        b = CHANNEL_HIGH;
    } else if mmass < 5 * COLOR_SEGMENT {
        r = CHANNEL_LOW + span * ((mmass - COLOR_SEGMENT * 4) / COLOR_SEGMENT);
        g = CHANNEL_LOW;
        b = CHANNEL_HIGH;
    } else {
        r = CHANNEL_HIGH;
        g = CHANNEL_LOW;
        b = CHANNEL_HIGH - span * ((mmass - COLOR_SEGMENT * 5) / COLOR_SEGMENT);
    }
    Color(r as u8, g as u8, b as u8)
}

} // verus!
