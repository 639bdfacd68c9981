//! Colors as four fixed-point channels with a space tag.
//!
//! The scene light stores an RGBA color whose alpha channel is
//! overloaded as the light's intensity; the palette stores HSV entries.
//! Channels are micro-units, `1_000_000` being full brightness.

use vstd::prelude::*;
use crate::fixed::UNIT;

verus! {

/// The space the four channels are read in.
#[derive(Clone, Copy, PartialEq, Eq, Structural, Debug)]
pub enum ColorSpace {
    Rgba,
    Hsv,
}

/// A color: four channels in micro-units plus the space tag that says
/// how to read the first three (alpha rides along in either space).
#[derive(Clone, Copy, PartialEq, Eq, Structural, Debug)]
pub struct Color {
    pub space: ColorSpace,
    pub c0: i64,
    pub c1: i64,
    pub c2: i64,
    pub c3: i64,
}

impl Color {
    /// Full white in the given space, opaque.
    pub fn white(space: ColorSpace) -> (r: Color)
        ensures
            r == (Color { space, c0: UNIT, c1: UNIT, c2: UNIT, c3: UNIT }),
    {
        Color { space, c0: UNIT, c1: UNIT, c2: UNIT, c3: UNIT }
    }

    /// An HSV color with the given hue, saturation and value, opaque.
    pub fn from_hsv(h: i64, s: i64, v: i64) -> (r: Color)
        ensures
            r == (Color { space: ColorSpace::Hsv, c0: h, c1: s, c2: v, c3: UNIT }),
    {
        Color { space: ColorSpace::Hsv, c0: h, c1: s, c2: v, c3: UNIT }
    }

    /// The alpha channel.
    pub fn alpha(&self) -> (r: i64)
        ensures
            r == self.c3,
    {
        self.c3
    }

    /// The same color with the alpha channel replaced.
    pub fn with_alpha(self, a: i64) -> (r: Color)
        ensures
            r == (Color { c3: a, ..self }),
    {
        Color { c3: a, ..self }
    }
}

} // verus!
