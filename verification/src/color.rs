//! Colors, as red, green, blue and alpha.

use vstd::prelude::*;
use vstd::std_specs::convert::FromSpecImpl;

verus! {

/// A color with an alpha channel; 255 is opaque.
#[derive(Debug, Clone, Copy, PartialEq, Eq, Structural)]
pub struct Color {
    pub r: u8,
    pub g: u8,
    pub b: u8,
    pub a: u8,
}

impl From<(u8, u8, u8, u8)> for Color {
    fn from(channels: (u8, u8, u8, u8)) -> (color: Color) {
        Color { r: channels.0, g: channels.1, b: channels.2, a: channels.3 }
    }
}

impl FromSpecImpl<(u8, u8, u8, u8)> for Color {
    open spec fn obeys_from_spec() -> bool {
        true
    }

    open spec fn from_spec(channels: (u8, u8, u8, u8)) -> Color {
        Color { r: channels.0, g: channels.1, b: channels.2, a: channels.3 }
    }
}

impl From<(u8, u8, u8)> for Color {
    fn from(channels: (u8, u8, u8)) -> (color: Color) {
        Color { r: channels.0, g: channels.1, b: channels.2, a: 255 }
    }
}

impl FromSpecImpl<(u8, u8, u8)> for Color {
    open spec fn obeys_from_spec() -> bool {
        true
    }

    open spec fn from_spec(channels: (u8, u8, u8)) -> Color {
        Color { r: channels.0, g: channels.1, b: channels.2, a: 255 }
    }
}

} // verus!
