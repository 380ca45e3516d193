//! Colors, with and without an alpha channel.

use vstd::prelude::*;

verus! {

/// An opaque RGB color.
#[derive(Clone, Copy, Debug, PartialEq, Eq, Hash, Structural)]
pub struct Color {
    pub red: u8,
    pub green: u8,
    pub blue: u8,
}

impl Color {
    pub open spec fn spec_black() -> Color {
        Color { red: 0, green: 0, blue: 0 }
    }

    pub open spec fn spec_white() -> Color {
        Color { red: 255, green: 255, blue: 255 }
    }

    pub fn new_rgb(red: u8, green: u8, blue: u8) -> (r: Color)
        ensures
            r == (Color { red, green, blue }),
    {
        Color { red, green, blue }
    }

    #[verifier::when_used_as_spec(spec_black)]
    pub fn black() -> (r: Color)
        ensures
            r == Self::spec_black(),
    {
        Color { red: 0, green: 0, blue: 0 }
    }

    #[verifier::when_used_as_spec(spec_white)]
    pub fn white() -> (r: Color)
        ensures
            r == Self::spec_white(),
    {
        Color { red: 255, green: 255, blue: 255 }
    }
}

/// A color as a document states it: RGB and an alpha channel, 255 for opaque.
#[derive(Clone, Copy, Debug, PartialEq, Eq, Hash, Structural)]
pub struct Rgba {
    pub red: u8,
    pub green: u8,
    pub blue: u8,
    pub alpha: u8,
}

impl Rgba {
    /// The color without its alpha channel.
    pub open spec fn opaque(self) -> Color {
        Color { red: self.red, green: self.green, blue: self.blue }
    }

    /// Opaque black, the color that a document has where it states none.
    pub open spec fn spec_black() -> Rgba {
        Rgba { red: 0, green: 0, blue: 0, alpha: 255 }
    }

    /// Parts the color from its alpha channel.
    pub fn split_alpha(self) -> (r: (Color, u8))
        ensures
            r.0 == self.opaque(),
            r.1 == self.alpha,
    {
        (Color { red: self.red, green: self.green, blue: self.blue }, self.alpha)
    }

    /// Opaque black, from `svgrtypes::Color::black`, which builds it from the
    /// channels 0, 0, 0 with the alpha channel at 255.
    #[verifier::external_body]
    pub(crate) fn black() -> (r: Rgba)
        ensures
            r == Self::spec_black(),
    {
        let c = svgrtypes::Color::black();
        Rgba { red: c.red, green: c.green, blue: c.blue, alpha: c.alpha }
    }
}

} // verus!
