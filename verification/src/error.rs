//! Why an element or a primitive is left out of the converted tree.

use vstd::prelude::*;

verus! {

/// Why an element or a primitive was not converted. Each failure is local: the
/// element is left out and the conversion of the rest goes on.
#[derive(Clone, Copy, Debug, PartialEq, Eq, Structural)]
pub enum ConversionError {
    /// An image has no reference, or a lighting primitive has no light source
    /// among its children.
    MissingRequiredAttribute,
    /// The specular exponent of a lighting primitive is not within 1 to 128.
    OutOfRangeValue,
    /// The width or the height of an image is not a finite number above zero.
    InvalidGeometry,
    /// A pixel buffer does not hold four bytes for each pixel.
    InvalidBufferLength,
    /// No pixel data is cached under the reference of an image.
    MissingImageData,
}

} // verus!
