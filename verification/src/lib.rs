//! Conversion of raster images and lighting filter primitives of a vector
//! graphics document into a render-ready form.
//!
//! Numbers are binary64 values held by their bit patterns ([`Scalar`]), so that
//! every rule on them is a statement about integers. The library compares such
//! numbers and tells their classes apart, but does no arithmetic on them: where
//! a light source moves under a transform, it says which points move and from
//! which origin each is measured, and takes the moved points from its caller.

pub mod color;
pub mod error;
pub mod filter;
pub mod geom;
pub mod image;
pub mod scalar;

pub use color::{Color, Rgba};
pub use error::ConversionError;
pub use geom::{Align, AspectRatio, Rect, ScreenRect, Transform, ViewBox};
pub use image::{
    Image, ImageCache, ImageElement, ImageRendering, Options, PreloadedImageData, Visibility,
};
pub use scalar::{PositiveScalar, Scalar};
