//! Filter primitives.

use vstd::prelude::*;

pub mod lighting;

pub use lighting::{
    DiffuseLighting, DistantLight, LightSource, PointLight, SpecularLighting, SpotLight,
};

verus! {

/// Where a filter primitive takes its input from. The reference is resolved
/// against the primitives before it by the caller; a primitive only stores it.
#[derive(Clone, Debug, PartialEq, Eq, Hash)]
pub enum Input {
    SourceGraphic,
    SourceAlpha,
    BackgroundImage,
    BackgroundAlpha,
    FillPaint,
    StrokePaint,
    /// The result of an earlier primitive, by its name.
    Reference(String),
}

/// A lighting filter primitive.
#[derive(Clone, Debug, PartialEq, Eq, Hash)]
pub enum Kind {
    DiffuseLighting(DiffuseLighting),
    SpecularLighting(SpecularLighting),
}

} // verus!
