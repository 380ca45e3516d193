//! Lighting filter primitives and their light sources.

use super::{Input, Kind};
use crate::color::{Color, Rgba};
use crate::error::ConversionError;
use crate::geom::ScreenRect;
use crate::scalar::{bound, lemma_one_is_one, PositiveScalar, Scalar};
use vstd::arithmetic::power2::{lemma2_to64, lemma2_to64_rest, lemma_pow2_adds};
use vstd::prelude::*;

verus! {

/// A diffuse lighting filter primitive.
#[derive(Clone, Debug, PartialEq, Eq, Hash)]
pub struct DiffuseLighting {
    /// Identifies input for the given filter primitive.
    pub input: Input,
    /// A surface scale.
    pub surface_scale: Scalar,
    /// A diffuse constant.
    pub diffuse_constant: Scalar,
    /// A lighting color.
    pub lighting_color: Color,
    /// A light source.
    pub light_source: LightSource,
}

/// A specular lighting filter primitive.
#[derive(Clone, Debug, PartialEq, Eq, Hash)]
pub struct SpecularLighting {
    /// Identifies input for the given filter primitive.
    pub input: Input,
    /// A surface scale.
    pub surface_scale: Scalar,
    /// A specular constant.
    pub specular_constant: Scalar,
    /// A specular exponent, within 1 to 128.
    pub specular_exponent: Scalar,
    /// A lighting color.
    pub lighting_color: Color,
    /// A light source.
    pub light_source: LightSource,
}

/// A light source kind.
#[derive(Clone, Copy, Debug, PartialEq, Eq, Hash)]
pub enum LightSource {
    DistantLight(DistantLight),
    PointLight(PointLight),
    SpotLight(SpotLight),
}

/// A distant light source.
#[derive(Clone, Copy, Debug, PartialEq, Eq, Hash)]
pub struct DistantLight {
    /// Direction angle for the light source on the XY plane (clockwise), in
    /// degrees from the x axis.
    pub azimuth: Scalar,
    /// Direction angle for the light source from the XY plane towards the
    /// z axis, in degrees.
    pub elevation: Scalar,
}

/// A point light source.
#[derive(Clone, Copy, Debug, PartialEq, Eq, Hash)]
pub struct PointLight {
    pub x: Scalar,
    pub y: Scalar,
    pub z: Scalar,
}

/// A spot light source.
#[derive(Clone, Copy, Debug, PartialEq, Eq, Hash)]
pub struct SpotLight {
    pub x: Scalar,
    pub y: Scalar,
    pub z: Scalar,
    /// The point at which the light source is pointing.
    pub points_at_x: Scalar,
    pub points_at_y: Scalar,
    pub points_at_z: Scalar,
    /// Exponent value controlling the focus for the light source.
    pub specular_exponent: PositiveScalar,
    /// A limiting cone which restricts the region where the light is
    /// projected. Without one the light is not restricted.
    pub limiting_cone_angle: Option<Scalar>,
}

/// A point in the space of a light source.
#[derive(Clone, Copy, Debug, PartialEq, Eq, Hash, Structural)]
pub struct Point3 {
    pub x: Scalar,
    pub y: Scalar,
    pub z: Scalar,
}

/// A point of a light source that moves with the coordinate system, and the
/// origin that its new place is measured from. Under a transform the point
/// goes to the transformed `x` less `origin_x`, the transformed `y` less
/// `origin_y`, and `z` scaled as the transform scales lengths.
#[derive(Clone, Copy, Debug, PartialEq, Eq, Hash, Structural)]
pub struct Anchor {
    pub x: Scalar,
    pub y: Scalar,
    pub z: Scalar,
    pub origin_x: i32,
    pub origin_y: i32,
}

impl LightSource {
    /// The position of the light as an anchor in `region`, for a light that
    /// has a position. A point light is measured from the corner of the
    /// region. A spot light is measured from the x of that corner on both
    /// axes.
    pub open spec fn spec_position_anchor(&self, region: ScreenRect) -> Option<Anchor> {
        match *self {
            LightSource::DistantLight(_) => None,
            LightSource::PointLight(light) => Some(
                Anchor {
                    x: light.x,
                    y: light.y,
                    z: light.z,
                    origin_x: region.spec_x(),
                    origin_y: region.spec_y(),
                },
            ),
            LightSource::SpotLight(light) => Some(
                Anchor {
                    x: light.x,
                    y: light.y,
                    z: light.z,
                    origin_x: region.spec_x(),
                    origin_y: region.spec_x(),
                },
            ),
        }
    }

    /// The point that the light points at as an anchor in `region`, for a
    /// spot light. It is measured from the x of the corner of the region on
    /// both axes.
    pub open spec fn spec_points_at_anchor(&self, region: ScreenRect) -> Option<Anchor> {
        match *self {
            LightSource::SpotLight(light) => Some(
                Anchor {
                    x: light.points_at_x,
                    y: light.points_at_y,
                    z: light.points_at_z,
                    origin_x: region.spec_x(),
                    origin_y: region.spec_x(),
                },
            ),
            _ => None,
        }
    }

    /// The light with its position at `position` and the point it points at
    /// at `points_at`. A distant light has neither and stays as it is, a
    /// point light has no point to point at, and a point that is not given
    /// stays where it was. Nothing else of the light changes.
    pub open spec fn spec_transform(
        self,
        position: Option<Point3>,
        points_at: Option<Point3>,
    ) -> LightSource {
        match self {
            LightSource::DistantLight(_) => self,
            LightSource::PointLight(light) => {
                let position = position.unwrap_or(Point3 { x: light.x, y: light.y, z: light.z });
                LightSource::PointLight(PointLight { x: position.x, y: position.y, z: position.z })
            },
            LightSource::SpotLight(light) => {
                let position = position.unwrap_or(Point3 { x: light.x, y: light.y, z: light.z });
                let points_at = points_at.unwrap_or(
                    Point3 { x: light.points_at_x, y: light.points_at_y, z: light.points_at_z },
                );
                LightSource::SpotLight(
                    SpotLight {
                        x: position.x,
                        y: position.y,
                        z: position.z,
                        points_at_x: points_at.x,
                        points_at_y: points_at.y,
                        points_at_z: points_at.z,
                        specular_exponent: light.specular_exponent,
                        limiting_cone_angle: light.limiting_cone_angle,
                    },
                )
            },
        }
    }

    /// The position of the light, to be moved into `region`.
    #[verifier::when_used_as_spec(spec_position_anchor)]
    pub fn position_anchor(&self, region: ScreenRect) -> (r: Option<Anchor>)
        ensures
            r == self.spec_position_anchor(region),
    {
        match *self {
            LightSource::DistantLight(_) => None,
            LightSource::PointLight(light) => Some(
                Anchor {
                    x: light.x,
                    y: light.y,
                    z: light.z,
                    origin_x: region.x(),
                    origin_y: region.y(),
                },
            ),
            LightSource::SpotLight(light) => Some(
                Anchor {
                    x: light.x,
                    y: light.y,
                    z: light.z,
                    origin_x: region.x(),
                    origin_y: region.x(),
                },
            ),
        }
    }

    /// The point that the light points at, to be moved into `region`.
    #[verifier::when_used_as_spec(spec_points_at_anchor)]
    pub fn points_at_anchor(&self, region: ScreenRect) -> (r: Option<Anchor>)
        ensures
            r == self.spec_points_at_anchor(region),
    {
        match *self {
            LightSource::SpotLight(light) => Some(
                Anchor {
                    x: light.points_at_x,
                    y: light.points_at_y,
                    z: light.points_at_z,
                    origin_x: region.x(),
                    origin_y: region.x(),
                },
            ),
            _ => None,
        }
    }

    /// Applies a transform to the light source, given where the transform
    /// takes its anchors. The light that is given stays as it is: the result is
    /// a new one.
    #[verifier::when_used_as_spec(spec_transform)]
    pub fn transform(self, position: Option<Point3>, points_at: Option<Point3>) -> (r: LightSource)
        ensures
            r == self.spec_transform(position, points_at),
    {
        match self {
            LightSource::DistantLight(..) => self,
            LightSource::PointLight(light) => {
                let position = position.unwrap_or(Point3 { x: light.x, y: light.y, z: light.z });
                LightSource::PointLight(PointLight { x: position.x, y: position.y, z: position.z })
            },
            LightSource::SpotLight(light) => {
                let position = position.unwrap_or(Point3 { x: light.x, y: light.y, z: light.z });
                let points_at = points_at.unwrap_or(
                    Point3 { x: light.points_at_x, y: light.points_at_y, z: light.points_at_z },
                );
                LightSource::SpotLight(
                    SpotLight {
                        x: position.x,
                        y: position.y,
                        z: position.z,
                        points_at_x: points_at.x,
                        points_at_y: points_at.y,
                        points_at_z: points_at.z,
                        specular_exponent: light.specular_exponent,
                        limiting_cone_angle: light.limiting_cone_angle,
                    },
                )
            },
        }
    }
}

/// What an element among the children of a lighting primitive is.
#[derive(Clone, Copy, Debug, PartialEq, Eq, Structural)]
pub enum ElementKind {
    FeDistantLight,
    FePointLight,
    FeSpotLight,
    /// Anything that is no light source.
    Other,
}

/// A child of a lighting primitive, with the attributes that a light source
/// reads, each as the document states it.
#[derive(Clone, Copy, Debug)]
pub struct LightElement {
    pub kind: ElementKind,
    pub azimuth: Option<Scalar>,
    pub elevation: Option<Scalar>,
    pub x: Option<Scalar>,
    pub y: Option<Scalar>,
    pub z: Option<Scalar>,
    pub points_at_x: Option<Scalar>,
    pub points_at_y: Option<Scalar>,
    pub points_at_z: Option<Scalar>,
    pub specular_exponent: Option<Scalar>,
    pub limiting_cone_angle: Option<Scalar>,
}

impl LightElement {
    /// The element is a distant, a point or a spot light.
    pub open spec fn is_light(self) -> bool {
        self.kind != ElementKind::Other
    }

    /// The focus exponent that a spot light stores: the stated one where it is
    /// finite and not below zero, else one.
    pub open spec fn spot_exponent(self) -> Scalar {
        let stated = self.specular_exponent.unwrap_or(Scalar::spec_one());
        if PositiveScalar::accepts(stated) {
            stated
        } else {
            Scalar::spec_one()
        }
    }

    /// The light source that a light element describes. An attribute that is
    /// not stated is zero, but for the two that a spot light treats apart.
    pub open spec fn light_source(self) -> LightSource
        recommends
            self.is_light(),
    {
        let zero = Scalar::spec_zero();
        match self.kind {
            ElementKind::FeDistantLight => LightSource::DistantLight(
                DistantLight {
                    azimuth: self.azimuth.unwrap_or(zero),
                    elevation: self.elevation.unwrap_or(zero),
                },
            ),
            ElementKind::FePointLight => LightSource::PointLight(
                PointLight {
                    x: self.x.unwrap_or(zero),
                    y: self.y.unwrap_or(zero),
                    z: self.z.unwrap_or(zero),
                },
            ),
            _ => LightSource::SpotLight(
                SpotLight {
                    x: self.x.unwrap_or(zero),
                    y: self.y.unwrap_or(zero),
                    z: self.z.unwrap_or(zero),
                    points_at_x: self.points_at_x.unwrap_or(zero),
                    points_at_y: self.points_at_y.unwrap_or(zero),
                    points_at_z: self.points_at_z.unwrap_or(zero),
                    specular_exponent: PositiveScalar::holding(self.spot_exponent()),
                    limiting_cone_angle: self.limiting_cone_angle,
                },
            ),
        }
    }
}

/// What the attribute `lighting-color` holds.
#[derive(Clone, Copy, Debug, PartialEq, Eq, Structural)]
pub enum AttributeValue {
    /// The keyword by which the color is that of the property `color`.
    CurrentColor,
    /// A color.
    Color(Rgba),
    /// Anything else.
    Other,
}

/// A lighting primitive element of a document, with the attributes that the
/// conversion reads, each as the document states it, and its children.
#[derive(Clone, Debug)]
pub struct LightingElement {
    pub surface_scale: Option<Scalar>,
    pub diffuse_constant: Option<Scalar>,
    pub specular_constant: Option<Scalar>,
    pub specular_exponent: Option<Scalar>,
    pub lighting_color: Option<AttributeValue>,
    /// The property `color` as the element has it, by itself or from the
    /// nearest ancestor that states it.
    pub color: Option<Rgba>,
    pub children: Vec<LightElement>,
}

/// `i` is the place of the first light among `children`.
pub open spec fn is_first_light(children: Seq<LightElement>, i: int) -> bool {
    &&& 0 <= i < children.len()
    &&& children[i].is_light()
    &&& forall|j: int| 0 <= j < i ==> !(#[trigger] children[j]).is_light()
}

/// The light source of a lighting primitive with these children: that of the
/// first child that is a light, and none where no child is one.
pub open spec fn spec_convert_light_source(children: Seq<LightElement>) -> Option<LightSource> {
    if exists|i: int| is_first_light(children, i) {
        Some(children[choose|i: int| is_first_light(children, i)].light_source())
    } else {
        None
    }
}

/// Finds the light source of a lighting primitive among its children.
pub fn convert_light_source(parent: &LightingElement) -> (r: Option<LightSource>)
    ensures
        r == spec_convert_light_source(parent.children@),
{
    let children = &parent.children;
    let mut i: usize = 0;
    while i < children.len()
        invariant
            children@ == parent.children@,
            i <= children.len(),
            forall|j: int| 0 <= j < i ==> !(#[trigger] children@[j]).is_light(),
        decreases children.len() - i,
    {
        let child = &children[i];
        let found: Option<LightSource> = match child.kind {
            ElementKind::FeDistantLight => Some(
                LightSource::DistantLight(
                    DistantLight {
                        azimuth: child.azimuth.unwrap_or(Scalar::zero()),
                        elevation: child.elevation.unwrap_or(Scalar::zero()),
                    },
                ),
            ),
            ElementKind::FePointLight => Some(
                LightSource::PointLight(
                    PointLight {
                        x: child.x.unwrap_or(Scalar::zero()),
                        y: child.y.unwrap_or(Scalar::zero()),
                        z: child.z.unwrap_or(Scalar::zero()),
                    },
                ),
            ),
            ElementKind::FeSpotLight => {
                let specular_exponent = child.specular_exponent.unwrap_or(Scalar::one());
                let specular_exponent = match PositiveScalar::new(specular_exponent) {
                    Some(exponent) => exponent,
                    None => PositiveScalar::one(),
                };
                Some(
                    LightSource::SpotLight(
                        SpotLight {
                            x: child.x.unwrap_or(Scalar::zero()),
                            y: child.y.unwrap_or(Scalar::zero()),
                            z: child.z.unwrap_or(Scalar::zero()),
                            points_at_x: child.points_at_x.unwrap_or(Scalar::zero()),
                            points_at_y: child.points_at_y.unwrap_or(Scalar::zero()),
                            points_at_z: child.points_at_z.unwrap_or(Scalar::zero()),
                            specular_exponent,
                            limiting_cone_angle: child.limiting_cone_angle,
                        },
                    ),
                )
            },
            ElementKind::Other => None,
        };
        if found.is_some() {
            proof {
                assert(is_first_light(children@, i as int));
                let k = choose|k: int| is_first_light(children@, k);
                assert(k == i);
            }
            return found;
        }
        i += 1;
    }
    proof {
        assert forall|k: int| !is_first_light(children@, k) by {}
    }
    None
}

/// The lighting color of a primitive. The keyword `currentColor` stands for
/// the property `color`, black where there is none; a color stands for
/// itself; without the attribute, or with anything else in it, the color is
/// white. An alpha channel has no part in lighting and is dropped.
pub open spec fn spec_lighting_color(node: &LightingElement) -> Color {
    match node.lighting_color {
        Some(AttributeValue::CurrentColor) => node.color.unwrap_or(Rgba::spec_black()).opaque(),
        Some(AttributeValue::Color(c)) => c.opaque(),
        _ => Color::spec_white(),
    }
}

/// Resolves the lighting color of a primitive.
pub fn convert_lighting_color(node: &LightingElement) -> (r: Color)
    ensures
        r == spec_lighting_color(node),
{
    match node.lighting_color {
        Some(AttributeValue::CurrentColor) => {
            let color = match node.color {
                Some(color) => color,
                None => Rgba::black(),
            };
            color.split_alpha().0
        },
        Some(AttributeValue::Color(c)) => c.split_alpha().0,
        _ => Color::white(),
    }
}

impl DiffuseLighting {
    /// The diffuse lighting primitive that an element converts to, or why it
    /// converts to none. A scale or a constant that is not stated is one.
    pub open spec fn spec_from_element(fe: &LightingElement, input: Input) -> Result<
        DiffuseLighting,
        ConversionError,
    > {
        match spec_convert_light_source(fe.children@) {
            None => Err(ConversionError::MissingRequiredAttribute),
            Some(light_source) => Ok(
                DiffuseLighting {
                    input,
                    surface_scale: fe.surface_scale.unwrap_or(Scalar::spec_one()),
                    diffuse_constant: fe.diffuse_constant.unwrap_or(Scalar::spec_one()),
                    lighting_color: spec_lighting_color(fe),
                    light_source,
                },
            ),
        }
    }

    /// Converts a diffuse lighting element, whose input the caller has
    /// resolved.
    pub fn from_element(fe: &LightingElement, input: Input) -> (r: Result<
        DiffuseLighting,
        ConversionError,
    >)
        ensures
            r == Self::spec_from_element(fe, input),
    {
        let light_source = match convert_light_source(fe) {
            Some(light_source) => light_source,
            None => {
                return Err(ConversionError::MissingRequiredAttribute);
            },
        };
        Ok(
            DiffuseLighting {
                input,
                surface_scale: fe.surface_scale.unwrap_or(Scalar::one()),
                diffuse_constant: fe.diffuse_constant.unwrap_or(Scalar::one()),
                lighting_color: convert_lighting_color(fe),
                light_source,
            },
        )
    }
}

/// Converts a diffuse lighting element. Without a light source among its
/// children the whole primitive is dropped.
pub fn convert_diffuse(fe: &LightingElement, input: Input) -> (r: Option<Kind>)
    ensures
        r == match DiffuseLighting::spec_from_element(fe, input) {
            Ok(primitive) => Some(Kind::DiffuseLighting(primitive)),
            Err(_) => None,
        },
{
    match DiffuseLighting::from_element(fe, input) {
        Ok(primitive) => Some(Kind::DiffuseLighting(primitive)),
        Err(_) => None,
    }
}

/// The bits of the number 128, the largest specular exponent of a primitive.
pub const MAX_SPECULAR_EXPONENT_BITS: u64 = 0x4060_0000_0000_0000;

impl SpecularLighting {
    /// The smallest specular exponent of a primitive: one.
    pub open spec fn min_exponent() -> Scalar {
        Scalar::spec_one()
    }

    /// The largest specular exponent of a primitive: 128.
    pub open spec fn max_exponent() -> Scalar {
        Scalar { bits: MAX_SPECULAR_EXPONENT_BITS }
    }

    /// The specular exponent is within 1 to 128.
    pub open spec fn wf(&self) -> bool {
        self.specular_exponent.is_within(1, 128)
    }

    /// The specular lighting primitive that an element converts to, or why it
    /// converts to none. A scale, a constant or an exponent that is not
    /// stated is one. An exponent that is not within 1 to 128 is not brought
    /// into that range: the primitive is dropped.
    pub open spec fn spec_from_element(fe: &LightingElement, input: Input) -> Result<
        SpecularLighting,
        ConversionError,
    > {
        let specular_exponent = fe.specular_exponent.unwrap_or(Scalar::spec_one());
        match spec_convert_light_source(fe.children@) {
            None => Err(ConversionError::MissingRequiredAttribute),
            Some(light_source) => if !specular_exponent.is_within(1, 128) {
                Err(ConversionError::OutOfRangeValue)
            } else {
                Ok(
                    SpecularLighting {
                        input,
                        surface_scale: fe.surface_scale.unwrap_or(Scalar::spec_one()),
                        specular_constant: fe.specular_constant.unwrap_or(Scalar::spec_one()),
                        specular_exponent,
                        lighting_color: spec_lighting_color(fe),
                        light_source,
                    },
                )
            },
        }
    }

    /// Converts a specular lighting element, whose input the caller has
    /// resolved.
    pub fn from_element(fe: &LightingElement, input: Input) -> (r: Result<
        SpecularLighting,
        ConversionError,
    >)
        ensures
            r == Self::spec_from_element(fe, input),
            r matches Ok(primitive) ==> primitive.wf(),
    {
        let light_source = match convert_light_source(fe) {
            Some(light_source) => light_source,
            None => {
                return Err(ConversionError::MissingRequiredAttribute);
            },
        };
        let min = Scalar::one();
        let max = Scalar::from_bits(MAX_SPECULAR_EXPONENT_BITS);
        proof {
            lemma_exponent_range();
        }
        let specular_exponent = fe.specular_exponent.unwrap_or(Scalar::one());
        if !(min.le(specular_exponent) && specular_exponent.le(max)) {
            // When exponent is out of range, the whole filter primitive should be ignored.
            return Err(ConversionError::OutOfRangeValue);
        }
        let specular_exponent = bound(min, specular_exponent, max);
        Ok(
            SpecularLighting {
                input,
                surface_scale: fe.surface_scale.unwrap_or(Scalar::one()),
                specular_constant: fe.specular_constant.unwrap_or(Scalar::one()),
                specular_exponent,
                lighting_color: convert_lighting_color(fe),
                light_source,
            },
        )
    }
}

/// The bounds of the specular exponent are the numbers 1 and 128, so a number
/// lies between the two as binary64 numbers compare exactly when it is within
/// 1 to 128.
pub proof fn lemma_exponent_range()
    ensures
        SpecularLighting::min_exponent().denotes(1),
        SpecularLighting::max_exponent().denotes(128),
        forall|n: Scalar|
            (SpecularLighting::min_exponent().spec_le(n) && n.spec_le(
                SpecularLighting::max_exponent(),
            )) <==> #[trigger] n.is_within(1, 128),
{
    lemma_one_is_one();
    lemma2_to64_rest();
    lemma_pow2_adds(52, 1029);
    lemma_pow2_adds(7, 1074);
    lemma2_to64();
}

/// Converts a specular lighting element. Without a light source among its
/// children, or with a specular exponent that is not within 1 to 128, the
/// whole primitive is dropped.
pub fn convert_specular(fe: &LightingElement, input: Input) -> (r: Option<Kind>)
    ensures
        r == match SpecularLighting::spec_from_element(fe, input) {
            Ok(primitive) => Some(Kind::SpecularLighting(primitive)),
            Err(_) => None,
        },
        r matches Some(Kind::SpecularLighting(primitive)) ==> primitive.wf(),
{
    match SpecularLighting::from_element(fe, input) {
        Ok(primitive) => Some(Kind::SpecularLighting(primitive)),
        Err(_) => None,
    }
}

/// A lighting element without a distant, point or spot light among its
/// children converts to no primitive, neither diffuse nor specular, whatever
/// else it states.
pub proof fn lemma_no_light_no_primitive(
    fe: &LightingElement,
    diffuse_input: Input,
    specular_input: Input,
)
    requires
        forall|i: int| 0 <= i < fe.children@.len() ==> !(#[trigger] fe.children@[i]).is_light(),
    ensures
        spec_convert_light_source(fe.children@).is_none(),
        DiffuseLighting::spec_from_element(fe, diffuse_input) == Err::<DiffuseLighting, _>(
            ConversionError::MissingRequiredAttribute,
        ),
        SpecularLighting::spec_from_element(fe, specular_input) == Err::<SpecularLighting, _>(
            ConversionError::MissingRequiredAttribute,
        ),
{
    assert forall|i: int| !is_first_light(fe.children@, i) by {}
}

/// Where the first light among the children is a spot light, it is the
/// light source. Without a stated focus exponent it stores one, and without
/// a stated limiting cone angle it records no restriction.
pub proof fn lemma_spot_light_defaults(children: Seq<LightElement>, i: int)
    requires
        is_first_light(children, i),
        children[i].kind == ElementKind::FeSpotLight,
    ensures
        spec_convert_light_source(children) matches Some(LightSource::SpotLight(light)) && {
            &&& children[i].specular_exponent.is_none() ==> light.specular_exponent@
                == Scalar::spec_one()
            &&& children[i].limiting_cone_angle.is_none() ==> light.limiting_cone_angle.is_none()
        },
{
    let k = choose|k: int| is_first_light(children, k);
    assert(k == i);
    PositiveScalar::lemma_holding(
        children[i].spot_exponent(),
        PositiveScalar::holding(Scalar::spec_one()),
    );
}

/// A distant light has no anchor in any region, and stays as it is wherever
/// a transform is said to take the anchors of a light.
pub proof fn lemma_distant_light_is_fixed(
    light: LightSource,
    region: ScreenRect,
    position: Option<Point3>,
    points_at: Option<Point3>,
)
    requires
        light is DistantLight,
    ensures
        light.spec_position_anchor(region).is_none(),
        light.spec_points_at_anchor(region).is_none(),
        light.spec_transform(position, points_at) == light,
{
}

} // verus!
