//! Raster images: premultiplied pixel data and the conversion of image
//! elements.

use crate::error::ConversionError;
use crate::geom::{AspectRatio, Rect, RectView, Transform, ViewBox};
use crate::scalar::Scalar;
use std::sync::Arc;
use vstd::hash_map::StringHashMap;
use vstd::prelude::*;

verus! {

/// A color channel scaled by `alpha / 255` and rounded to the nearest whole
/// number, a half going up: the floor of `channel * alpha / 255 + 1/2`.
pub open spec fn spec_premultiply_channel(channel: u8, alpha: u8) -> u8 {
    ((2 * (channel * alpha) + 255) / 510) as u8
}

/// The premultiplied form of straight RGBA8 pixel data: of each four bytes the
/// first three are scaled by the fourth, the alpha, which stays.
pub open spec fn premultiplied(rgba: Seq<u8>) -> Seq<u8> {
    Seq::new(
        rgba.len(),
        |i: int|
            if i % 4 == 3 {
                rgba[i]
            } else {
                spec_premultiply_channel(rgba[i], rgba[i - i % 4 + 3])
            },
    )
}

/// Scales a color channel by `alpha / 255`, a half rounding up.
#[verifier::when_used_as_spec(spec_premultiply_channel)]
pub fn premultiply_channel(channel: u8, alpha: u8) -> (r: u8)
    ensures
        r == spec_premultiply_channel(channel, alpha),
        r <= channel,
        r <= alpha,
{
    proof {
        assert(channel * alpha <= 255 * channel && channel * alpha <= 255 * alpha)
            by (nonlinear_arith)
            requires
                0 <= channel <= 255,
                0 <= alpha <= 255,
        ;
    }
    let product: u32 = (channel as u32) * (alpha as u32);
    ((2 * product + 255) / 510) as u8
}

/// Premultiplies straight RGBA8 pixel data by its alpha channel.
pub fn premultiply(rgba: &[u8]) -> (r: Vec<u8>)
    requires
        rgba@.len() % 4 == 0,
    ensures
        r@ == premultiplied(rgba@),
{
    let mut data: Vec<u8> = Vec::with_capacity(rgba.len());
    let mut i: usize = 0;
    while i < rgba.len()
        invariant
            rgba@.len() % 4 == 0,
            i % 4 == 0,
            i <= rgba@.len(),
            data@ == premultiplied(rgba@).take(i as int),
        decreases rgba@.len() - i,
    {
        let a: u8 = rgba[i + 3];
        data.push(premultiply_channel(rgba[i], a));
        data.push(premultiply_channel(rgba[i + 1], a));
        data.push(premultiply_channel(rgba[i + 2], a));
        data.push(a);
        i += 4;
        assert(data@ =~= premultiplied(rgba@).take(i as int));
    }
    assert(data@ =~= premultiplied(rgba@));
    data
}

/// An opaque pixel is left as it is: with the alpha 255 each of its channels
/// keeps its value.
pub proof fn lemma_premultiply_opaque(rgba: Seq<u8>, pixel: int)
    requires
        rgba.len() % 4 == 0,
        0 <= pixel < rgba.len() / 4,
        rgba[4 * pixel + 3] == 255,
    ensures
        premultiplied(rgba).subrange(4 * pixel, 4 * pixel + 4) == rgba.subrange(
            4 * pixel,
            4 * pixel + 4,
        ),
{
    let out = premultiplied(rgba);
    assert forall|i: int| 4 * pixel <= i < 4 * pixel + 4 implies #[trigger] out[i] == rgba[i] by {
        assert(i - i % 4 + 3 == 4 * pixel + 3);
    }
    assert(premultiplied(rgba).subrange(4 * pixel, 4 * pixel + 4) =~= rgba.subrange(
        4 * pixel,
        4 * pixel + 4,
    ));
}

/// A transparent pixel becomes four zero bytes: with the alpha 0 nothing of
/// its color is left.
pub proof fn lemma_premultiply_transparent(rgba: Seq<u8>, pixel: int)
    requires
        rgba.len() % 4 == 0,
        0 <= pixel < rgba.len() / 4,
        rgba[4 * pixel + 3] == 0,
    ensures
        premultiplied(rgba).subrange(4 * pixel, 4 * pixel + 4) == seq![0u8, 0u8, 0u8, 0u8],
{
    let out = premultiplied(rgba);
    assert forall|i: int| 4 * pixel <= i < 4 * pixel + 4 implies #[trigger] out[i] == 0 by {
        assert(i - i % 4 + 3 == 4 * pixel + 3);
        assert(rgba[i] * 0 == 0) by (nonlinear_arith);
    }
    assert(premultiplied(rgba).subrange(4 * pixel, 4 * pixel + 4) =~= seq![0u8, 0u8, 0u8, 0u8]);
}

/// A premultiplied channel is the nearest whole number to the channel scaled
/// by `alpha / 255`, a half going up, and is never above the channel or the
/// alpha.
pub proof fn lemma_premultiply_channel_rounds(channel: u8, alpha: u8)
    ensures
        ({
            let p = spec_premultiply_channel(channel, alpha) as int;
            &&& 2 * (255 * p) <= 2 * (channel * alpha) + 255 < 2 * (255 * (p + 1))
            &&& p <= channel
            &&& p <= alpha
        }),
{
    assert(channel * alpha <= 255 * channel && channel * alpha <= 255 * alpha && 0 <= channel
        * alpha) by (nonlinear_arith)
        requires
            0 <= channel <= 255,
            0 <= alpha <= 255,
    ;
}

/// A decoded image, kept for the rendering to come: its size in pixels and its
/// pixels as premultiplied RGBA8.
#[derive(Debug)]
pub struct PreloadedImageData {
    /// The decoded image data, premultiplied: four bytes for each pixel, row
    /// by row.
    pub data: Vec<u8>,
    /// The width of image in pixels
    pub width: u32,
    /// The height of image in pixels
    pub height: u32,
}

impl PreloadedImageData {
    /// The data holds four bytes for each pixel.
    pub open spec fn wf(&self) -> bool {
        self.data@.len() == 4 * (self.width * self.height)
    }

    /// Creates a new `PreloadedImageData` from the given straight RGBA8 buffer
    /// and premultiplies it. The buffer has to hold four bytes for each pixel
    /// of the given size.
    pub fn new(width: u32, height: u32, rgba_data: Vec<u8>) -> (r: Arc<Self>)
        requires
            rgba_data@.len() == 4 * (width * height),
        ensures
            r.width == width,
            r.height == height,
            r.data@ == premultiplied(rgba_data@),
            r.wf(),
    {
        let data = premultiply(rgba_data.as_slice());
        Arc::new(PreloadedImageData { data, width, height })
    }

    /// Creates a new `PreloadedImageData` as `new` does, where the buffer has
    /// four bytes for each pixel, and refuses it where it has not.
    pub fn try_new(width: u32, height: u32, rgba_data: Vec<u8>) -> (r: Result<
        Arc<Self>,
        ConversionError,
    >)
        ensures
            match r {
                Ok(image) => {
                    &&& rgba_data@.len() == 4 * (width * height)
                    &&& image.width == width
                    &&& image.height == height
                    &&& image.data@ == premultiplied(rgba_data@)
                    &&& image.wf()
                },
                Err(e) => {
                    &&& rgba_data@.len() != 4 * (width * height)
                    &&& e == ConversionError::InvalidBufferLength
                },
            },
    {
        proof {
            assert(width * height <= 0xffff_ffff * 0xffff_ffff) by (nonlinear_arith)
                requires
                    0 <= width <= 0xffff_ffff,
                    0 <= height <= 0xffff_ffff,
            ;
        }
        let pixels: u64 = (width as u64) * (height as u64);
        let bytes: u128 = 4 * (pixels as u128);
        if rgba_data.len() as u128 == bytes {
            Ok(Self::new(width, height, rgba_data))
        } else {
            Err(ConversionError::InvalidBufferLength)
        }
    }
}

/// Whether an element is shown.
#[derive(Clone, Copy, Debug, PartialEq, Eq, Hash, Structural)]
pub enum Visibility {
    Visible,
    Hidden,
}

impl Default for Visibility {
    fn default() -> (r: Visibility)
        ensures
            r == Visibility::Visible,
    {
        Visibility::Visible
    }
}

/// How an image is scaled: for quality or for speed.
#[derive(Clone, Copy, Debug, PartialEq, Eq, Hash, Structural)]
pub enum ImageRendering {
    OptimizeQuality,
    OptimizeSpeed,
}

/// The decoded images of a document, each under the reference by which image
/// elements name it. Every element with the same reference shares one image.
pub struct ImageCache {
    images: StringHashMap<Arc<PreloadedImageData>>,
}

impl View for ImageCache {
    type V = Map<Seq<char>, Arc<PreloadedImageData>>;

    closed spec fn view(&self) -> Map<Seq<char>, Arc<PreloadedImageData>> {
        self.images@
    }
}

impl ImageCache {
    /// A cache that holds no image.
    pub fn new() -> (r: ImageCache)
        ensures
            r@ == Map::<Seq<char>, Arc<PreloadedImageData>>::empty(),
    {
        ImageCache { images: StringHashMap::new() }
    }

    /// Puts `data` under `href`, in place of what was there.
    pub fn insert(&mut self, href: String, data: Arc<PreloadedImageData>)
        ensures
            final(self)@ == old(self)@.insert(href@, data),
    {
        self.images.insert(href, data);
    }

    /// The image under `href`.
    pub fn get(&self, href: &str) -> (r: Option<&Arc<PreloadedImageData>>)
        ensures
            match r {
                Some(data) => lookup(self@, href@) == Some(*data),
                None => lookup(self@, href@).is_none(),
            },
    {
        self.images.get(href)
    }
}

/// What a cache holds under a reference.
pub open spec fn lookup(
    images: Map<Seq<char>, Arc<PreloadedImageData>>,
    href: Seq<char>,
) -> Option<Arc<PreloadedImageData>> {
    if images.contains_key(href) {
        Some(images[href])
    } else {
        None
    }
}

/// What the conversion is given beside the document.
pub struct Options {
    /// The rendering mode of an image that states none.
    pub image_rendering: ImageRendering,
    /// The decoded images.
    pub image_data: ImageCache,
}

/// A raster image element.
#[derive(Clone, Debug)]
pub struct Image {
    /// Element's ID, as the document states it. Can be empty.
    pub id: String,
    /// Element transform.
    pub transform: Transform,
    /// Element visibility.
    pub visibility: Visibility,
    /// An image rectangle in which it should be fit.
    pub view_box: ViewBox,
    /// Rendering mode.
    pub rendering_mode: ImageRendering,
    /// Image data.
    pub data: Arc<PreloadedImageData>,
}

/// An image element of a document, with the attributes that the conversion
/// reads, each as the document states it and lengths in user units.
#[derive(Clone, Debug)]
pub struct ImageElement {
    pub id: String,
    pub visibility: Option<Visibility>,
    pub image_rendering: Option<ImageRendering>,
    pub x: Option<Scalar>,
    pub y: Option<Scalar>,
    pub width: Option<Scalar>,
    pub height: Option<Scalar>,
    pub preserve_aspect_ratio: Option<AspectRatio>,
    pub href: Option<String>,
}

impl ImageElement {
    /// The element has a rectangle to be fit into: its width and its height
    /// are stated, finite and above zero.
    pub open spec fn has_valid_size(&self) -> bool {
        &&& Rect::is_valid_length(self.width.unwrap_or(Scalar::spec_zero()))
        &&& Rect::is_valid_length(self.height.unwrap_or(Scalar::spec_zero()))
    }

    /// The rectangle of an element with a valid size. A corner that is not
    /// stated is at zero.
    pub open spec fn rect(&self) -> Rect {
        Rect::spec_new(
            self.x.unwrap_or(Scalar::spec_zero()),
            self.y.unwrap_or(Scalar::spec_zero()),
            self.width.unwrap_or(Scalar::spec_zero()),
            self.height.unwrap_or(Scalar::spec_zero()),
        )
    }
}

impl Image {
    /// The image that an element converts to, or why it converts to none. The
    /// size is looked at first, then the reference, then the cache.
    pub open spec fn spec_from_element(node: &ImageElement, opt: &Options) -> Result<
        Image,
        ConversionError,
    > {
        if !node.has_valid_size() {
            Err(ConversionError::InvalidGeometry)
        } else if node.href.is_none() {
            Err(ConversionError::MissingRequiredAttribute)
        } else if !opt.image_data@.contains_key(node.href.unwrap()@) {
            Err(ConversionError::MissingImageData)
        } else {
            Ok(
                Image {
                    id: node.id,
                    transform: Transform::spec_identity(),
                    visibility: node.visibility.unwrap_or(Visibility::Visible),
                    view_box: ViewBox {
                        rect: node.rect(),
                        aspect: node.preserve_aspect_ratio.unwrap_or(AspectRatio::spec_default()),
                    },
                    rendering_mode: node.image_rendering.unwrap_or(opt.image_rendering),
                    data: opt.image_data@[node.href.unwrap()@],
                },
            )
        }
    }

    /// Converts an image element. The transform of the image is the identity:
    /// the layout sets it later.
    pub fn from_element(node: &ImageElement, opt: &Options) -> (r: Result<Image, ConversionError>)
        ensures
            r == Self::spec_from_element(node, opt),
    {
        let visibility = node.visibility.unwrap_or_default();
        let rendering_mode = node.image_rendering.unwrap_or(opt.image_rendering);
        let rect = match Rect::new(
            node.x.unwrap_or(Scalar::zero()),
            node.y.unwrap_or(Scalar::zero()),
            node.width.unwrap_or(Scalar::zero()),
            node.height.unwrap_or(Scalar::zero()),
        ) {
            Some(rect) => rect,
            None => {
                return Err(ConversionError::InvalidGeometry);
            },
        };
        let view_box = ViewBox { rect, aspect: node.preserve_aspect_ratio.unwrap_or_default() };
        let href = match &node.href {
            Some(href) => href,
            None => {
                return Err(ConversionError::MissingRequiredAttribute);
            },
        };
        let data = match get_href_data(href.as_str(), opt) {
            Some(data) => data,
            None => {
                return Err(ConversionError::MissingImageData);
            },
        };
        Ok(
            Image {
                id: node.id.clone(),
                transform: Transform::default(),
                visibility,
                view_box,
                rendering_mode,
                data,
            },
        )
    }
}

/// An image is converted only from an element whose width and height are
/// finite numbers above zero, and its rectangle has the numbers that the
/// element states, with zero for a corner that is not stated.
pub proof fn lemma_image_has_valid_rect(node: &ImageElement, opt: &Options)
    requires
        Image::spec_from_element(node, opt).is_ok(),
    ensures
        ({
            let rect = Image::spec_from_element(node, opt).unwrap().view_box.rect@;
            &&& rect == (RectView {
                x: node.x.unwrap_or(Scalar::spec_zero()),
                y: node.y.unwrap_or(Scalar::spec_zero()),
                width: node.width.unwrap(),
                height: node.height.unwrap(),
            })
            &&& Rect::is_valid_length(rect.width)
            &&& Rect::is_valid_length(rect.height)
        }),
{
    Rect::lemma_spec_new(
        node.x.unwrap_or(Scalar::spec_zero()),
        node.y.unwrap_or(Scalar::spec_zero()),
        node.width.unwrap_or(Scalar::spec_zero()),
        node.height.unwrap_or(Scalar::spec_zero()),
        node.rect(),
    );
}

/// Converts an image element and, where it converts, appends the image to
/// `parent`. An element that does not convert leaves `parent` as it was.
pub fn convert(node: &ImageElement, opt: &Options, parent: &mut Vec<Image>) -> (r: Option<()>)
    ensures
        match Image::spec_from_element(node, opt) {
            Ok(image) => r == Some(()) && final(parent)@ == old(parent)@.push(image),
            Err(_) => r.is_none() && final(parent)@ == old(parent)@,
        },
{
    match Image::from_element(node, opt) {
        Ok(image) => {
            parent.push(image);
            Some(())
        },
        Err(_) => None,
    }
}

/// The decoded image that is cached under `href`, shared with the cache.
pub fn get_href_data(href: &str, opt: &Options) -> (r: Option<Arc<PreloadedImageData>>)
    ensures
        r == lookup(opt.image_data@, href@),
{
    match opt.image_data.get(href) {
        Some(data) => Some(share(data)),
        None => None,
    }
}

/// Another handle on the same image, by `Arc::clone`: the image is not copied,
/// and the two handles hold one value.
#[verifier::external_body]
fn share(data: &Arc<PreloadedImageData>) -> (r: Arc<PreloadedImageData>)
    ensures
        r == *data,
{
    Arc::clone(data)
}

} // verus!
