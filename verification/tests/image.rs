use std::sync::Arc;
use usvg::image::{convert, get_href_data, premultiply, premultiply_channel};
use usvg::{
    Align, AspectRatio, ConversionError, Image, ImageCache, ImageElement, ImageRendering, Options,
    PreloadedImageData, Scalar, Transform, Visibility,
};

fn s(x: f64) -> Scalar {
    Scalar::from_bits(x.to_bits())
}

fn f(x: Scalar) -> f64 {
    f64::from_bits(x.to_bits())
}

fn element(width: f64, height: f64, href: Option<&str>) -> ImageElement {
    ImageElement {
        id: String::from("pic"),
        visibility: None,
        image_rendering: None,
        x: Some(s(5.0)),
        y: None,
        width: Some(s(width)),
        height: Some(s(height)),
        preserve_aspect_ratio: None,
        href: href.map(String::from),
    }
}

fn options_with(href: &str) -> (Options, Arc<PreloadedImageData>) {
    let data = PreloadedImageData::new(1, 1, vec![10, 20, 30, 255]);
    let mut image_data = ImageCache::new();
    image_data.insert(String::from(href), data.clone());
    (Options { image_rendering: ImageRendering::OptimizeSpeed, image_data }, data)
}

#[test]
fn premultiply_half_transparent_pixel() {
    assert_eq!(premultiply(&[255, 128, 0, 128]), vec![128, 64, 0, 128]);
    let image = PreloadedImageData::new(1, 1, vec![255, 128, 0, 128]);
    assert_eq!(image.data, vec![128, 64, 0, 128]);
}

#[test]
fn premultiply_opaque_keeps_every_color() {
    for c in 0..=255u8 {
        let d = 255 - c;
        let e = c / 2;
        assert_eq!(premultiply(&[c, d, e, 255]), vec![c, d, e, 255]);
        assert_eq!(premultiply_channel(c, 255), c);
    }
}

#[test]
fn premultiply_transparent_is_all_zero() {
    for c in 0..=255u8 {
        let d = 255 - c;
        assert_eq!(premultiply(&[c, d, 255, 0]), vec![0, 0, 0, 0]);
        assert_eq!(premultiply_channel(c, 0), 0);
    }
}

#[test]
fn premultiply_rounds_half_up() {
    // 1 * 128 / 255 is just above a half, 1 * 127 / 255 just below.
    assert_eq!(premultiply_channel(1, 128), 1);
    assert_eq!(premultiply_channel(1, 127), 0);
    // 3 * 85 / 255 is 1, and 3 * 127 / 255 is 1.494.
    assert_eq!(premultiply_channel(3, 85), 1);
    assert_eq!(premultiply_channel(3, 127), 1);
    assert_eq!(premultiply_channel(3, 128), 2);
    assert_eq!(premultiply_channel(200, 100), 78);
    assert_eq!(premultiply_channel(255, 254), 254);
}

#[test]
fn premultiply_agrees_with_single_precision() {
    for a in 0..=255u8 {
        let alpha = a as f32 / 255.0;
        for c in 0..=255u8 {
            let expected = (c as f32 * alpha + 0.5) as u8;
            assert_eq!(premultiply_channel(c, a), expected, "{c} at alpha {a}");
        }
    }
}

#[test]
fn premultiply_never_exceeds_channel_or_alpha() {
    for a in 0..=255u8 {
        for c in 0..=255u8 {
            let p = premultiply_channel(c, a);
            assert!(p <= c && p <= a);
        }
    }
}

#[test]
fn premultiply_handles_each_pixel_by_itself() {
    let input = [255, 128, 0, 128, 9, 8, 7, 255, 200, 100, 50, 0, 40, 80, 120, 64];
    let expected = vec![128, 64, 0, 128, 9, 8, 7, 255, 0, 0, 0, 0, 10, 20, 30, 64];
    assert_eq!(premultiply(&input), expected);
    assert_eq!(premultiply(&[]), Vec::<u8>::new());
}

#[test]
fn new_keeps_the_size() {
    let image = PreloadedImageData::new(2, 1, vec![1, 2, 3, 255, 4, 5, 6, 0]);
    assert_eq!(image.width, 2);
    assert_eq!(image.height, 1);
    assert_eq!(image.data, vec![1, 2, 3, 255, 0, 0, 0, 0]);
    let empty = PreloadedImageData::new(0, 7, vec![]);
    assert_eq!((empty.width, empty.height, empty.data.len()), (0, 7, 0));
}

#[test]
fn try_new_checks_the_length() {
    let image = PreloadedImageData::try_new(1, 2, vec![255, 128, 0, 128, 1, 1, 1, 255]).unwrap();
    assert_eq!(image.data, vec![128, 64, 0, 128, 1, 1, 1, 255]);
    assert_eq!((image.width, image.height), (1, 2));
    for len in [0usize, 3, 4, 7, 9, 12] {
        let r = PreloadedImageData::try_new(1, 2, vec![0; len]);
        assert_eq!(r.err(), Some(ConversionError::InvalidBufferLength));
    }
    let r = PreloadedImageData::try_new(u32::MAX, u32::MAX, vec![0; 4]);
    assert_eq!(r.err(), Some(ConversionError::InvalidBufferLength));
}

#[test]
fn image_is_appended_with_defaults() {
    let (opt, data) = options_with("a.png");
    let mut parent: Vec<Image> = Vec::new();
    assert_eq!(convert(&element(10.0, 20.0, Some("a.png")), &opt, &mut parent), Some(()));
    assert_eq!(parent.len(), 1);
    let image = &parent[0];
    assert_eq!(image.id, "pic");
    assert_eq!(image.visibility, Visibility::Visible);
    assert_eq!(image.rendering_mode, ImageRendering::OptimizeSpeed);
    assert_eq!(image.transform, Transform::default());
    assert_eq!(f(image.view_box.rect.x()), 5.0);
    assert_eq!(f(image.view_box.rect.y()), 0.0);
    assert_eq!(f(image.view_box.rect.width()), 10.0);
    assert_eq!(f(image.view_box.rect.height()), 20.0);
    assert_eq!(
        image.view_box.aspect,
        AspectRatio { defer: false, align: Align::XMidYMid, slice: false }
    );
    assert!(Arc::ptr_eq(&image.data, &data));
}

#[test]
fn image_keeps_what_the_element_states() {
    let (opt, _) = options_with("a.png");
    let mut node = element(1.0, 1.0, Some("a.png"));
    node.id = String::new();
    node.visibility = Some(Visibility::Hidden);
    node.image_rendering = Some(ImageRendering::OptimizeQuality);
    node.y = Some(s(-3.5));
    node.preserve_aspect_ratio =
        Some(AspectRatio { defer: true, align: Align::Stretch, slice: true });
    let image = Image::from_element(&node, &opt).unwrap();
    assert_eq!(image.id, "");
    assert_eq!(image.visibility, Visibility::Hidden);
    assert_eq!(image.rendering_mode, ImageRendering::OptimizeQuality);
    assert_eq!(f(image.view_box.rect.y()), -3.5);
    assert_eq!(
        image.view_box.aspect,
        AspectRatio { defer: true, align: Align::Stretch, slice: true }
    );
}

#[test]
fn image_transform_is_the_identity() {
    let t = Transform::default();
    assert_eq!(
        (f(t.a), f(t.b), f(t.c), f(t.d), f(t.e), f(t.f)),
        (1.0, 0.0, 0.0, 1.0, 0.0, 0.0)
    );
}

#[test]
fn image_with_invalid_size_is_skipped() {
    let (opt, _) = options_with("a.png");
    let sizes = [
        (0.0, 10.0),
        (10.0, 0.0),
        (-1.0, 10.0),
        (10.0, -0.0),
        (f64::NAN, 10.0),
        (10.0, f64::INFINITY),
        (f64::NEG_INFINITY, 10.0),
    ];
    for (w, h) in sizes {
        let mut parent: Vec<Image> = Vec::new();
        let node = element(w, h, Some("a.png"));
        assert_eq!(convert(&node, &opt, &mut parent), None, "{w} x {h}");
        assert!(parent.is_empty());
        assert_eq!(
            Image::from_element(&node, &opt).err(),
            Some(ConversionError::InvalidGeometry)
        );
    }
}

#[test]
fn image_without_stated_size_is_skipped() {
    let (opt, _) = options_with("a.png");
    let mut node = element(10.0, 10.0, Some("a.png"));
    node.width = None;
    assert_eq!(Image::from_element(&node, &opt).err(), Some(ConversionError::InvalidGeometry));
}

#[test]
fn image_without_reference_is_skipped() {
    let (opt, _) = options_with("a.png");
    let mut parent: Vec<Image> = Vec::new();
    let node = element(10.0, 10.0, None);
    assert_eq!(convert(&node, &opt, &mut parent), None);
    assert!(parent.is_empty());
    assert_eq!(
        Image::from_element(&node, &opt).err(),
        Some(ConversionError::MissingRequiredAttribute)
    );
}

#[test]
fn image_that_is_not_cached_is_skipped() {
    let (opt, _) = options_with("a.png");
    let mut parent: Vec<Image> = Vec::new();
    let node = element(10.0, 10.0, Some("b.png"));
    assert_eq!(convert(&node, &opt, &mut parent), None);
    assert!(parent.is_empty());
    assert_eq!(Image::from_element(&node, &opt).err(), Some(ConversionError::MissingImageData));
}

#[test]
fn size_is_looked_at_before_the_reference() {
    let (opt, _) = options_with("a.png");
    let node = element(0.0, 10.0, None);
    assert_eq!(Image::from_element(&node, &opt).err(), Some(ConversionError::InvalidGeometry));
}

#[test]
fn a_skipped_image_leaves_its_siblings() {
    let (opt, _) = options_with("a.png");
    let mut parent: Vec<Image> = Vec::new();
    assert_eq!(convert(&element(1.0, 1.0, Some("a.png")), &opt, &mut parent), Some(()));
    assert_eq!(convert(&element(1.0, 1.0, Some("none")), &opt, &mut parent), None);
    assert_eq!(convert(&element(2.0, 2.0, Some("a.png")), &opt, &mut parent), Some(()));
    assert_eq!(parent.len(), 2);
    assert_eq!(f(parent[0].view_box.rect.width()), 1.0);
    assert_eq!(f(parent[1].view_box.rect.width()), 2.0);
}

#[test]
fn images_with_one_reference_share_the_data() {
    let (opt, data) = options_with("a.png");
    let mut parent: Vec<Image> = Vec::new();
    convert(&element(1.0, 1.0, Some("a.png")), &opt, &mut parent);
    convert(&element(2.0, 2.0, Some("a.png")), &opt, &mut parent);
    assert!(Arc::ptr_eq(&parent[0].data, &parent[1].data));
    assert!(Arc::ptr_eq(&parent[0].data, &data));
    assert_eq!(parent[0].data.data, vec![10, 20, 30, 255]);
}

#[test]
fn href_data_comes_from_the_cache() {
    let (opt, data) = options_with("a.png");
    let found = get_href_data("a.png", &opt).unwrap();
    assert!(Arc::ptr_eq(&found, &data));
    assert!(get_href_data("A.png", &opt).is_none());
    assert!(get_href_data("", &opt).is_none());
}

#[test]
fn cache_holds_the_last_image_under_a_reference() {
    let first = PreloadedImageData::new(1, 1, vec![1, 1, 1, 255]);
    let second = PreloadedImageData::new(1, 1, vec![2, 2, 2, 255]);
    let mut cache = ImageCache::new();
    assert!(cache.get("k").is_none());
    cache.insert(String::from("k"), first);
    cache.insert(String::from("k"), second.clone());
    assert!(Arc::ptr_eq(cache.get("k").unwrap(), &second));
}

#[test]
fn default_aspect_is_that_of_svgtypes() {
    let theirs = svgtypes::AspectRatio::default();
    let ours = AspectRatio::default();
    assert_eq!(ours.defer, theirs.defer);
    assert_eq!(ours.slice, theirs.slice);
    assert_eq!(ours.align, Align::XMidYMid);
    assert_eq!(theirs.align, svgtypes::Align::XMidYMid);
    assert_eq!(Visibility::default(), Visibility::Visible);
}
