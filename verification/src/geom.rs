//! Rectangles, transforms and view boxes.

use crate::scalar::Scalar;
use vstd::prelude::*;

verus! {

/// A rectangle in user space. Its width and its height are finite numbers
/// above zero.
#[derive(Clone, Copy, Debug, PartialEq, Eq, Hash)]
pub struct Rect {
    x: Scalar,
    y: Scalar,
    width: Scalar,
    height: Scalar,
}

/// The four numbers of a rectangle.
pub ghost struct RectView {
    pub x: Scalar,
    pub y: Scalar,
    pub width: Scalar,
    pub height: Scalar,
}

impl View for Rect {
    type V = RectView;

    closed spec fn view(&self) -> RectView {
        RectView { x: self.x, y: self.y, width: self.width, height: self.height }
    }
}

impl Rect {
    #[verifier::type_invariant]
    spec fn well_formed(self) -> bool {
        Self::is_valid_length(self.width) && Self::is_valid_length(self.height)
    }

    /// A width or a height that a rectangle can have: a finite number above
    /// zero.
    pub open spec fn is_valid_length(n: Scalar) -> bool {
        n.spec_is_finite() && n.value() > 0
    }

    /// The rectangle with these four numbers.
    pub closed spec fn spec_new(x: Scalar, y: Scalar, width: Scalar, height: Scalar) -> Rect {
        Rect { x, y, width, height }
    }

    /// The rectangle at `x`, `y` of the given size, where the size is valid.
    pub fn new(x: Scalar, y: Scalar, width: Scalar, height: Scalar) -> (r: Option<Rect>)
        ensures
            r == if Self::is_valid_length(width) && Self::is_valid_length(height) {
                Some(Self::spec_new(x, y, width, height))
            } else {
                None
            },
            r matches Some(rect) ==> rect@ == (RectView { x, y, width, height }),
    {
        if width.is_finite() && Scalar::zero().lt(width) && height.is_finite() && Scalar::zero().lt(
            height,
        ) {
            Some(Rect { x, y, width, height })
        } else {
            None
        }
    }

    pub fn x(&self) -> (r: Scalar)
        ensures
            r == self@.x,
    {
        self.x
    }

    pub fn y(&self) -> (r: Scalar)
        ensures
            r == self@.y,
    {
        self.y
    }

    pub fn width(&self) -> (r: Scalar)
        ensures
            r == self@.width,
            Self::is_valid_length(r),
    {
        proof {
            use_type_invariant(self);
        }
        self.width
    }

    pub fn height(&self) -> (r: Scalar)
        ensures
            r == self@.height,
            Self::is_valid_length(r),
    {
        proof {
            use_type_invariant(self);
        }
        self.height
    }

    /// A rectangle is its four numbers, and nothing more.
    pub proof fn lemma_spec_new(x: Scalar, y: Scalar, width: Scalar, height: Scalar, r: Rect)
        ensures
            Self::spec_new(x, y, width, height)@ == (RectView { x, y, width, height }),
            Self::spec_new(r@.x, r@.y, r@.width, r@.height) == r,
    {
    }
}

/// A rectangle on the pixel grid, not empty: the region that a filter is
/// rendered into.
#[derive(Clone, Copy, Debug, PartialEq, Eq, Hash)]
pub struct ScreenRect {
    x: i32,
    y: i32,
    width: u32,
    height: u32,
}

impl ScreenRect {
    #[verifier::type_invariant]
    spec fn well_formed(self) -> bool {
        self.width > 0 && self.height > 0
    }

    pub closed spec fn spec_x(&self) -> i32 {
        self.x
    }

    pub closed spec fn spec_y(&self) -> i32 {
        self.y
    }

    pub closed spec fn spec_width(&self) -> u32 {
        self.width
    }

    pub closed spec fn spec_height(&self) -> u32 {
        self.height
    }

    /// The rectangle at `x`, `y` of the given size, where the size is not
    /// empty.
    pub fn new(x: i32, y: i32, width: u32, height: u32) -> (r: Option<ScreenRect>)
        ensures
            r.is_some() <==> width > 0 && height > 0,
            r matches Some(rect) ==> rect.spec_x() == x && rect.spec_y() == y && rect.spec_width()
                == width && rect.spec_height() == height,
    {
        if width > 0 && height > 0 {
            Some(ScreenRect { x, y, width, height })
        } else {
            None
        }
    }

    #[verifier::when_used_as_spec(spec_x)]
    pub fn x(&self) -> (r: i32)
        ensures
            r == self.spec_x(),
    {
        self.x
    }

    #[verifier::when_used_as_spec(spec_y)]
    pub fn y(&self) -> (r: i32)
        ensures
            r == self.spec_y(),
    {
        self.y
    }

    #[verifier::when_used_as_spec(spec_width)]
    pub fn width(&self) -> (r: u32)
        ensures
            r == self.spec_width(),
            r > 0,
    {
        proof {
            use_type_invariant(self);
        }
        self.width
    }

    #[verifier::when_used_as_spec(spec_height)]
    pub fn height(&self) -> (r: u32)
        ensures
            r == self.spec_height(),
            r > 0,
    {
        proof {
            use_type_invariant(self);
        }
        self.height
    }
}

/// An affine transform: `x` goes to `a*x + c*y + e` and `y` to `b*x + d*y + f`.
#[derive(Clone, Copy, Debug, PartialEq, Eq, Hash, Structural)]
pub struct Transform {
    pub a: Scalar,
    pub b: Scalar,
    pub c: Scalar,
    pub d: Scalar,
    pub e: Scalar,
    pub f: Scalar,
}

impl Transform {
    /// The transform that moves nothing.
    pub open spec fn spec_identity() -> Transform {
        Transform {
            a: Scalar::spec_one(),
            b: Scalar::spec_zero(),
            c: Scalar::spec_zero(),
            d: Scalar::spec_one(),
            e: Scalar::spec_zero(),
            f: Scalar::spec_zero(),
        }
    }
}

impl Default for Transform {
    fn default() -> (r: Transform)
        ensures
            r == Transform::spec_identity(),
    {
        Transform {
            a: Scalar::one(),
            b: Scalar::zero(),
            c: Scalar::zero(),
            d: Scalar::one(),
            e: Scalar::zero(),
            f: Scalar::zero(),
        }
    }
}

/// How content is aligned in a view box whose shape it does not have.
#[derive(Clone, Copy, Debug, PartialEq, Eq, Hash, Structural)]
pub enum Align {
    /// `none` in a document: the content is stretched to the shape of the box.
    Stretch,
    XMinYMin,
    XMidYMin,
    XMaxYMin,
    XMinYMid,
    XMidYMid,
    XMaxYMid,
    XMinYMax,
    XMidYMax,
    XMaxYMax,
}

/// The policy by which content is fit into a view box.
#[derive(Clone, Copy, Debug, PartialEq, Eq, Hash, Structural)]
pub struct AspectRatio {
    /// The policy of the referenced content is taken, where it has one.
    pub defer: bool,
    pub align: Align,
    /// The content fills the box and is cut; else it is fit into the box whole.
    pub slice: bool,
}

impl AspectRatio {
    /// The policy of a document that states none: the content is fit into the
    /// box whole, keeps its shape and is centered.
    pub open spec fn spec_default() -> AspectRatio {
        AspectRatio { defer: false, align: Align::XMidYMid, slice: false }
    }

    /// The policy that `svgtypes::AspectRatio::default` gives: no `defer`, the
    /// alignment `xMidYMid`, and `meet` rather than `slice`.
    #[verifier::external_body]
    fn standard() -> (r: AspectRatio)
        ensures
            r == Self::spec_default(),
    {
        let standard = svgtypes::AspectRatio::default();
        let align = match standard.align {
            svgtypes::Align::None => Align::Stretch,
            svgtypes::Align::XMinYMin => Align::XMinYMin,
            svgtypes::Align::XMidYMin => Align::XMidYMin,
            svgtypes::Align::XMaxYMin => Align::XMaxYMin,
            svgtypes::Align::XMinYMid => Align::XMinYMid,
            svgtypes::Align::XMidYMid => Align::XMidYMid,
            svgtypes::Align::XMaxYMid => Align::XMaxYMid,
            svgtypes::Align::XMinYMax => Align::XMinYMax,
            svgtypes::Align::XMidYMax => Align::XMidYMax,
            svgtypes::Align::XMaxYMax => Align::XMaxYMax,
        };
        AspectRatio { defer: standard.defer, align, slice: standard.slice }
    }
}

impl Default for AspectRatio {
    fn default() -> (r: AspectRatio)
        ensures
            r == AspectRatio::spec_default(),
    {
        AspectRatio::standard()
    }
}

/// The rectangle that content is fit into, and the policy by which it is fit.
#[derive(Clone, Copy, Debug, PartialEq, Eq, Hash)]
pub struct ViewBox {
    pub rect: Rect,
    pub aspect: AspectRatio,
}

} // verus!
