//! Plain-value geometry: sizes, rectangles, anchors, poses and points.
//!
//! Units:
//! - sizes and pixel rectangles are integers in the caller's length unit;
//! - an anchor component `a` stands for `a / ANCHOR_UNIT`;
//! - a pose's matrix entries and translation stand for `value / POSE_UNIT`;
//! - a local corner is expressed in units of `1 / (2 * ANCHOR_UNIT)`, and a
//!   world point in units of `1 / (2 * ANCHOR_UNIT * POSE_UNIT)`, so that every
//!   computation stays exact.
use vstd::prelude::*;

verus! {

/// Denominator of anchor components: `Anchor::Custom(a, b)` is the point
/// `(a / ANCHOR_UNIT, b / ANCHOR_UNIT)`.
pub const ANCHOR_UNIT: i64 = 256;

/// Denominator of the entries of a `Pose`.
pub const POSE_UNIT: i64 = 65536;

/// Largest magnitude of a size component.
pub const MAX_EXTENT: i64 = 0x10_0000;

/// Largest magnitude of a pixel rectangle coordinate.
pub const MAX_COORD: i64 = 0x8_0000;

/// Largest magnitude of a pose matrix entry.
pub const MAX_LINEAR: i64 = 0x100_0000;

/// Largest magnitude of a pose translation component.
pub const MAX_SHIFT: i64 = 0x100_0000_0000;

/// A width and a height.
#[derive(Clone, Copy, Debug, PartialEq, Eq, Structural)]
pub struct Size {
    pub width: i64,
    pub height: i64,
}

impl Size {
    pub open spec fn bounded(self) -> bool {
        -MAX_EXTENT <= self.width <= MAX_EXTENT && -MAX_EXTENT <= self.height <= MAX_EXTENT
    }

    pub open spec fn positive(self) -> bool {
        self.width > 0 && self.height > 0
    }
}

/// An axis-aligned rectangle in pixel space; `min` is its top-left corner
/// in image rows, `max` its bottom-right one.
#[derive(Clone, Copy, Debug, PartialEq, Eq, Structural)]
pub struct PixelRect {
    pub min_x: i64,
    pub min_y: i64,
    pub max_x: i64,
    pub max_y: i64,
}

impl PixelRect {
    pub open spec fn bounded(self) -> bool {
        -MAX_COORD <= self.min_x <= MAX_COORD && -MAX_COORD <= self.min_y <= MAX_COORD
            && -MAX_COORD <= self.max_x <= MAX_COORD && -MAX_COORD <= self.max_y <= MAX_COORD
    }

    pub open spec fn spec_size(self) -> Size {
        Size { width: (self.max_x - self.min_x) as i64, height: (self.max_y - self.min_y) as i64 }
    }

    /// Width and height of the rectangle: `max - min` on each axis.
    pub fn size(&self) -> (r: Size)
        requires
            self.bounded(),
        ensures
            r == self.spec_size(),
            r.bounded(),
    {
        Size { width: self.max_x - self.min_x, height: self.max_y - self.min_y }
    }
}

/// The point of a sprite that sits at its pose's origin, in the normalized
/// square `[-1/2, 1/2]²` where `(0, 0)` is the sprite's center.
#[derive(Clone, Copy, Debug, PartialEq, Eq, Structural)]
pub enum Anchor {
    Center,
    BottomLeft,
    BottomCenter,
    BottomRight,
    CenterLeft,
    CenterRight,
    TopLeft,
    TopCenter,
    TopRight,
    /// Components in units of `1 / ANCHOR_UNIT`.
    Custom(i64, i64),
}

impl Anchor {
    /// The anchor's components, in units of `1 / ANCHOR_UNIT`.
    pub open spec fn spec_as_vec(self) -> (int, int) {
        let h = ANCHOR_UNIT / 2;
        match self {
            Anchor::Center => (0, 0),
            Anchor::BottomLeft => (-h, -h),
            Anchor::BottomCenter => (0, -h),
            Anchor::BottomRight => (h, -h),
            Anchor::CenterLeft => (-h, 0),
            Anchor::CenterRight => (h, 0),
            Anchor::TopLeft => (-h, h),
            Anchor::TopCenter => (0, h),
            Anchor::TopRight => (h, h),
            Anchor::Custom(x, y) => (x as int, y as int),
        }
    }

    /// The anchor lies in the normalized square.
    pub open spec fn bounded(self) -> bool {
        let (x, y) = self.spec_as_vec();
        -(ANCHOR_UNIT / 2) <= x <= ANCHOR_UNIT / 2 && -(ANCHOR_UNIT / 2) <= y <= ANCHOR_UNIT / 2
    }

    pub fn as_vec(&self) -> (r: (i64, i64))
        ensures
            (r.0 as int, r.1 as int) == self.spec_as_vec(),
    {
        let h: i64 = ANCHOR_UNIT / 2;
        match self {
            Anchor::Center => (0, 0),
            Anchor::BottomLeft => (-h, -h),
            Anchor::BottomCenter => (0, -h),
            Anchor::BottomRight => (h, -h),
            Anchor::CenterLeft => (-h, 0),
            Anchor::CenterRight => (h, 0),
            Anchor::TopLeft => (-h, h),
            Anchor::TopCenter => (0, h),
            Anchor::TopRight => (h, h),
            Anchor::Custom(x, y) => (*x, *y),
        }
    }
}

/// A point in world space, in units of `1 / (2 * ANCHOR_UNIT * POSE_UNIT)`.
#[derive(Clone, Copy, Debug, PartialEq, Eq, Structural)]
pub struct Point3 {
    pub x: i64,
    pub y: i64,
    pub z: i64,
}

/// A vector with integer components; the direction of a face normal.
#[derive(Clone, Copy, Debug, PartialEq, Eq, Structural)]
pub struct Normal3 {
    pub x: i128,
    pub y: i128,
    pub z: i128,
}

/// An affine map from local sprite-quad space to world space:
/// `p ↦ x_axis * p.x + y_axis * p.y + z_axis * p.z + translation`,
/// every entry in units of `1 / POSE_UNIT`.
#[derive(Clone, Copy, Debug, PartialEq, Eq, Structural)]
pub struct Pose {
    pub x_axis: Point3,
    pub y_axis: Point3,
    pub z_axis: Point3,
    pub translation: Point3,
}

pub open spec fn within(v: i64, m: i64) -> bool {
    -m <= v <= m
}

impl Pose {
    /// The entries that act on a sprite quad (which lies in the plane z = 0)
    /// are small enough for exact arithmetic.
    pub open spec fn bounded(self) -> bool {
        within(self.x_axis.x, MAX_LINEAR) && within(self.x_axis.y, MAX_LINEAR)
            && within(self.x_axis.z, MAX_LINEAR) && within(self.y_axis.x, MAX_LINEAR)
            && within(self.y_axis.y, MAX_LINEAR) && within(self.y_axis.z, MAX_LINEAR)
            && within(self.translation.x, MAX_SHIFT) && within(self.translation.y, MAX_SHIFT)
            && within(self.translation.z, MAX_SHIFT)
    }

    /// The pose that leaves every point where it is.
    pub open spec fn spec_identity() -> Pose {
        Pose {
            x_axis: Point3 { x: POSE_UNIT, y: 0, z: 0 },
            y_axis: Point3 { x: 0, y: POSE_UNIT, z: 0 },
            z_axis: Point3 { x: 0, y: 0, z: POSE_UNIT },
            translation: Point3 { x: 0, y: 0, z: 0 },
        }
    }

    pub fn identity() -> (r: Pose)
        ensures
            r == Pose::spec_identity(),
            r.bounded(),
    {
        Pose {
            x_axis: Point3 { x: POSE_UNIT, y: 0, z: 0 },
            y_axis: Point3 { x: 0, y: POSE_UNIT, z: 0 },
            z_axis: Point3 { x: 0, y: 0, z: POSE_UNIT },
            translation: Point3 { x: 0, y: 0, z: 0 },
        }
    }
}

/// A fraction `num / den`; `den` is positive.
#[derive(Clone, Copy, Debug, PartialEq, Eq, Structural)]
pub struct Fraction {
    pub num: i64,
    pub den: i64,
}

/// A texture coordinate: `u` across the image, `v` down its rows.
#[derive(Clone, Copy, Debug, PartialEq, Eq, Structural)]
pub struct Uv {
    pub u: Fraction,
    pub v: Fraction,
}

/// A color in linear space, each channel held as the bit pattern of its
/// IEEE-754 single-precision value; the batching logic only copies it.
#[derive(Clone, Copy, Debug, PartialEq, Eq, Structural)]
pub struct LinearColor {
    pub red: u32,
    pub green: u32,
    pub blue: u32,
    pub alpha: u32,
}

} // verus!
