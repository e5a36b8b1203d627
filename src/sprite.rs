//! The per-instance sprite descriptor, its size resolution and its
//! texture-coordinate mapping.
use vstd::prelude::*;
use crate::geometry::{Anchor, Fraction, LinearColor, PixelRect, Size, Uv};

verus! {

/// What one sprite instance looks like; where it stands is a `Pose`.
#[derive(Clone, Copy, Debug, PartialEq, Eq, Structural)]
pub struct Sprite3d {
    /// Tint in linear space, copied to each vertex.
    pub color: LinearColor,
    pub flip_x: bool,
    pub flip_y: bool,
    /// Size that wins over every other source.
    pub custom_size: Option<Size>,
    /// Crop of the material's texture, in pixels.
    pub rect: Option<PixelRect>,
    pub anchor: Anchor,
}

impl Sprite3d {
    /// Every quantity the geometry reads is within the exact-arithmetic bounds.
    pub open spec fn bounded(self) -> bool {
        &&& (self.custom_size matches Some(c) ==> c.bounded())
        &&& (self.rect matches Some(r) ==> r.bounded())
        &&& self.anchor.bounded()
    }
}

/// Texture coordinates of the four corners of a quad.
#[derive(Clone, Copy, Debug, PartialEq, Eq, Structural)]
pub struct UvCorners {
    pub bl: Uv,
    pub br: Uv,
    pub tr: Uv,
    pub tl: Uv,
}

/// Size in priority order: the custom size, the crop's size, the material's
/// native size; `None` where none of them is there.
pub open spec fn spec_effective_size(sprite: Sprite3d, native: Option<Size>) -> Option<Size> {
    match sprite.custom_size {
        Some(c) => Some(c),
        None => match sprite.rect {
            Some(r) => Some(r.spec_size()),
            None => native,
        },
    }
}

pub open spec fn frac(num: i64, den: i64) -> Fraction {
    Fraction { num, den }
}

pub open spec fn uv(u: Fraction, v: Fraction) -> Uv {
    Uv { u, v }
}

/// Whole-texture coordinates: V grows downward, against the Y axis.
pub open spec fn default_uvs() -> UvCorners {
    UvCorners {
        bl: uv(frac(0, 1), frac(1, 1)),
        br: uv(frac(1, 1), frac(1, 1)),
        tr: uv(frac(1, 1), frac(0, 1)),
        tl: uv(frac(0, 1), frac(0, 1)),
    }
}

/// A pixel crop scaled by the reciprocal of the native size.
pub open spec fn rect_uvs(r: PixelRect, native: Size) -> UvCorners {
    let (w, h) = (native.width, native.height);
    UvCorners {
        bl: uv(frac(r.min_x, w), frac(r.max_y, h)),
        br: uv(frac(r.max_x, w), frac(r.max_y, h)),
        tr: uv(frac(r.max_x, w), frac(r.min_y, h)),
        tl: uv(frac(r.min_x, w), frac(r.min_y, h)),
    }
}

/// Swaps U between the left and right corners.
pub open spec fn flip_u(c: UvCorners) -> UvCorners {
    UvCorners {
        bl: uv(c.br.u, c.bl.v),
        br: uv(c.bl.u, c.br.v),
        tr: uv(c.tl.u, c.tr.v),
        tl: uv(c.tr.u, c.tl.v),
    }
}

/// Swaps V between the top and bottom corners.
pub open spec fn flip_v(c: UvCorners) -> UvCorners {
    UvCorners {
        bl: uv(c.bl.u, c.tl.v),
        br: uv(c.br.u, c.tr.v),
        tr: uv(c.tr.u, c.br.v),
        tl: uv(c.tl.u, c.bl.v),
    }
}

pub open spec fn flipped(c: UvCorners, flip_x: bool, flip_y: bool) -> UvCorners {
    let c1 = if flip_x { flip_u(c) } else { c };
    if flip_y { flip_v(c1) } else { c1 }
}

/// The quad's texture coordinates; a crop needs a positive native size to
/// be mapped, and is `None` without one.
pub open spec fn spec_uv_corners(sprite: Sprite3d, native: Option<Size>) -> Option<UvCorners> {
    match sprite.rect {
        None => Some(flipped(default_uvs(), sprite.flip_x, sprite.flip_y)),
        Some(r) => match native {
            Some(n) => if n.positive() {
                Some(flipped(rect_uvs(r, n), sprite.flip_x, sprite.flip_y))
            } else {
                None
            },
            None => None,
        },
    }
}

/// Resolves the size a sprite is drawn at.
pub fn effective_size(sprite: &Sprite3d, native: Option<Size>) -> (r: Option<Size>)
    requires
        sprite.bounded(),
    ensures
        r == spec_effective_size(*sprite, native),
{
    match sprite.custom_size {
        Some(c) => Some(c),
        None => match sprite.rect {
            Some(r) => Some(r.size()),
            None => native,
        },
    }
}

/// Computes the texture coordinates of a sprite's quad.
pub fn uv_corners(sprite: &Sprite3d, native: Option<Size>) -> (r: Option<UvCorners>)
    ensures
        r == spec_uv_corners(*sprite, native),
{
    let mut c = match sprite.rect {
        None => UvCorners {
            bl: Uv { u: Fraction { num: 0, den: 1 }, v: Fraction { num: 1, den: 1 } },
            br: Uv { u: Fraction { num: 1, den: 1 }, v: Fraction { num: 1, den: 1 } },
            tr: Uv { u: Fraction { num: 1, den: 1 }, v: Fraction { num: 0, den: 1 } },
            tl: Uv { u: Fraction { num: 0, den: 1 }, v: Fraction { num: 0, den: 1 } },
        },
        Some(r) => match native {
            Some(n) => {
                if n.width <= 0 || n.height <= 0 {
                    return None;
                }
                let (w, h) = (n.width, n.height);
                UvCorners {
                    bl: Uv { u: Fraction { num: r.min_x, den: w }, v: Fraction { num: r.max_y, den: h } },
                    br: Uv { u: Fraction { num: r.max_x, den: w }, v: Fraction { num: r.max_y, den: h } },
                    tr: Uv { u: Fraction { num: r.max_x, den: w }, v: Fraction { num: r.min_y, den: h } },
                    tl: Uv { u: Fraction { num: r.min_x, den: w }, v: Fraction { num: r.min_y, den: h } },
                }
            },
            None => {
                return None;
            },
        },
    };
    if sprite.flip_x {
        let (bl_u, tl_u) = (c.bl.u, c.tl.u);
        c.bl.u = c.br.u;
        c.br.u = bl_u;
        c.tl.u = c.tr.u;
        c.tr.u = tl_u;
    }
    if sprite.flip_y {
        let (tl_v, tr_v) = (c.tl.v, c.tr.v);
        c.tl.v = c.bl.v;
        c.bl.v = tl_v;
        c.tr.v = c.br.v;
        c.br.v = tr_v;
    }
    Some(c)
}

} // verus!
