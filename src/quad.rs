//! Quad geometry: four corners, their texture coordinates, a face normal and
//! a color for one sprite instance.
use vstd::prelude::*;
use crate::geometry::{within, Anchor, LinearColor, Normal3, Point3, Pose, Size, ANCHOR_UNIT, MAX_EXTENT,
    MAX_LINEAR, MAX_SHIFT};
use crate::sprite::{
    spec_effective_size, spec_uv_corners, effective_size, uv_corners, Sprite3d, UvCorners,
};

verus! {

/// Largest magnitude of a local corner coordinate.
pub const MAX_LOCAL: i64 = 0x2000_0000;

/// One sprite's vertex data, corners counter-clockwise from bottom-left.
#[derive(Clone, Copy, Debug, PartialEq, Eq, Structural)]
pub struct Quad {
    pub bl: Point3,
    pub br: Point3,
    pub tr: Point3,
    pub tl: Point3,
    pub uvs: UvCorners,
    /// Shared by the four vertices.
    pub normal: Normal3,
    /// Shared by the four vertices.
    pub color: LinearColor,
}

/// Sign of corner `k`'s x offset (corners: bottom-left, bottom-right,
/// top-right, top-left).
pub open spec fn sign_x(k: int) -> int {
    if k == 0 || k == 3 { -1 } else { 1 }
}

/// Sign of corner `k`'s y offset.
pub open spec fn sign_y(k: int) -> int {
    if k <= 1 { -1 } else { 1 }
}

/// Corner `k` before the pose, in units of `1 / (2 * ANCHOR_UNIT)`:
/// `±size / 2 - anchor * size` on each axis.
pub open spec fn local_corner(size: Size, anchor: Anchor, k: int) -> (int, int) {
    let (ax, ay) = anchor.spec_as_vec();
    (
        sign_x(k) * size.width * ANCHOR_UNIT - 2 * ax * size.width,
        sign_y(k) * size.height * ANCHOR_UNIT - 2 * ay * size.height,
    )
}

/// The pose applied to a point of the plane z = 0, in world units.
pub open spec fn apply_pose(pose: Pose, p: (int, int)) -> (int, int, int) {
    let s = 2 * ANCHOR_UNIT;
    (
        pose.x_axis.x * p.0 + pose.y_axis.x * p.1 + s * pose.translation.x,
        pose.x_axis.y * p.0 + pose.y_axis.y * p.1 + s * pose.translation.y,
        pose.x_axis.z * p.0 + pose.y_axis.z * p.1 + s * pose.translation.z,
    )
}

pub open spec fn world_corner(pose: Pose, size: Size, anchor: Anchor, k: int) -> (int, int, int) {
    apply_pose(pose, local_corner(size, anchor, k))
}

pub open spec fn sub3(a: (int, int, int), b: (int, int, int)) -> (int, int, int) {
    (a.0 - b.0, a.1 - b.1, a.2 - b.2)
}

pub open spec fn cross(a: (int, int, int), b: (int, int, int)) -> (int, int, int) {
    (a.1 * b.2 - a.2 * b.1, a.2 * b.0 - a.0 * b.2, a.0 * b.1 - a.1 * b.0)
}

/// Cross product of the bottom edge and the left edge, in world space.
pub open spec fn face_normal(pose: Pose, size: Size, anchor: Anchor) -> (int, int, int) {
    let bl = world_corner(pose, size, anchor, 0);
    cross(sub3(world_corner(pose, size, anchor, 1), bl), sub3(world_corner(pose, size, anchor, 3), bl))
}

pub open spec fn point_of(p: (int, int, int)) -> Point3 {
    Point3 { x: p.0 as i64, y: p.1 as i64, z: p.2 as i64 }
}

pub open spec fn normal_of(p: (int, int, int)) -> Normal3 {
    Normal3 { x: p.0 as i128, y: p.1 as i128, z: p.2 as i128 }
}

pub open spec fn quad_from(pose: Pose, size: Size, sprite: Sprite3d, uvs: UvCorners) -> Quad {
    Quad {
        bl: point_of(world_corner(pose, size, sprite.anchor, 0)),
        br: point_of(world_corner(pose, size, sprite.anchor, 1)),
        tr: point_of(world_corner(pose, size, sprite.anchor, 2)),
        tl: point_of(world_corner(pose, size, sprite.anchor, 3)),
        uvs,
        normal: normal_of(face_normal(pose, size, sprite.anchor)),
        color: sprite.color,
    }
}

/// The quad of a sprite, or `None` where it is skipped this frame: its
/// material is not loaded, its size does not resolve, or its crop cannot be
/// mapped.
pub open spec fn spec_build_quad(
    sprite: Sprite3d,
    pose: Pose,
    loaded: bool,
    native: Option<Size>,
) -> Option<Quad> {
    if !loaded {
        None
    } else {
        match (spec_effective_size(sprite, native), spec_uv_corners(sprite, native)) {
            (Some(size), Some(uvs)) => Some(quad_from(pose, size, sprite, uvs)),
            _ => None,
        }
    }
}

proof fn lemma_mul_within(a: int, b: int, x: int, y: int)
    requires
        -x <= a <= x,
        -y <= b <= y,
    ensures
        -(x * y) <= a * b <= x * y,
{
    assert(-(x * y) <= a * b <= x * y) by (nonlinear_arith)
        requires
            -x <= a <= x,
            -y <= b <= y,
    ;
}

/// Corner `k` of a sprite of the given size before the pose, in units of
/// `1 / (2 * ANCHOR_UNIT)`, with z = 0.
fn local_corner_of(size: Size, ax: i64, ay: i64, sx: i64, sy: i64) -> (r: Point3)
    requires
        size.bounded(),
        -(ANCHOR_UNIT / 2) <= ax <= ANCHOR_UNIT / 2,
        -(ANCHOR_UNIT / 2) <= ay <= ANCHOR_UNIT / 2,
        sx == 1 || sx == -1,
        sy == 1 || sy == -1,
    ensures
        r.x == sx * size.width * ANCHOR_UNIT - 2 * ax * size.width,
        r.y == sy * size.height * ANCHOR_UNIT - 2 * ay * size.height,
        r.z == 0,
        -MAX_LOCAL <= r.x <= MAX_LOCAL,
        -MAX_LOCAL <= r.y <= MAX_LOCAL,
{
    proof {
        if sx == 1 { assert(sx * size.width == size.width); } else { assert(sx * size.width == -size.width); }
        if sy == 1 { assert(sy * size.height == size.height); } else { assert(sy * size.height == -size.height); }
        lemma_mul_within(sx * size.width, ANCHOR_UNIT as int, MAX_EXTENT as int, ANCHOR_UNIT as int);
        lemma_mul_within(2 * ax, size.width as int, ANCHOR_UNIT as int, MAX_EXTENT as int);
        lemma_mul_within(sy * size.height, ANCHOR_UNIT as int, MAX_EXTENT as int, ANCHOR_UNIT as int);
        lemma_mul_within(2 * ay, size.height as int, ANCHOR_UNIT as int, MAX_EXTENT as int);
        assert(2 * ax * size.width == (2 * ax) * size.width);
        assert(2 * ay * size.height == (2 * ay) * size.height);
    }
    Point3 {
        x: sx * size.width * ANCHOR_UNIT - 2 * ax * size.width,
        y: sy * size.height * ANCHOR_UNIT - 2 * ay * size.height,
        z: 0,
    }
}

/// Largest magnitude of a world coordinate of a quad corner.
pub const MAX_WORLD: i64 = 0x80_0000_0000_0000;

/// The four corners of a sprite of the given size before the pose, in
/// units of `1 / (2 * ANCHOR_UNIT)`, with z = 0.
pub fn local_corners(size: Size, anchor: &Anchor) -> (r: (Point3, Point3, Point3, Point3))
    requires
        size.bounded(),
        anchor.bounded(),
    ensures
        (r.0.x as int, r.0.y as int) == local_corner(size, *anchor, 0),
        (r.1.x as int, r.1.y as int) == local_corner(size, *anchor, 1),
        (r.2.x as int, r.2.y as int) == local_corner(size, *anchor, 2),
        (r.3.x as int, r.3.y as int) == local_corner(size, *anchor, 3),
        r.0.z == 0 && r.1.z == 0 && r.2.z == 0 && r.3.z == 0,
        within(r.0.x, MAX_LOCAL) && within(r.0.y, MAX_LOCAL),
        within(r.1.x, MAX_LOCAL) && within(r.1.y, MAX_LOCAL),
        within(r.2.x, MAX_LOCAL) && within(r.2.y, MAX_LOCAL),
        within(r.3.x, MAX_LOCAL) && within(r.3.y, MAX_LOCAL),
{
    let (ax, ay) = anchor.as_vec();
    (
        local_corner_of(size, ax, ay, -1, -1),
        local_corner_of(size, ax, ay, 1, -1),
        local_corner_of(size, ax, ay, 1, 1),
        local_corner_of(size, ax, ay, -1, 1),
    )
}

/// Maps a point of the local plane z = 0 to world space.
pub fn transform_planar(pose: &Pose, p: Point3) -> (r: Point3)
    requires
        pose.bounded(),
        within(p.x, MAX_LOCAL),
        within(p.y, MAX_LOCAL),
    ensures
        (r.x as int, r.y as int, r.z as int) == apply_pose(*pose, (p.x as int, p.y as int)),
        within(r.x, MAX_WORLD) && within(r.y, MAX_WORLD) && within(r.z, MAX_WORLD),
{
    proof {
        let (l, m) = (MAX_LINEAR as int, MAX_LOCAL as int);
        lemma_mul_within(pose.x_axis.x as int, p.x as int, l, m);
        lemma_mul_within(pose.x_axis.y as int, p.x as int, l, m);
        lemma_mul_within(pose.x_axis.z as int, p.x as int, l, m);
        lemma_mul_within(pose.y_axis.x as int, p.y as int, l, m);
        lemma_mul_within(pose.y_axis.y as int, p.y as int, l, m);
        lemma_mul_within(pose.y_axis.z as int, p.y as int, l, m);
    }
    let s: i64 = 2 * ANCHOR_UNIT;
    Point3 {
        x: pose.x_axis.x * p.x + pose.y_axis.x * p.y + s * pose.translation.x,
        y: pose.x_axis.y * p.x + pose.y_axis.y * p.y + s * pose.translation.y,
        z: pose.x_axis.z * p.x + pose.y_axis.z * p.y + s * pose.translation.z,
    }
}

/// Cross product of `b - a` and `c - a`.
fn edge_cross(a: Point3, b: Point3, c: Point3) -> (r: Normal3)
    requires
        within(a.x, MAX_WORLD) && within(a.y, MAX_WORLD) && within(a.z, MAX_WORLD),
        within(b.x, MAX_WORLD) && within(b.y, MAX_WORLD) && within(b.z, MAX_WORLD),
        within(c.x, MAX_WORLD) && within(c.y, MAX_WORLD) && within(c.z, MAX_WORLD),
    ensures
        (r.x as int, r.y as int, r.z as int) == cross(
            sub3((b.x as int, b.y as int, b.z as int), (a.x as int, a.y as int, a.z as int)),
            sub3((c.x as int, c.y as int, c.z as int), (a.x as int, a.y as int, a.z as int)),
        ),
{
    let (ux, uy, uz) = (b.x as i128 - a.x as i128, b.y as i128 - a.y as i128, b.z as i128 - a.z as i128);
    let (vx, vy, vz) = (c.x as i128 - a.x as i128, c.y as i128 - a.y as i128, c.z as i128 - a.z as i128);
    proof {
        let m = 2 * MAX_WORLD as int;
        lemma_mul_within(ux as int, vx as int, m, m);
        lemma_mul_within(ux as int, vy as int, m, m);
        lemma_mul_within(ux as int, vz as int, m, m);
        lemma_mul_within(uy as int, vx as int, m, m);
        lemma_mul_within(uy as int, vy as int, m, m);
        lemma_mul_within(uy as int, vz as int, m, m);
        lemma_mul_within(uz as int, vx as int, m, m);
        lemma_mul_within(uz as int, vy as int, m, m);
        lemma_mul_within(uz as int, vz as int, m, m);
    }
    Normal3 { x: uy * vz - uz * vy, y: uz * vx - ux * vz, z: ux * vy - uy * vx }
}

/// Builds the quad of one sprite instance; `None` where the sprite is
/// skipped this frame (see `spec_build_quad`).
pub fn build_quad(
    sprite: &Sprite3d,
    pose: &Pose,
    material_loaded: bool,
    material_size: Option<Size>,
) -> (r: Option<Quad>)
    requires
        sprite.bounded(),
        pose.bounded(),
        material_size matches Some(n) ==> n.bounded(),
    ensures
        r == spec_build_quad(*sprite, *pose, material_loaded, material_size),
{
    if !material_loaded {
        return None;
    }
    let size = match effective_size(sprite, material_size) {
        Some(size) => size,
        None => {
            return None;
        },
    };
    let uvs = match uv_corners(sprite, material_size) {
        Some(uvs) => uvs,
        None => {
            return None;
        },
    };
    let (l_bl, l_br, l_tr, l_tl) = local_corners(size, &sprite.anchor);
    let bl = transform_planar(pose, l_bl);
    let br = transform_planar(pose, l_br);
    let tr = transform_planar(pose, l_tr);
    let tl = transform_planar(pose, l_tl);
    let normal = edge_cross(bl, br, tl);
    Some(Quad { bl, br, tr, tl, uvs, normal, color: sprite.color })
}

} // verus!
