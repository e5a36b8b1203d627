//! Batches 3D-placed sprites into one triangle mesh per material.
//!
//! All geometry is exact integer arithmetic on fixed-point values; see
//! `geometry` for the units.

pub mod geometry;
pub mod sprite;
pub mod quad;
pub mod mesh;
pub mod batch;
pub mod plugin;

pub use geometry::{
    Anchor, Fraction, LinearColor, Normal3, PixelRect, Point3, Pose, Size, Uv, ANCHOR_UNIT,
    MAX_COORD, MAX_EXTENT, MAX_LINEAR, MAX_SHIFT, POSE_UNIT,
};
pub use sprite::{effective_size, uv_corners, Sprite3d, UvCorners};
pub use quad::{build_quad, local_corners, transform_planar, Quad, MAX_LOCAL, MAX_WORLD};
pub use mesh::MeshBuffer;
pub use batch::{contains_material, BatchEntry, MeshBatch, SubmitOutcome};
pub use plugin::{FrameReport, Sprite3dBundle, Sprite3dPlugin, MAX_SPRITES};
