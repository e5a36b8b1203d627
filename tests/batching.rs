use sprite3d_batch::{
    build_quad, contains_material, effective_size, local_corners, transform_planar, uv_corners,
    Anchor, Fraction, LinearColor, MeshBatch, PixelRect, Point3, Pose, Size, Sprite3d,
    Sprite3dBundle, Sprite3dPlugin, SubmitOutcome, Uv, ANCHOR_UNIT, POSE_UNIT,
};

const LOCAL: i64 = 2 * ANCHOR_UNIT;
const WORLD: i64 = 2 * ANCHOR_UNIT * POSE_UNIT;

fn white() -> LinearColor {
    LinearColor { red: 0x3f80_0000, green: 0x3f80_0000, blue: 0x3f80_0000, alpha: 0x3f80_0000 }
}

fn sprite() -> Sprite3d {
    Sprite3d {
        color: white(),
        flip_x: false,
        flip_y: false,
        custom_size: None,
        rect: None,
        anchor: Anchor::Center,
    }
}

fn size(width: i64, height: i64) -> Size {
    Size { width, height }
}

fn frac(num: i64, den: i64) -> Fraction {
    Fraction { num, den }
}

fn uv(u: Fraction, v: Fraction) -> Uv {
    Uv { u, v }
}

fn bundle(material: u64, visible: bool) -> Sprite3dBundle {
    Sprite3dBundle {
        sprite3d: sprite(),
        transform: Pose::identity(),
        material,
        visible,
        material_size: Some(size(64, 64)),
    }
}

fn at(x: i64, y: i64, z: i64) -> Point3 {
    Point3 { x, y, z }
}

#[test]
fn custom_size_wins_over_rect_and_native() {
    let mut s = sprite();
    s.custom_size = Some(size(10, 5));
    s.rect = Some(PixelRect { min_x: 3, min_y: 4, max_x: 40, max_y: 50 });
    assert_eq!(effective_size(&s, Some(size(64, 64))), Some(size(10, 5)));
}

#[test]
fn rect_size_wins_over_native() {
    let mut s = sprite();
    s.rect = Some(PixelRect { min_x: 0, min_y: 0, max_x: 48, max_y: 32 });
    assert_eq!(effective_size(&s, Some(size(64, 64))), Some(size(48, 32)));
}

#[test]
fn native_size_is_the_fallback() {
    assert_eq!(effective_size(&sprite(), Some(size(64, 32))), Some(size(64, 32)));
}

#[test]
fn unresolved_size_skips_the_sprite() {
    assert_eq!(effective_size(&sprite(), None), None);
    let mut batch = MeshBatch::new();
    let r = batch.submit(&sprite(), &Pose::identity(), 7, true, None);
    assert_eq!(r, SubmitOutcome::Skipped);
    assert!(batch.entries.is_empty());
}

#[test]
fn unloaded_material_skips_the_sprite() {
    let mut s = sprite();
    s.custom_size = Some(size(10, 5));
    assert_eq!(build_quad(&s, &Pose::identity(), false, Some(size(64, 64))), None);
}

#[test]
fn rect_without_native_size_is_skipped() {
    let mut s = sprite();
    s.rect = Some(PixelRect { min_x: 0, min_y: 0, max_x: 8, max_y: 8 });
    assert_eq!(uv_corners(&s, None), None);
    assert_eq!(build_quad(&s, &Pose::identity(), true, None), None);
}

#[test]
fn centered_anchor_corners() {
    let (bl, br, tr, tl) = local_corners(size(64, 32), &Anchor::Center);
    assert_eq!(bl, at(-32 * LOCAL, -16 * LOCAL, 0));
    assert_eq!(br, at(32 * LOCAL, -16 * LOCAL, 0));
    assert_eq!(tr, at(32 * LOCAL, 16 * LOCAL, 0));
    assert_eq!(tl, at(-32 * LOCAL, 16 * LOCAL, 0));
}

#[test]
fn bottom_right_anchor_corners() {
    let (bl, br, tr, tl) = local_corners(size(64, 32), &Anchor::BottomRight);
    assert_eq!(bl, at(-64 * LOCAL, 0, 0));
    assert_eq!(br, at(0, 0, 0));
    assert_eq!(tr, at(0, 32 * LOCAL, 0));
    assert_eq!(tl, at(-64 * LOCAL, 32 * LOCAL, 0));
    let custom = Anchor::Custom(ANCHOR_UNIT / 2, -ANCHOR_UNIT / 2);
    assert_eq!(local_corners(size(64, 32), &custom), (bl, br, tr, tl));
}

#[test]
fn default_uvs_without_flip() {
    let c = uv_corners(&sprite(), None).unwrap();
    assert_eq!(c.bl, uv(frac(0, 1), frac(1, 1)));
    assert_eq!(c.br, uv(frac(1, 1), frac(1, 1)));
    assert_eq!(c.tr, uv(frac(1, 1), frac(0, 1)));
    assert_eq!(c.tl, uv(frac(0, 1), frac(0, 1)));
}

#[test]
fn flip_x_swaps_u() {
    let mut s = sprite();
    s.flip_x = true;
    let c = uv_corners(&s, None).unwrap();
    assert_eq!((c.bl.u, c.br.u, c.tr.u, c.tl.u), (frac(1, 1), frac(0, 1), frac(0, 1), frac(1, 1)));
    assert_eq!((c.bl.v, c.br.v, c.tr.v, c.tl.v), (frac(1, 1), frac(1, 1), frac(0, 1), frac(0, 1)));
}

#[test]
fn flip_y_swaps_v() {
    let mut s = sprite();
    s.flip_y = true;
    let c = uv_corners(&s, None).unwrap();
    assert_eq!((c.bl.u, c.br.u, c.tr.u, c.tl.u), (frac(0, 1), frac(1, 1), frac(1, 1), frac(0, 1)));
    assert_eq!((c.bl.v, c.br.v, c.tr.v, c.tl.v), (frac(0, 1), frac(0, 1), frac(1, 1), frac(1, 1)));
}

#[test]
fn both_flips_are_independent() {
    let mut s = sprite();
    s.flip_x = true;
    s.flip_y = true;
    let c = uv_corners(&s, None).unwrap();
    assert_eq!(c.bl, uv(frac(1, 1), frac(0, 1)));
    assert_eq!(c.br, uv(frac(0, 1), frac(0, 1)));
    assert_eq!(c.tr, uv(frac(0, 1), frac(1, 1)));
    assert_eq!(c.tl, uv(frac(1, 1), frac(1, 1)));
}

#[test]
fn rect_maps_to_uvs() {
    let mut s = sprite();
    s.rect = Some(PixelRect { min_x: 10, min_y: 10, max_x: 48, max_y: 42 });
    let c = uv_corners(&s, Some(size(64, 64))).unwrap();
    assert_eq!(c.bl, uv(frac(10, 64), frac(42, 64)));
    assert_eq!(c.tr, uv(frac(48, 64), frac(10, 64)));
    assert_eq!(c.br, uv(frac(48, 64), frac(42, 64)));
    assert_eq!(c.tl, uv(frac(10, 64), frac(10, 64)));
}

#[test]
fn flip_applies_after_rect_mapping() {
    let mut s = sprite();
    s.rect = Some(PixelRect { min_x: 10, min_y: 10, max_x: 48, max_y: 42 });
    s.flip_x = true;
    let c = uv_corners(&s, Some(size(64, 64))).unwrap();
    assert_eq!(c.bl, uv(frac(48, 64), frac(42, 64)));
    assert_eq!(c.tr, uv(frac(10, 64), frac(10, 64)));
}

#[test]
fn pose_translates_and_scales() {
    let mut pose = Pose::identity();
    pose.translation = at(3 * POSE_UNIT, -2 * POSE_UNIT, 5 * POSE_UNIT);
    pose.x_axis = at(2 * POSE_UNIT, 0, 0);
    let p = transform_planar(&pose, at(LOCAL, LOCAL, 0));
    assert_eq!(p, at(5 * WORLD, -WORLD, 5 * WORLD));
}

#[test]
fn quad_positions_normal_and_color() {
    let mut s = sprite();
    s.custom_size = Some(size(64, 32));
    s.color = LinearColor { red: 1, green: 2, blue: 3, alpha: 4 };
    let q = build_quad(&s, &Pose::identity(), true, None).unwrap();
    assert_eq!(q.bl, at(-32 * WORLD, -16 * WORLD, 0));
    assert_eq!(q.tr, at(32 * WORLD, 16 * WORLD, 0));
    assert_eq!(q.normal.x, 0);
    assert_eq!(q.normal.y, 0);
    assert_eq!(q.normal.z, (64 * WORLD as i128) * (32 * WORLD as i128));
    assert_eq!(q.color, LinearColor { red: 1, green: 2, blue: 3, alpha: 4 });
}

#[test]
fn rotated_pose_turns_the_normal() {
    // A quarter turn about the y axis: x goes to -z, z goes to x.
    let pose = Pose {
        x_axis: at(0, 0, -POSE_UNIT),
        y_axis: at(0, POSE_UNIT, 0),
        z_axis: at(POSE_UNIT, 0, 0),
        translation: at(0, 0, 0),
    };
    let mut s = sprite();
    s.custom_size = Some(size(2, 2));
    let q = build_quad(&s, &pose, true, None).unwrap();
    assert_eq!(q.br, at(0, -WORLD, -WORLD));
    assert!(q.normal.x > 0 && q.normal.y == 0 && q.normal.z == 0);
}

#[test]
fn submit_appends_quads_with_indices() {
    let mut batch = MeshBatch::new();
    let pose = Pose::identity();
    assert_eq!(batch.submit(&sprite(), &pose, 9, true, Some(size(8, 8))), SubmitOutcome::Created(0));
    assert_eq!(batch.submit(&sprite(), &pose, 9, true, Some(size(8, 8))), SubmitOutcome::Appended);
    assert_eq!(batch.submit(&sprite(), &pose, 4, true, Some(size(8, 8))), SubmitOutcome::Created(1));
    assert_eq!(batch.entries.len(), 2);
    let mesh = &batch.entries[0].mesh;
    assert_eq!(mesh.positions.len(), 8);
    assert_eq!(mesh.uvs.len(), 8);
    assert_eq!(mesh.normals.len(), 8);
    assert_eq!(mesh.colors.len(), 8);
    assert_eq!(mesh.indices, vec![0, 1, 2, 2, 3, 0, 4, 5, 6, 6, 7, 4]);
}

#[test]
fn rebuild_keeps_buffers_well_formed() {
    let mut plugin = Sprite3dPlugin::new();
    let sprites = vec![bundle(1, true), bundle(2, true), bundle(1, true), bundle(3, false)];
    let report = plugin.rebuild(&sprites, &vec![1, 2, 3]);
    assert_eq!(report.created, vec![0, 1]);
    assert!(report.destroyed.is_empty());
    for e in &plugin.batch.entries {
        let n = e.mesh.positions.len();
        assert_eq!(n % 4, 0);
        assert_eq!(e.mesh.uvs.len(), n);
        assert_eq!(e.mesh.normals.len(), n);
        assert_eq!(e.mesh.colors.len(), n);
        assert_eq!(e.mesh.indices.len() % 6, 0);
        assert!(e.mesh.indices.iter().all(|&i| (i as usize) < n));
    }
    assert_eq!(plugin.batch.entries[0].mesh.positions.len(), 8);
    assert_eq!(plugin.batch.entries[1].mesh.positions.len(), 4);
}

#[test]
fn two_rebuilds_give_identical_buffers() {
    let mut plugin = Sprite3dPlugin::new();
    let mut moved = bundle(2, true);
    moved.transform.translation = at(POSE_UNIT, 0, 0);
    let sprites = vec![bundle(1, true), moved, bundle(1, true)];
    let loaded = vec![1, 2];
    plugin.rebuild(&sprites, &loaded);
    let first: Vec<_> = plugin
        .batch
        .entries
        .iter()
        .map(|e| (e.material, e.resource, e.mesh.positions.clone(), e.mesh.uvs.clone(), e.mesh.indices.clone()))
        .collect();
    let report = plugin.rebuild(&sprites, &loaded);
    assert!(report.created.is_empty() && report.destroyed.is_empty());
    let second: Vec<_> = plugin
        .batch
        .entries
        .iter()
        .map(|e| (e.material, e.resource, e.mesh.positions.clone(), e.mesh.uvs.clone(), e.mesh.indices.clone()))
        .collect();
    assert_eq!(first, second);
}

#[test]
fn unloading_a_material_prunes_its_entry_once() {
    let mut plugin = Sprite3dPlugin::new();
    let sprites = vec![bundle(1, true), bundle(2, true)];
    plugin.rebuild(&sprites, &vec![1, 2]);
    let kept_resource = plugin.batch.entries[1].resource;
    let report = plugin.rebuild(&sprites, &vec![2]);
    assert_eq!(report.destroyed, vec![0]);
    assert!(report.created.is_empty());
    assert_eq!(plugin.batch.entries.len(), 1);
    assert_eq!(plugin.batch.entries[0].material, 2);
    assert_eq!(plugin.batch.entries[0].resource, kept_resource);
    assert_eq!(plugin.batch.entries[0].mesh.positions.len(), 4);
    let report = plugin.rebuild(&sprites, &vec![2]);
    assert!(report.destroyed.is_empty());
}

#[test]
fn hidden_sprite_contributes_nothing() {
    let mut plugin = Sprite3dPlugin::new();
    let mut hidden = bundle(5, false);
    hidden.sprite3d.custom_size = Some(size(100, 100));
    let report = plugin.rebuild(&vec![hidden], &vec![5]);
    assert!(report.created.is_empty());
    assert!(plugin.batch.entries.is_empty());
    plugin.rebuild(&vec![bundle(5, true), hidden], &vec![5]);
    assert_eq!(plugin.batch.entries[0].mesh.positions.len(), 4);
}

#[test]
fn clearing_keeps_entries() {
    let mut batch = MeshBatch::new();
    batch.submit(&sprite(), &Pose::identity(), 3, true, Some(size(8, 8)));
    batch.clear_meshes();
    assert_eq!(batch.entries.len(), 1);
    assert_eq!(batch.entries[0].resource, 0);
    assert!(batch.entries[0].mesh.positions.is_empty());
    assert!(batch.entries[0].mesh.indices.is_empty());
}

#[test]
fn material_lookup() {
    assert!(contains_material(&vec![4, 9], 9));
    assert!(!contains_material(&vec![4, 9], 5));
}
