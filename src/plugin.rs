//! The per-frame pipeline: prune, clear, then submit every visible sprite.
use vstd::prelude::*;
use crate::batch::{
    cleared, contains_material, dropped, entries_wf, has_material, kept, lemma_prune, spec_submit, EntryView,
    MeshBatch,
};
use crate::geometry::{Pose, Size};
use crate::mesh::MeshView;
use crate::quad::{spec_build_quad, Quad};
use crate::sprite::Sprite3d;

verus! {

/// Most sprites one frame may hold: four vertices each must be indexable
/// by `u32`.
pub const MAX_SPRITES: usize = 0x3FFF_FFFF;

/// One sprite instance as the frame sees it.
#[derive(Clone, Copy, Debug, PartialEq, Eq, Structural)]
pub struct Sprite3dBundle {
    pub sprite3d: Sprite3d,
    /// World pose, already propagated for this frame.
    pub transform: Pose,
    /// Identifier of the material; sprites with one material share a mesh.
    pub material: u64,
    /// Visibility, already propagated for this frame.
    pub visible: bool,
    /// The material's native pixel size, where it can be resolved.
    pub material_size: Option<Size>,
}

impl Sprite3dBundle {
    pub open spec fn bounded(self) -> bool {
        &&& self.sprite3d.bounded()
        &&& self.transform.bounded()
        &&& (self.material_size matches Some(n) ==> n.bounded())
    }
}

/// The quad a sprite instance contributes, if any.
pub open spec fn instance_quad(b: Sprite3dBundle, loaded: Seq<u64>) -> Option<Quad> {
    if b.visible {
        spec_build_quad(b.sprite3d, b.transform, loaded.contains(b.material), b.material_size)
    } else {
        None
    }
}

/// The mesh of material `m` after submitting `sprites` in order to an empty
/// buffer.
pub open spec fn material_mesh(sprites: Seq<Sprite3dBundle>, loaded: Seq<u64>, m: u64) -> MeshView
    decreases sprites.len(),
{
    if sprites.len() == 0 {
        MeshView::empty()
    } else {
        let prev = material_mesh(sprites.drop_last(), loaded, m);
        let b = sprites.last();
        match instance_quad(b, loaded) {
            Some(q) => if b.material == m {
                prev.append_quad(q)
            } else {
                prev
            },
            None => prev,
        }
    }
}

/// Each entry holds exactly its material's sprites, every material that
/// draws something has an entry, and every entry's material is loaded.
pub open spec fn reflects(es: Seq<EntryView>, sprites: Seq<Sprite3dBundle>, loaded: Seq<u64>) -> bool {
    &&& forall|j: int| 0 <= j < es.len()
        ==> #[trigger] es[j].mesh == material_mesh(sprites, loaded, es[j].material)
    &&& forall|m: u64| !has_material(es, m)
        ==> #[trigger] material_mesh(sprites, loaded, m) == MeshView::empty()
    &&& forall|j: int| 0 <= j < es.len() ==> loaded.contains(#[trigger] es[j].material)
}

/// `new` is what one frame makes of `old`: the entries of loaded materials
/// stay first, in order, with their render resources; after them come new
/// entries, each for a material that draws something; and every mesh holds
/// this frame's sprites.
pub open spec fn rebuilt(
    old: Seq<EntryView>,
    new: Seq<EntryView>,
    sprites: Seq<Sprite3dBundle>,
    loaded: Seq<u64>,
) -> bool {
    let k = kept(old, loaded);
    &&& reflects(new, sprites, loaded)
    &&& k.len() <= new.len()
    &&& forall|j: int| 0 <= j < k.len()
        ==> #[trigger] new[j].material == k[j].material && new[j].resource == k[j].resource
    &&& forall|j: int| k.len() <= j < new.len()
        ==> #[trigger] material_mesh(sprites, loaded, new[j].material).vertex_count() > 0
}

/// What a frame asks of the renderer.
#[derive(Debug)]
pub struct FrameReport {
    /// Render resources to destroy.
    pub destroyed: Vec<u64>,
    /// New render resources to create, each showing its entry's mesh.
    pub created: Vec<u64>,
}

/// The frame pipeline; holds the registry between frames.
#[derive(Debug)]
pub struct Sprite3dPlugin {
    pub batch: MeshBatch,
}

proof fn lemma_step(s: Seq<Sprite3dBundle>, loaded: Seq<u64>, i: int, m: u64)
    requires
        0 <= i < s.len(),
    ensures
        material_mesh(s.take(i + 1), loaded, m) == match instance_quad(s[i], loaded) {
            Some(q) => if s[i].material == m {
                material_mesh(s.take(i), loaded, m).append_quad(q)
            } else {
                material_mesh(s.take(i), loaded, m)
            },
            None => material_mesh(s.take(i), loaded, m),
        },
{
    assert(s.take(i + 1).drop_last() =~= s.take(i));
    assert(s.take(i + 1).last() == s[i]);
}

impl Sprite3dPlugin {
    pub fn new() -> (r: Sprite3dPlugin)
        ensures
            r.batch.spec_entries().len() == 0,
            r.batch.next_resource == 0,
            r.batch.well_formed(),
    {
        Sprite3dPlugin { batch: MeshBatch::new() }
    }

    /// Runs one frame: drops the entries of materials not in `loaded`,
    /// empties the others, and submits every visible sprite in order.
    pub fn rebuild(&mut self, sprites: &Vec<Sprite3dBundle>, loaded: &Vec<u64>) -> (r: FrameReport)
        requires
            old(self).batch.well_formed(),
            sprites@.len() <= MAX_SPRITES,
            old(self).batch.next_resource + sprites@.len() <= u64::MAX,
            forall|i: int| 0 <= i < sprites@.len() ==> (#[trigger] sprites@[i]).bounded(),
        ensures
            final(self).batch.well_formed(),
            rebuilt(old(self).batch.spec_entries(), final(self).batch.spec_entries(), sprites@, loaded@),
            r.destroyed@ == dropped(old(self).batch.spec_entries(), loaded@),
            r.created@.len() + kept(old(self).batch.spec_entries(), loaded@).len()
                == final(self).batch.spec_entries().len(),
            forall|j: int| 0 <= j < r.created@.len() ==> #[trigger] r.created@[j]
                == final(self).batch.spec_entries()[kept(old(self).batch.spec_entries(), loaded@).len() + j].resource,
            forall|j: int| 0 <= j < r.created@.len()
                ==> #[trigger] r.created@[j] >= old(self).batch.next_resource,
    {
        let ghost orig = self.batch.spec_entries();
        let ghost k = kept(orig, loaded@);
        proof {
            lemma_prune(orig, loaded@, self.batch.next_resource);
        }
        let destroyed = self.batch.remove_unloaded_meshes(loaded);
        self.batch.clear_meshes();
        let ghost start_next = self.batch.next_resource;
        let ghost s = sprites@;
        proof {
            let es = self.batch.spec_entries();
            assert forall|j: int| 0 <= j < es.len() implies loaded@.contains(#[trigger] es[j].material) by {
                assert(k.contains(k[j]));
            }
            assert(s.take(0) =~= Seq::<Sprite3dBundle>::empty());
        }
        let mut created: Vec<u64> = Vec::new();
        let mut i: usize = 0;
        while i < sprites.len()
            invariant
                i <= s.len(),
                s == sprites@,
                s.len() <= MAX_SPRITES,
                forall|t: int| 0 <= t < s.len() ==> (#[trigger] s[t]).bounded(),
                self.batch.well_formed(),
                start_next <= self.batch.next_resource <= start_next + i,
                forall|j: int| 0 <= j < created@.len() ==> #[trigger] created@[j] >= start_next,
                start_next + s.len() <= u64::MAX,
                k.len() <= self.batch.spec_entries().len(),
                forall|j: int| 0 <= j < k.len() ==> #[trigger] self.batch.spec_entries()[j].material
                    == k[j].material && self.batch.spec_entries()[j].resource == k[j].resource,
                forall|j: int| 0 <= j < self.batch.spec_entries().len()
                    ==> #[trigger] self.batch.spec_entries()[j].mesh
                        == material_mesh(s.take(i as int), loaded@, self.batch.spec_entries()[j].material),
                forall|j: int| 0 <= j < self.batch.spec_entries().len()
                    ==> #[trigger] self.batch.spec_entries()[j].mesh.vertex_count() <= 4 * i,
                forall|m: u64| !has_material(self.batch.spec_entries(), m)
                    ==> #[trigger] material_mesh(s.take(i as int), loaded@, m) == MeshView::empty(),
                forall|j: int| 0 <= j < self.batch.spec_entries().len()
                    ==> loaded@.contains(#[trigger] self.batch.spec_entries()[j].material),
                forall|j: int| k.len() <= j < self.batch.spec_entries().len()
                    ==> #[trigger] material_mesh(s.take(i as int), loaded@, self.batch.spec_entries()[j].material).vertex_count() > 0,
                created@.len() + k.len() == self.batch.spec_entries().len(),
                forall|j: int| 0 <= j < created@.len() ==> #[trigger] created@[j]
                    == self.batch.spec_entries()[k.len() + j].resource,
            decreases s.len() - i,
        {
            let b = &sprites[i];
            let ghost es = self.batch.spec_entries();
            let ghost q = instance_quad(*b, loaded@);
            if b.visible {
                let is_loaded = contains_material(loaded, b.material);
                let outcome = self.batch.submit(
                    &b.sprite3d,
                    &b.transform,
                    b.material,
                    is_loaded,
                    b.material_size,
                );
                if let crate::batch::SubmitOutcome::Created(id) = outcome {
                    created.push(id);
                }
            }
            proof {
                let fin = self.batch.spec_entries();
                let t = s.take(i + 1);
                assert forall|m: u64| !has_material(fin, m)
                    implies #[trigger] material_mesh(t, loaded@, m) == MeshView::empty() by {
                    lemma_step(s, loaded@, i as int, m);
                    if has_material(es, m) {
                        let c = choose|c: int| 0 <= c < es.len() && es[c].material == m;
                        assert(fin[c].material == m);
                    }
                    if q is Some && b.material == m {
                        if !has_material(es, m) {
                            assert(fin[es.len() as int].material == m);
                        }
                    }
                }
            }
            proof {
                let fin = self.batch.spec_entries();
                let t = s.take(i + 1);
                assert forall|j: int| 0 <= j < fin.len()
                    implies #[trigger] fin[j].mesh == material_mesh(t, loaded@, fin[j].material)
                        && fin[j].mesh.vertex_count() <= 4 * (i + 1) by {
                    lemma_step(s, loaded@, i as int, fin[j].material);
                    if q is Some {
                        if has_material(es, b.material) {
                            let c = choose|c: int| 0 <= c < es.len() && es[c].material == b.material;
                            if j != c {
                                assert(fin[j] == es[j]);
                            } else {
                                assert(es[c].mesh.append_quad(q->Some_0).vertex_count()
                                    == es[c].mesh.vertex_count() + 4);
                            }
                        } else if j < es.len() {
                            assert(fin[j] == es[j]);
                        } else {
                            assert(MeshView::empty().append_quad(q->Some_0).vertex_count() == 4);
                        }
                    }
                }
            }
            i += 1;
        }
        assert(s.take(s.len() as int) =~= s);
        FrameReport { destroyed, created }
    }
}

proof fn lemma_kept_all(es: Seq<EntryView>, loaded: Seq<u64>)
    requires
        forall|j: int| 0 <= j < es.len() ==> loaded.contains(#[trigger] es[j].material),
    ensures
        kept(es, loaded) == es,
        dropped(es, loaded).len() == 0,
    decreases es.len(),
{
    if es.len() > 0 {
        let s = es.drop_last();
        assert forall|j: int| 0 <= j < s.len() implies loaded.contains(#[trigger] s[j].material) by {
            assert(s[j] == es[j]);
        }
        lemma_kept_all(s, loaded);
        assert(loaded.contains(es[es.len() - 1].material));
        assert(s.push(es.last()) =~= es);
    }
}

/// A sprite that is not visible adds no vertex to any material's mesh,
/// whatever its descriptor holds.
pub proof fn lemma_hidden_sprite_draws_nothing(
    sprites: Seq<Sprite3dBundle>,
    b: Sprite3dBundle,
    loaded: Seq<u64>,
    m: u64,
)
    requires
        !b.visible,
    ensures
        material_mesh(sprites.push(b), loaded, m) == material_mesh(sprites, loaded, m),
{
    assert(sprites.push(b).drop_last() =~= sprites);
}

/// Two consecutive frames over the same sprites and the same loaded
/// materials leave the registry exactly as the first one left it: the same
/// entries, render resources and meshes, and nothing to destroy.
pub proof fn lemma_rebuild_is_stable(
    before: Seq<EntryView>,
    first: Seq<EntryView>,
    second: Seq<EntryView>,
    second_next: u64,
    sprites: Seq<Sprite3dBundle>,
    loaded: Seq<u64>,
)
    requires
        entries_wf(second, second_next),
        rebuilt(before, first, sprites, loaded),
        rebuilt(first, second, sprites, loaded),
    ensures
        second == first,
        dropped(first, loaded).len() == 0,
{
    lemma_kept_all(first, loaded);
    if second.len() > first.len() {
        let n = first.len() as int;
        let m = second[n].material;
        assert(material_mesh(sprites, loaded, m).vertex_count() > 0);
        assert(MeshView::empty().vertex_count() == 0);
        assert(has_material(first, m));
        let c = choose|c: int| 0 <= c < first.len() && first[c].material == m;
        assert(second[c].material == m);
    }
    assert forall|j: int| 0 <= j < first.len() implies second[j] == first[j] by {
        assert(second[j].material == first[j].material);
        assert(second[j].mesh == material_mesh(sprites, loaded, second[j].material));
        assert(first[j].mesh == material_mesh(sprites, loaded, first[j].material));
    }
    assert(second =~= first);
}

} // verus!
