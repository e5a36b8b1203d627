//! The registry from material to batched mesh.
use vstd::prelude::*;
use crate::mesh::{MeshBuffer, MeshView};
use crate::geometry::{Pose, Size};
use crate::quad::{build_quad, spec_build_quad, Quad};
use crate::sprite::Sprite3d;

verus! {

/// One batched mesh: the material it draws with, the render resource that
/// shows it, and its vertex data.
#[derive(Debug)]
pub struct BatchEntry {
    pub material: u64,
    pub resource: u64,
    pub mesh: MeshBuffer,
}

/// What a `BatchEntry` holds.
pub struct EntryView {
    pub material: u64,
    pub resource: u64,
    pub mesh: MeshView,
}

impl View for BatchEntry {
    type V = EntryView;

    open spec fn view(&self) -> EntryView {
        EntryView { material: self.material, resource: self.resource, mesh: self.mesh@ }
    }
}

/// What happened to one submitted sprite.
#[derive(Clone, Copy, Debug, PartialEq, Eq, Structural)]
pub enum SubmitOutcome {
    /// Nothing was drawn for it this frame.
    Skipped,
    /// Its quad went to the existing mesh of its material.
    Appended,
    /// Its quad went to a new mesh, shown by the new render resource given.
    Created(u64),
}

/// Material `m` has an entry.
pub open spec fn has_material(es: Seq<EntryView>, m: u64) -> bool {
    exists|j: int| 0 <= j < es.len() && es[j].material == m
}

/// At most one entry per material and per render resource, every resource
/// below the next one to hand out, and every mesh well formed.
pub open spec fn entries_wf(es: Seq<EntryView>, next: u64) -> bool {
    &&& forall|i: int, j: int|
        0 <= i < es.len() && 0 <= j < es.len() && i != j ==> es[i].material != es[j].material
    &&& forall|i: int, j: int|
        0 <= i < es.len() && 0 <= j < es.len() && i != j ==> es[i].resource != es[j].resource
    &&& forall|i: int| 0 <= i < es.len() ==> es[i].resource < next
    &&& forall|i: int| 0 <= i < es.len() ==> (#[trigger] es[i]).mesh.well_formed()
}

/// The entries whose material is loaded, in their order.
pub open spec fn kept(es: Seq<EntryView>, loaded: Seq<u64>) -> Seq<EntryView>
    decreases es.len(),
{
    if es.len() == 0 {
        Seq::empty()
    } else {
        let k = kept(es.drop_last(), loaded);
        if loaded.contains(es.last().material) {
            k.push(es.last())
        } else {
            k
        }
    }
}

/// The render resources of the entries whose material is not loaded, in
/// their order.
pub open spec fn dropped(es: Seq<EntryView>, loaded: Seq<u64>) -> Seq<u64>
    decreases es.len(),
{
    if es.len() == 0 {
        Seq::empty()
    } else {
        let d = dropped(es.drop_last(), loaded);
        if loaded.contains(es.last().material) {
            d
        } else {
            d.push(es.last().resource)
        }
    }
}

/// Every entry with a loaded material is kept unchanged, no other one is,
/// and each unloaded one's render resource is reported once.
pub proof fn lemma_prune(es: Seq<EntryView>, loaded: Seq<u64>, next: u64)
    requires
        entries_wf(es, next),
    ensures
        forall|e: EntryView| #[trigger] kept(es, loaded).contains(e)
            <==> (es.contains(e) && loaded.contains(e.material)),
        forall|r: u64| #[trigger] dropped(es, loaded).contains(r)
            <==> exists|i: int| 0 <= i < es.len() && es[i].resource == r
                && !loaded.contains(es[i].material),
        dropped(es, loaded).no_duplicates(),
        entries_wf(kept(es, loaded), next),
    decreases es.len(),
{
    if es.len() > 0 {
        let s = es.drop_last();
        let x = es.last();
        assert(entries_wf(s, next));
        lemma_prune(s, loaded, next);
        let k = kept(s, loaded);
        let d = dropped(s, loaded);
        assert forall|e: EntryView| #[trigger] kept(es, loaded).contains(e)
            <==> (es.contains(e) && loaded.contains(e.material)) by {
            if es.contains(e) {
                let i = choose|i: int| 0 <= i < es.len() && es[i] == e;
                if i < s.len() {
                    assert(s[i] == e);
                }
            }
            if s.contains(e) {
                let i = choose|i: int| 0 <= i < s.len() && s[i] == e;
                assert(es[i] == e);
            }
            if loaded.contains(x.material) {
                assert(k.push(x).contains(e) <==> (k.contains(e) || e == x)) by {
                    if k.push(x).contains(e) {
                        let i = choose|i: int| 0 <= i < k.push(x).len() && k.push(x)[i] == e;
                        if i < k.len() {
                            assert(k[i] == e);
                        }
                    }
                    if k.contains(e) {
                        let i = choose|i: int| 0 <= i < k.len() && k[i] == e;
                        assert(k.push(x)[i] == e);
                    }
                    assert(k.push(x)[k.len() as int] == x);
                }
            }
            assert(es[es.len() - 1] == x);
        }
        assert forall|r: u64| #[trigger] dropped(es, loaded).contains(r)
            <==> exists|i: int| 0 <= i < es.len() && es[i].resource == r
                && !loaded.contains(es[i].material) by {
            if exists|i: int| 0 <= i < es.len() && es[i].resource == r
                && !loaded.contains(es[i].material) {
                let i = choose|i: int| 0 <= i < es.len() && es[i].resource == r
                    && !loaded.contains(es[i].material);
                if i < s.len() {
                    assert(s[i] == es[i]);
                } else {
                    assert(d.push(x.resource)[d.len() as int] == r);
                }
            }
            if d.contains(r) {
                let i = choose|i: int| 0 <= i < s.len() && s[i].resource == r
                    && !loaded.contains(s[i].material);
                assert(es[i] == s[i]);
            }
            if !loaded.contains(x.material) {
                if d.push(x.resource).contains(r) {
                    let i = choose|i: int| 0 <= i < d.push(x.resource).len() && d.push(x.resource)[i] == r;
                    if i < d.len() {
                        assert(d[i] == r);
                    } else {
                        assert(es[es.len() - 1].resource == r);
                    }
                }
                if d.contains(r) {
                    let i = choose|i: int| 0 <= i < d.len() && d[i] == r;
                    assert(d.push(x.resource)[i] == r);
                }
            }
        }
        if !loaded.contains(x.material) {
            assert(!d.contains(x.resource)) by {
                if d.contains(x.resource) {
                    let i = choose|i: int| 0 <= i < s.len() && s[i].resource == x.resource
                        && !loaded.contains(s[i].material);
                    assert(es[i].resource == es[es.len() - 1].resource);
                }
            }
            let dp = d.push(x.resource);
            assert forall|i: int, j: int| 0 <= i < dp.len() && 0 <= j < dp.len() && i != j
                implies dp[i] != dp[j] by {
                if i < d.len() && j < d.len() {
                    assert(dp[i] == d[i] && dp[j] == d[j]);
                } else if i < d.len() {
                    assert(d.contains(dp[i]));
                } else if j < d.len() {
                    assert(d.contains(dp[j]));
                }
            }
        }
        if loaded.contains(x.material) {
            let kp = k.push(x);
            assert forall|i: int| 0 <= i < k.len() implies k[i].material != x.material
                && k[i].resource != x.resource by {
                assert(k.contains(k[i]));
                let j = choose|j: int| 0 <= j < s.len() && s[j] == k[i];
                assert(es[j] == s[j]);
                assert(es[es.len() - 1] == x);
            }
            assert forall|i: int| 0 <= i < kp.len() implies (#[trigger] kp[i]).mesh.well_formed()
                && kp[i].resource < next by {
                if i < k.len() {
                    assert(kp[i] == k[i]);
                } else {
                    assert(es[es.len() - 1] == x);
                }
            }
            assert forall|i: int, j: int| 0 <= i < kp.len() && 0 <= j < kp.len() && i != j
                implies kp[i].material != kp[j].material && kp[i].resource != kp[j].resource by {
                if i < k.len() && j < k.len() {
                    assert(kp[i] == k[i] && kp[j] == k[j]);
                }
            }
        }
    }
}

/// Whether material `m` is among `loaded`.
pub fn contains_material(loaded: &Vec<u64>, m: u64) -> (r: bool)
    ensures
        r == loaded@.contains(m),
{
    let mut j: usize = 0;
    while j < loaded.len()
        invariant
            j <= loaded@.len(),
            forall|t: int| 0 <= t < j ==> loaded@[t] != m,
        decreases loaded@.len() - j,
    {
        if loaded[j] == m {
            assert(loaded@[j as int] == m);
            return true;
        }
        j += 1;
    }
    false
}

/// The registry: one entry per material in use.
#[derive(Debug)]
pub struct MeshBatch {
    pub entries: Vec<BatchEntry>,
    /// Render resource identifier that the next new entry receives.
    pub next_resource: u64,
}

impl MeshBatch {
    pub open spec fn spec_entries(&self) -> Seq<EntryView> {
        Seq::new(self.entries@.len(), |i: int| self.entries@[i]@)
    }

    pub open spec fn well_formed(&self) -> bool {
        entries_wf(self.spec_entries(), self.next_resource)
    }

    /// An empty registry.
    pub fn new() -> (r: MeshBatch)
        ensures
            r.spec_entries().len() == 0,
            r.next_resource == 0,
            r.well_formed(),
    {
        MeshBatch { entries: Vec::new(), next_resource: 0 }
    }

    /// Position of the entry of material `m`.
    pub fn find(&self, m: u64) -> (r: Option<usize>)
        ensures
            r matches Some(i) ==> i < self.spec_entries().len()
                && self.spec_entries()[i as int].material == m,
            r is None ==> !has_material(self.spec_entries(), m),
    {
        let mut i: usize = 0;
        while i < self.entries.len()
            invariant
                i <= self.entries@.len(),
                forall|j: int| 0 <= j < i ==> self.spec_entries()[j].material != m,
            decreases self.entries@.len() - i,
        {
            if self.entries[i].material == m {
                return Some(i);
            }
            i += 1;
        }
        None
    }

    /// Removes every entry whose material is not in `loaded`, and returns
    /// their render resources, which the renderer must destroy.
    pub fn remove_unloaded_meshes(&mut self, loaded: &Vec<u64>) -> (destroyed: Vec<u64>)
        requires
            old(self).well_formed(),
        ensures
            final(self).spec_entries() == kept(old(self).spec_entries(), loaded@),
            destroyed@ == dropped(old(self).spec_entries(), loaded@),
            final(self).next_resource == old(self).next_resource,
            final(self).well_formed(),
    {
        let ghost orig = self.spec_entries();
        proof {
            lemma_prune(orig, loaded@, self.next_resource);
        }
        let mut rest: Vec<BatchEntry> = Vec::new();
        std::mem::swap(&mut self.entries, &mut rest);
        let mut destroyed: Vec<u64> = Vec::new();
        let ghost n = orig.len();
        let ghost next = self.next_resource;
        let total: usize = rest.len();
        assert(n == total);
        let mut k: usize = 0;
        while rest.len() > 0
            invariant
                k <= n,
                rest@.len() == n - k,
                forall|j: int| 0 <= j < n - k ==> rest@[j]@ == orig[k + j],
                self.spec_entries() == kept(orig.take(k as int), loaded@),
                destroyed@ == dropped(orig.take(k as int), loaded@),
                n == orig.len(),
                n <= usize::MAX,
                self.next_resource == next,
            decreases rest@.len(),
        {
            let e = rest.remove(0);
            assert(e@ == orig[k as int]);
            assert(orig.take(k + 1).drop_last() =~= orig.take(k as int));
            assert(orig.take(k + 1).last() == orig[k as int]);
            let found = contains_material(loaded, e.material);
            let ghost before = self.spec_entries();
            if found {
                self.entries.push(e);
                assert(self.spec_entries() =~= before.push(e@));
            } else {
                destroyed.push(e.resource);
            }
            k += 1;
            assert forall|j: int| 0 <= j < n - k implies rest@[j]@ == orig[k + j] by {
                assert(rest@[j]@ == orig[k + j]);
            }
        }
        assert(orig.take(n as int) =~= orig);
        assert(entries_wf(kept(orig, loaded@), next));
        destroyed
    }

    /// Empties every entry's mesh; materials, render resources and the
    /// arrays' allocations stay.
    pub fn clear_meshes(&mut self)
        requires
            old(self).well_formed(),
        ensures
            final(self).spec_entries() == cleared(old(self).spec_entries()),
            final(self).next_resource == old(self).next_resource,
            final(self).well_formed(),
    {
        let ghost orig = self.spec_entries();
        let mut rest: Vec<BatchEntry> = Vec::new();
        std::mem::swap(&mut self.entries, &mut rest);
        let ghost n = orig.len();
        let ghost next = self.next_resource;
        let total: usize = rest.len();
        assert(n == total);
        let mut k: usize = 0;
        while rest.len() > 0
            invariant
                k <= n,
                rest@.len() == n - k,
                forall|j: int| 0 <= j < n - k ==> rest@[j]@ == orig[k + j],
                self.spec_entries() == cleared(orig.take(k as int)),
                n == orig.len(),
                n <= usize::MAX,
                self.next_resource == next,
            decreases rest@.len(),
        {
            let mut e = rest.remove(0);
            assert(e@ == orig[k as int]);
            e.mesh.clear();
            let ghost before = self.spec_entries();
            self.entries.push(e);
            assert(e@ == EntryView { mesh: MeshView::empty(), ..orig[k as int] });
            assert(self.spec_entries() =~= before.push(e@));
            assert(cleared(orig.take(k + 1)) =~= cleared(orig.take(k as int)).push(e@));
            assert(self.spec_entries() =~= cleared(orig.take(k + 1)));
            k += 1;
            assert forall|j: int| 0 <= j < n - k implies rest@[j]@ == orig[k + j] by {
                assert(rest@[j]@ == orig[k + j]);
            }
        }
        assert(orig.take(n as int) =~= orig);
        let ghost fin = self.spec_entries();
        assert forall|i: int| 0 <= i < fin.len() implies (#[trigger] fin[i]).mesh.well_formed() by {
            assert(fin[i].mesh == MeshView::empty());
        }
    }

    /// Appends a quad to the mesh of material `m`, creating that entry with
    /// a new render resource if it is not there.
    fn add_quad(&mut self, m: u64, q: &Quad) -> (r: SubmitOutcome)
        requires
            old(self).well_formed(),
            old(self).next_resource < u64::MAX,
            forall|j: int| 0 <= j < old(self).spec_entries().len()
                ==> #[trigger] old(self).spec_entries()[j].mesh.vertex_count() + 4 <= u32::MAX,
        ensures
            (final(self).spec_entries(), final(self).next_resource, r) == spec_add_quad(
                old(self).spec_entries(),
                old(self).next_resource,
                m,
                *q,
            ),
            final(self).well_formed(),
    {
        let ghost es = self.spec_entries();
        match self.find(m) {
            Some(i) => {
                let mut e = self.entries.remove(i);
                assert(e@ == es[i as int]);
                e.mesh.push_quad(q);
                self.entries.insert(i, e);
                let ghost fin = self.spec_entries();
                let ghost ci = choose|c: int| 0 <= c < es.len() && es[c].material == m;
                assert(ci == i);
                assert(fin =~= es.update(i as int, EntryView { mesh: es[i as int].mesh.append_quad(*q), ..es[i as int] }));
                assert forall|a: int| 0 <= a < fin.len() implies (#[trigger] fin[a]).mesh.well_formed() by {
                    if a != i {
                        assert(fin[a] == es[a]);
                    }
                }
                SubmitOutcome::Appended
            },
            None => {
                let mut mesh = MeshBuffer::new();
                mesh.push_quad(q);
                let id = self.next_resource;
                self.entries.push(BatchEntry { material: m, resource: id, mesh });
                self.next_resource = id + 1;
                let ghost fin = self.spec_entries();
                assert(fin =~= es.push(EntryView { material: m, resource: id, mesh: MeshView::empty().append_quad(*q) }));
                assert forall|a: int| 0 <= a < fin.len() implies (#[trigger] fin[a]).mesh.well_formed() by {
                    if a < es.len() {
                        assert(fin[a] == es[a]);
                    }
                }
                assert forall|a: int, b: int| 0 <= a < fin.len() && 0 <= b < fin.len() && a != b
                    implies fin[a].material != fin[b].material by {
                    if a < es.len() && b < es.len() {
                        assert(fin[a] == es[a] && fin[b] == es[b]);
                    } else if a < es.len() {
                        assert(fin[a] == es[a]);
                    } else {
                        assert(fin[b] == es[b]);
                    }
                }
                SubmitOutcome::Created(id)
            },
        }
    }

    /// Adds one sprite instance to the mesh of its material: builds its quad
    /// and appends it, creating the entry on first use; a sprite whose quad
    /// is `None` this frame leaves the registry as it is.
    pub fn submit(
        &mut self,
        sprite: &Sprite3d,
        pose: &Pose,
        material: u64,
        material_loaded: bool,
        material_size: Option<Size>,
    ) -> (r: SubmitOutcome)
        requires
            old(self).well_formed(),
            old(self).next_resource < u64::MAX,
            forall|j: int| 0 <= j < old(self).spec_entries().len()
                ==> #[trigger] old(self).spec_entries()[j].mesh.vertex_count() + 4 <= u32::MAX,
            sprite.bounded(),
            pose.bounded(),
            material_size matches Some(n) ==> n.bounded(),
        ensures
            (final(self).spec_entries(), final(self).next_resource, r) == spec_submit(
                old(self).spec_entries(),
                old(self).next_resource,
                material,
                spec_build_quad(*sprite, *pose, material_loaded, material_size),
            ),
            final(self).well_formed(),
    {
        match build_quad(sprite, pose, material_loaded, material_size) {
            Some(q) => self.add_quad(material, &q),
            None => SubmitOutcome::Skipped,
        }
    }
}

/// Every entry with its mesh emptied.
pub open spec fn cleared(es: Seq<EntryView>) -> Seq<EntryView> {
    Seq::new(es.len(), |i: int| EntryView { mesh: MeshView::empty(), ..es[i] })
}

/// Registry after a quad for material `m`, with the next render resource
/// identifier and the outcome.
pub open spec fn spec_add_quad(es: Seq<EntryView>, next: u64, m: u64, q: Quad) -> (
    Seq<EntryView>,
    u64,
    SubmitOutcome,
) {
    if has_material(es, m) {
        let i = choose|i: int| 0 <= i < es.len() && es[i].material == m;
        (
            es.update(i, EntryView { mesh: es[i].mesh.append_quad(q), ..es[i] }),
            next,
            SubmitOutcome::Appended,
        )
    } else {
        (
            es.push(EntryView { material: m, resource: next, mesh: MeshView::empty().append_quad(q) }),
            (next + 1) as u64,
            SubmitOutcome::Created(next),
        )
    }
}

/// Registry after a sprite of material `m` whose quad is `q`.
pub open spec fn spec_submit(es: Seq<EntryView>, next: u64, m: u64, q: Option<Quad>) -> (
    Seq<EntryView>,
    u64,
    SubmitOutcome,
) {
    match q {
        Some(q) => spec_add_quad(es, next, m, q),
        None => (es, next, SubmitOutcome::Skipped),
    }
}

} // verus!
