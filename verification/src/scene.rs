//! Slot and light-list bookkeeping of the scene.
//!
//! The scene stores its primitives in insertion order; a primitive's slot
//! index is assigned when it is added and stays stable for the scene's
//! lifetime. A separate index list records which slots are light sources.
//! The invariant the renderer leans on: every listed slot carries the
//! emissive flag, and every emissive slot is listed exactly once. Next-event
//! estimation picks one entry of that list uniformly at random and requires
//! the list to be non-empty; the geometry of each slot is the renderer's.

use vstd::prelude::*;

verus! {

pub struct SceneIndex {
    emissive: Vec<bool>,
    lights: Vec<usize>,
}

impl SceneIndex {
    /// The emissive flag of each slot, in insertion order.
    pub closed spec fn emissive_flags(&self) -> Seq<bool> {
        self.emissive@
    }

    /// The slots registered as lights, in insertion order.
    pub closed spec fn light_list(&self) -> Seq<usize> {
        self.lights@
    }

    /// The light list and the emissive flags agree: every listed slot is a
    /// valid emissive slot, the list is strictly increasing (so no slot is
    /// listed twice), and every emissive slot is listed.
    pub open spec fn wf(&self) -> bool {
        &&& forall|i: int|
            0 <= i < self.light_list().len() ==> (#[trigger] self.light_list()[i] as int)
                < self.emissive_flags().len() && self.emissive_flags()[self.light_list()[i] as int]
        &&& forall|i: int, j: int|
            0 <= i < j < self.light_list().len() ==> #[trigger] self.light_list()[i]
                < #[trigger] self.light_list()[j]
        &&& forall|p: int|
            0 <= p < self.emissive_flags().len() && #[trigger] self.emissive_flags()[p]
                ==> exists|i: int|
                0 <= i < self.light_list().len() && #[trigger] self.light_list()[i] == p
    }

    /// An empty scene: no slots, no lights.
    pub fn new() -> (s: SceneIndex)
        ensures
            s.wf(),
            s.emissive_flags().len() == 0,
            s.light_list().len() == 0,
    {
        SceneIndex { emissive: Vec::new(), lights: Vec::new() }
    }

    /// Adds a non-emissive primitive and returns the slot it was assigned:
    /// the next free one. The light list does not change.
    pub fn add_object(&mut self) -> (idx: usize)
        requires
            old(self).wf(),
            old(self).emissive_flags().len() < usize::MAX,
        ensures
            final(self).wf(),
            idx == old(self).emissive_flags().len(),
            final(self).emissive_flags() == old(self).emissive_flags().push(false),
            final(self).light_list() == old(self).light_list(),
    {
        let idx = self.emissive.len();
        self.emissive.push(false);
        proof {
            assert forall|p: int|
                0 <= p < self.emissive_flags().len() && self.emissive_flags()[p]
                implies exists|i: int|
                    0 <= i < self.light_list().len() && self.light_list()[i] == p by {
                assert(p < old(self).emissive_flags().len());
                assert(old(self).emissive_flags()[p]);
                let w = choose|i: int|
                    0 <= i < old(self).light_list().len() && old(self).light_list()[i] == p;
                assert(self.light_list()[w] == p);
            }
        }
        idx
    }

    /// Adds an emissive primitive: it takes the next free slot, and that slot
    /// is appended to the light list.
    pub fn add_light(&mut self) -> (idx: usize)
        requires
            old(self).wf(),
            old(self).emissive_flags().len() < usize::MAX,
        ensures
            final(self).wf(),
            idx == old(self).emissive_flags().len(),
            final(self).emissive_flags() == old(self).emissive_flags().push(true),
            final(self).light_list() == old(self).light_list().push(idx),
    {
        let idx = self.emissive.len();
        self.emissive.push(true);
        self.lights.push(idx);
        proof {
            let last = self.light_list().len() - 1;
            assert(self.light_list()[last] == idx);
            assert forall|p: int|
                0 <= p < self.emissive_flags().len() && self.emissive_flags()[p]
                implies exists|i: int|
                    0 <= i < self.light_list().len() && self.light_list()[i] == p by {
                if p < old(self).emissive_flags().len() {
                    assert(old(self).emissive_flags()[p]);
                    let w = choose|i: int|
                        0 <= i < old(self).light_list().len() && old(self).light_list()[i] == p;
                    assert(self.light_list()[w] == p);
                } else {
                    assert(p == idx);
                    assert(self.light_list()[last] == p);
                }
            }
        }
        idx
    }

    /// How many slots the scene has.
    pub fn primitive_count(&self) -> (n: usize)
        ensures
            n == self.emissive_flags().len(),
    {
        self.emissive.len()
    }

    /// How many slots are registered as lights.
    pub fn light_count(&self) -> (n: usize)
        ensures
            n == self.light_list().len(),
    {
        self.lights.len()
    }

    /// The emissive flag of a slot.
    pub fn is_light(&self, idx: usize) -> (r: bool)
        requires
            idx < self.emissive_flags().len(),
        ensures
            r == self.emissive_flags()[idx as int],
    {
        self.emissive[idx]
    }

    /// The `k`-th registered light. Light selection draws `k` uniformly, so
    /// the chosen slot is always a valid emissive slot; an empty light list
    /// is ruled out by the precondition, as scene construction must
    /// guarantee at least one light before next-event estimation runs.
    pub fn select_light(&self, k: usize) -> (idx: usize)
        requires
            self.wf(),
            k < self.light_list().len(),
        ensures
            idx == self.light_list()[k as int],
            idx < self.emissive_flags().len(),
            self.emissive_flags()[idx as int],
    {
        self.lights[k]
    }
}

/// Law: no slot is listed as a light twice — two distinct positions of the
/// light list always name distinct slots.
pub proof fn lemma_light_slots_unique(s: &SceneIndex, i: int, j: int)
    requires
        s.wf(),
        0 <= i < s.light_list().len(),
        0 <= j < s.light_list().len(),
        i != j,
    ensures
        s.light_list()[i] != s.light_list()[j],
{
    if i < j {
        assert(s.light_list()[i] < s.light_list()[j]);
    } else {
        assert(s.light_list()[j] < s.light_list()[i]);
    }
}

/// Splits a flat row-major pixel index into its column and row.
pub fn pixel_coords(i: usize, width: usize) -> (xy: (usize, usize))
    requires
        width > 0,
    ensures
        xy.0 == i % width,
        xy.1 == i / width,
        xy.0 < width,
{
    (i % width, i / width)
}

} // verus!
