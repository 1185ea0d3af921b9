use vstd::prelude::*;

use crate::bytes::{le_bytes, lemma_le_bytes_append, push_words_le};
use crate::hierarchy::Vec3Bits;

verus! {

/// One sphere of the scene as the GPU sees it: centre and radius (as
/// single-precision bit patterns) and its index in the entity array, which
/// the hierarchy's leaves refer to.
#[derive(Clone, Copy, Debug, PartialEq, Eq, Structural)]
pub struct SDFRenderEntity {
    pub node_index: usize,
    pub position: Vec3Bits,
    pub scale: u32,
}

impl SDFRenderEntity {
    /// Records the entity's index in the entity array.
    pub fn set_bh_node_index(&mut self, index: usize)
        ensures
            *final(self) == (SDFRenderEntity { node_index: index, ..*old(self) }),
    {
        self.node_index = index;
    }

    /// The entity's index in the entity array.
    pub fn bh_node_index(&self) -> (r: usize)
        ensures
            r == self.node_index,
    {
        self.node_index
    }
}

/// A live sphere of the scene and the handle it was spawned under.
#[derive(Clone, Copy, Debug, PartialEq, Eq, Structural)]
pub struct StoredEntity {
    pub handle: u64,
    pub position: Vec3Bits,
    pub scale: u32,
}

/// The scene's spheres in a stable order, with a flag that records whether
/// anything changed since the last snapshot.
pub struct EntityStore {
    pub entities: Vec<StoredEntity>,
    pub next_handle: u64,
    pub changed: bool,
}

/// Some entity of `es` has handle `h`.
pub open spec fn has_handle(es: Seq<StoredEntity>, h: u64) -> bool {
    exists|i: int| 0 <= i < es.len() && #[trigger] es[i].handle == h
}

/// The record handed to the GPU for the entity at index `i`.
pub open spec fn snapshot_record(e: StoredEntity, i: int) -> SDFRenderEntity {
    SDFRenderEntity { node_index: i as usize, position: e.position, scale: e.scale }
}

impl EntityStore {
    /// Handles are distinct and all below the next one to hand out.
    pub open spec fn wf(&self) -> bool {
        &&& forall|i: int| 0 <= i < self.entities@.len() ==> #[trigger] self.entities@[i].handle < self.next_handle
        &&& forall|i: int, j: int|
            0 <= i < self.entities@.len() && 0 <= j < self.entities@.len() && i != j
                ==> #[trigger] self.entities@[i].handle != #[trigger] self.entities@[j].handle
    }

    /// An empty scene; the first snapshot is still owed, so it starts changed.
    pub fn new() -> (r: EntityStore)
        ensures
            r.wf(),
            r.entities@.len() == 0,
            r.next_handle == 0,
            r.changed,
    {
        EntityStore { entities: Vec::new(), next_handle: 0, changed: true }
    }

    fn find(&self, handle: u64) -> (r: Option<usize>)
        requires
            self.wf(),
        ensures
            r is None <==> !has_handle(self.entities@, handle),
            r matches Some(i) ==> i < self.entities@.len() && self.entities@[i as int].handle == handle,
    {
        let mut i: usize = 0;
        while i < self.entities.len()
            invariant
                0 <= i <= self.entities@.len(),
                forall|j: int| 0 <= j < i ==> #[trigger] self.entities@[j].handle != handle,
            decreases self.entities@.len() - i,
        {
            if self.entities[i].handle == handle {
                return Some(i);
            }
            i = i + 1;
        }
        None
    }

    /// Adds a sphere at the end of the entity array. Returns its handle, or
    /// `None` once every handle has been used.
    pub fn spawn_entity(&mut self, position: Vec3Bits, scale: u32) -> (r: Option<u64>)
        requires
            old(self).wf(),
        ensures
            final(self).wf(),
            old(self).next_handle == u64::MAX ==> r is None && *final(self) == *old(self),
            old(self).next_handle < u64::MAX ==> {
                &&& r == Some(old(self).next_handle)
                &&& final(self).entities@ == old(self).entities@.push(
                    StoredEntity { handle: old(self).next_handle, position, scale },
                )
                &&& final(self).next_handle == old(self).next_handle + 1
                &&& final(self).changed
            },
    {
        if self.next_handle == u64::MAX {
            return None;
        }
        let h = self.next_handle;
        self.entities.push(StoredEntity { handle: h, position, scale });
        self.next_handle = h + 1;
        self.changed = true;
        Some(h)
    }

    /// Removes the sphere with this handle; the others keep their order.
    /// Returns whether it was there.
    pub fn despawn_entity(&mut self, handle: u64) -> (r: bool)
        requires
            old(self).wf(),
        ensures
            final(self).wf(),
            r == has_handle(old(self).entities@, handle),
            !r ==> *final(self) == *old(self),
            r ==> {
                &&& final(self).changed
                &&& final(self).next_handle == old(self).next_handle
                &&& exists|i: int|
                    0 <= i < old(self).entities@.len() && #[trigger] old(self).entities@[i].handle == handle
                        && final(self).entities@ == old(self).entities@.remove(i)
            },
    {
        match self.find(handle) {
            None => false,
            Some(i) => {
                let ghost before = self.entities@;
                self.entities.remove(i);
                self.changed = true;
                proof {
                    assert(self.entities@ == before.remove(i as int));
                    assert forall|a: int, b: int|
                        0 <= a < self.entities@.len() && 0 <= b < self.entities@.len() && a != b
                            implies #[trigger] self.entities@[a].handle != #[trigger] self.entities@[b].handle by {
                        let a2 = if a < i { a } else { a + 1 };
                        let b2 = if b < i { b } else { b + 1 };
                        assert(self.entities@[a] == before[a2]);
                        assert(self.entities@[b] == before[b2]);
                    }
                    assert forall|a: int| 0 <= a < self.entities@.len() implies #[trigger] self.entities@[a].handle
                        < self.next_handle by {
                        let a2 = if a < i { a } else { a + 1 };
                        assert(self.entities@[a] == before[a2]);
                    }
                }
                true
            },
        }
    }

    /// Moves the sphere with this handle. Returns whether it was there.
    pub fn set_entity_transform(&mut self, handle: u64, position: Vec3Bits) -> (r: bool)
        requires
            old(self).wf(),
        ensures
            final(self).wf(),
            r == has_handle(old(self).entities@, handle),
            !r ==> *final(self) == *old(self),
            r ==> {
                &&& final(self).changed
                &&& final(self).next_handle == old(self).next_handle
                &&& exists|i: int|
                    0 <= i < old(self).entities@.len() && #[trigger] old(self).entities@[i].handle == handle
                        && final(self).entities@ == old(self).entities@.update(
                        i,
                        StoredEntity { position, ..old(self).entities@[i] },
                    )
            },
    {
        match self.find(handle) {
            None => false,
            Some(i) => {
                let e = self.entities[i];
                self.entities.set(i, StoredEntity { handle: e.handle, position, scale: e.scale });
                self.changed = true;
                true
            },
        }
    }

    /// Resizes the sphere with this handle. Returns whether it was there.
    pub fn set_entity_scale(&mut self, handle: u64, scale: u32) -> (r: bool)
        requires
            old(self).wf(),
        ensures
            final(self).wf(),
            r == has_handle(old(self).entities@, handle),
            !r ==> *final(self) == *old(self),
            r ==> {
                &&& final(self).changed
                &&& final(self).next_handle == old(self).next_handle
                &&& exists|i: int|
                    0 <= i < old(self).entities@.len() && #[trigger] old(self).entities@[i].handle == handle
                        && final(self).entities@ == old(self).entities@.update(
                        i,
                        StoredEntity { scale, ..old(self).entities@[i] },
                    )
            },
    {
        match self.find(handle) {
            None => false,
            Some(i) => {
                let e = self.entities[i];
                self.entities.set(i, StoredEntity { handle: e.handle, position: e.position, scale });
                self.changed = true;
                true
            },
        }
    }

    /// The entity array for this frame, only when something changed since
    /// the last snapshot (then the flag is cleared); `None` otherwise, so an
    /// unchanged scene is never rebuilt.
    pub fn take_snapshot(&mut self) -> (r: Option<Vec<SDFRenderEntity>>)
        requires
            old(self).wf(),
        ensures
            final(self).wf(),
            final(self).entities@ == old(self).entities@,
            final(self).next_handle == old(self).next_handle,
            !final(self).changed,
            r is Some <==> old(self).changed,
            r matches Some(s) ==> {
                &&& s@.len() == old(self).entities@.len()
                &&& forall|i: int| 0 <= i < s@.len() ==> #[trigger] s@[i] == snapshot_record(old(self).entities@[i], i)
            },
    {
        if !self.changed {
            return None;
        }
        self.changed = false;
        let mut out: Vec<SDFRenderEntity> = Vec::new();
        let mut i: usize = 0;
        while i < self.entities.len()
            invariant
                0 <= i <= self.entities@.len(),
                out@.len() == i,
                forall|j: int| 0 <= j < i ==> #[trigger] out@[j] == snapshot_record(self.entities@[j], j),
            decreases self.entities@.len() - i,
        {
            let e = self.entities[i];
            out.push(SDFRenderEntity { node_index: i, position: e.position, scale: e.scale });
            i = i + 1;
        }
        Some(out)
    }
}

/// The four words of an entity in the GPU layout: centre, then radius.
pub open spec fn entity_words(e: SDFRenderEntity) -> Seq<u32> {
    seq![e.position.x, e.position.y, e.position.z, e.scale]
}

/// The words of an entity array, entity after entity.
pub open spec fn entities_words(es: Seq<SDFRenderEntity>) -> Seq<u32>
    decreases es.len(),
{
    if es.len() == 0 {
        Seq::empty()
    } else {
        entities_words(es.drop_last()) + entity_words(es.last())
    }
}

/// The bytes of the entity buffer: each entity's words, little-endian.
pub fn encode_entities(es: &Vec<SDFRenderEntity>) -> (r: Vec<u8>)
    ensures
        r@ == le_bytes(entities_words(es@)),
{
    let mut out: Vec<u8> = Vec::new();
    let mut i: usize = 0;
    while i < es.len()
        invariant
            0 <= i <= es@.len(),
            out@ == le_bytes(entities_words(es@.take(i as int))),
        decreases es@.len() - i,
    {
        let e = es[i];
        let mut w: Vec<u32> = Vec::new();
        w.push(e.position.x);
        w.push(e.position.y);
        w.push(e.position.z);
        w.push(e.scale);
        proof {
            assert(w@ =~= entity_words(e));
            assert(es@.take(i as int + 1).drop_last() =~= es@.take(i as int));
            lemma_le_bytes_append(entities_words(es@.take(i as int)), entity_words(e));
        }
        push_words_le(&mut out, w.as_slice());
        i = i + 1;
    }
    proof {
        assert(es@.take(i as int) =~= es@);
    }
    out
}

} // verus!
