use vstd::prelude::*;

use crate::buffer::{ensure_spec, GrowableBuffer};
use crate::bytes::{le_bytes, lemma_le_bytes_len};
use crate::hierarchy::{
    clamp_node, encode_bvh_nodes, flat_bvh_valid, nodes_words, prepare_gpu_nodes, BVHNode, BvhError,
};
use crate::scene::{encode_entities, entities_words, SDFRenderEntity};

verus! {

/// The scene buffers as the GPU holds them: the entity buffer and the BVH
/// buffer (capacities in bytes), and how many records each holds.
pub struct SceneBuffers {
    pub entity_buffer: GrowableBuffer,
    pub bvh_buffer: GrowableBuffer,
    pub entity_count: usize,
    pub bvh_node_count: usize,
}

/// The writes that bring the GPU up to date with a new scene snapshot. A
/// buffer whose `realloc` is set is recreated with that many bytes first;
/// bytes are written at offset 0, and an empty write is skipped.
#[derive(Clone, Debug)]
pub struct SceneUpload {
    pub entity_realloc: Option<usize>,
    pub entity_bytes: Vec<u8>,
    pub bvh_realloc: Option<usize>,
    pub bvh_bytes: Vec<u8>,
}

/// Bytes per entity record in the entity buffer.
pub const ENTITY_RECORD_SIZE: usize = 16;

/// Bytes per node in the BVH buffer.
pub const BVH_NODE_SIZE: usize = 48;

proof fn lemma_entities_words_len(es: Seq<SDFRenderEntity>)
    ensures
        entities_words(es).len() == 4 * es.len(),
    decreases es.len(),
{
    if es.len() > 0 {
        lemma_entities_words_len(es.drop_last());
    }
}

proof fn lemma_nodes_words_len(ns: Seq<BVHNode>)
    ensures
        nodes_words(ns).len() == 12 * ns.len(),
    decreases ns.len(),
{
    if ns.len() > 0 {
        lemma_nodes_words_len(ns.drop_last());
    }
}

impl SceneBuffers {
    /// Both buffer records are well formed.
    pub open spec fn wf(&self) -> bool {
        self.entity_buffer.wf() && self.bvh_buffer.wf()
    }

    /// No GPU buffer yet: the first upload allocates both.
    pub fn new() -> (r: SceneBuffers)
        ensures
            r.wf(),
            !r.entity_buffer.allocated,
            !r.bvh_buffer.allocated,
            r.entity_count == 0,
            r.bvh_node_count == 0,
    {
        SceneBuffers {
            entity_buffer: GrowableBuffer::new(),
            bvh_buffer: GrowableBuffer::new(),
            entity_count: 0,
            bvh_node_count: 0,
        }
    }

    /// Uploads a snapshot of the entities and the hierarchy flattened over
    /// it. The hierarchy is refused (and nothing changes) unless it is a
    /// valid pre-order forest whose leaves name every entity once.
    /// Otherwise both buffers grow as needed, even for an empty scene, so
    /// that the bindings stay valid, and the bytes to write are the entity
    /// records and the nodes with their infinite bounds made finite.
    pub fn upload_scene(&mut self, entities: &Vec<SDFRenderEntity>, nodes: &Vec<BVHNode>) -> (r: Result<
        SceneUpload,
        BvhError,
    >)
        requires
            old(self).wf(),
            entities@.len() <= usize::MAX / 32,
            nodes@.len() <= usize::MAX / 96,
        ensures
            final(self).wf(),
            r is Ok <==> flat_bvh_valid(nodes@, entities@.len()),
            r is Err ==> *final(self) == *old(self),
            r matches Ok(up) ==> {
                let gpu_nodes = nodes@.map_values(|n: BVHNode| clamp_node(n));
                &&& up.entity_bytes@ == le_bytes(entities_words(entities@))
                &&& up.bvh_bytes@ == le_bytes(nodes_words(gpu_nodes))
                &&& up.entity_bytes@.len() == ENTITY_RECORD_SIZE * entities@.len()
                &&& up.bvh_bytes@.len() == BVH_NODE_SIZE * nodes@.len()
                &&& final(self).entity_buffer == ensure_spec(old(self).entity_buffer, up.entity_bytes@.len())
                &&& final(self).bvh_buffer == ensure_spec(old(self).bvh_buffer, up.bvh_bytes@.len())
                &&& (up.entity_realloc is Some <==> final(self).entity_buffer != old(self).entity_buffer)
                &&& up.entity_realloc matches Some(c) ==> c == final(self).entity_buffer.capacity
                &&& (up.bvh_realloc is Some <==> final(self).bvh_buffer != old(self).bvh_buffer)
                &&& up.bvh_realloc matches Some(c) ==> c == final(self).bvh_buffer.capacity
                &&& final(self).entity_count == entities@.len()
                &&& final(self).bvh_node_count == nodes@.len()
            },
    {
        let gpu_nodes = match prepare_gpu_nodes(nodes, entities.len()) {
            Ok(g) => g,
            Err(e) => {
                return Err(e);
            },
        };
        let entity_bytes = encode_entities(entities);
        let bvh_bytes = encode_bvh_nodes(&gpu_nodes);
        proof {
            lemma_entities_words_len(entities@);
            lemma_le_bytes_len(entities_words(entities@));
            lemma_nodes_words_len(gpu_nodes@);
            lemma_le_bytes_len(nodes_words(gpu_nodes@));
            assert(gpu_nodes@ =~= nodes@.map_values(|n: BVHNode| clamp_node(n)));
        }
        let entity_realloc = self.entity_buffer.ensure_capacity(entity_bytes.len());
        let bvh_realloc = self.bvh_buffer.ensure_capacity(bvh_bytes.len());
        self.entity_count = entities.len();
        self.bvh_node_count = nodes.len();
        Ok(SceneUpload { entity_realloc, entity_bytes, bvh_realloc, bvh_bytes })
    }
}

} // verus!
