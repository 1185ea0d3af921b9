//! GPU-resident signed-distance-field scene engine: the verified core.
//!
//! The library holds the decisions of the engine as plain data: which GPU
//! buffers must be (re)allocated and at what size, whether a flattened
//! bounding-volume hierarchy is fit for stack-free traversal, the bytes that
//! go to the GPU, which passes a frame submits, and the single-flight state
//! machine that serves asynchronous point-evaluation requests.
//!
//! Single-precision values (positions, radii, bounds, query points and
//! distances) are carried as their IEEE-754 bit patterns: the library moves
//! and encodes them but never computes with them.

mod buffer;
mod bytes;
mod coarse;
mod editor;
mod frame;
mod hierarchy;
mod mode;
mod pipeline;
mod scene;
mod upload;

pub use buffer::{
    allocation_size, ensure_spec, fresh_capacity, grown_capacity, grown_capacity_spec, lemma_growth_monotone,
    GrowableBuffer, MIN_CAPACITY,
};
pub use bytes::{
    le_bytes, lemma_le_bytes_append, lemma_le_bytes_len, push_u32_le, push_words_le, read_words_le, u32_from_le,
    u32_le,
};
pub use coarse::{
    coarse_extent, coarse_extent_spec, coarse_side, coarse_texture_update, CoarsePassSettings, Extent,
};
pub use editor::{AppCommand, CommandEffect, EditorState};
pub use frame::{
    coarse_ready, compute_ready, main_ready, plan_frame, submissions, FramePlan, FrameResources, SDFRenderEnabled,
};
pub use hierarchy::{
    clamp_node, clamp_vec, encode_bvh_nodes, flat_bvh_valid, forest, gpu_friendly_f32, gpu_friendly_spec, is_leaf,
    leaf_count, leaves_cover_shapes, lemma_flat_bvh_skip_links, lemma_forest_links, names_shape, node_links_ok,
    node_words, nodes_words, prepare_gpu_nodes, skip_links_valid, BVHNode, BvhError, Vec3Bits, FAR_BITS,
    NEG_FAR_BITS, NEG_INF_BITS, POS_INF_BITS, SENTINEL,
};
pub use mode::{
    brush_should_sample, translation_handles_teardown, AppMode, AppModeState, SelectionChange, SelectionState,
};
pub use pipeline::{
    decode_results, encode_points, lemma_readback_covers_request, lemma_served_in_submission_order, max_points,
    max_request_points, points_words, queue_ids, result_words, Dispatch, EvaluationPipeline, SdfEvaluationRequest,
    SdfEvaluationResponse, SdfResult, Submission, Vec2Bits, RESULT_SIZE, WORKGROUP_SIZE,
};
pub use scene::{
    encode_entities, entities_words, entity_words, has_handle, snapshot_record, EntityStore, SDFRenderEntity,
    StoredEntity,
};
pub use upload::{SceneBuffers, SceneUpload, BVH_NODE_SIZE, ENTITY_RECORD_SIZE};
