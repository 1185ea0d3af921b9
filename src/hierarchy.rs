use vstd::prelude::*;

use crate::bytes::{le_bytes, lemma_le_bytes_append, push_words_le};

verus! {

/// Marks an internal node in `shape_index` (and a leaf in `entry_index`).
pub const SENTINEL: u32 = 0xffff_ffff;

/// Bit pattern of single-precision positive infinity.
pub const POS_INF_BITS: u32 = 0x7f80_0000;

/// Bit pattern of single-precision negative infinity.
pub const NEG_INF_BITS: u32 = 0xff80_0000;

/// Bit pattern of the large finite bound (99999999.0, stored as 1.0e8) that
/// replaces positive infinity before upload.
pub const FAR_BITS: u32 = 0x4cbe_bc20;

/// Bit pattern of the large negative finite bound that replaces negative
/// infinity before upload.
pub const NEG_FAR_BITS: u32 = 0xccbe_bc20;

/// Three single-precision values, each held as its IEEE-754 bit pattern.
#[derive(Clone, Copy, Debug, PartialEq, Eq, Structural)]
pub struct Vec3Bits {
    pub x: u32,
    pub y: u32,
    pub z: u32,
}

/// One node of a flattened bounding-volume hierarchy, laid out in pre-order.
///
/// An internal node (`shape_index == SENTINEL`) enters its first child at
/// `entry_index`; every node skips past its whole subtree to `exit_index`.
/// A leaf names one entity by its position in the entity array.
#[derive(Clone, Copy, Debug, PartialEq, Eq, Structural)]
pub struct BVHNode {
    pub min: Vec3Bits,
    pub max: Vec3Bits,
    pub entry_index: u32,
    pub exit_index: u32,
    pub shape_index: u32,
}

/// Why a flattened hierarchy was refused.
#[derive(Clone, Copy, Debug, PartialEq, Eq, Structural)]
pub enum BvhError {
    /// The entry/exit links do not describe a pre-order forest.
    MalformedLinks,
    /// The leaves do not name each entity exactly once.
    LeafShapeMismatch,
}

/// A leaf names an entity; an internal node holds the sentinel instead.
pub open spec fn is_leaf(n: BVHNode) -> bool {
    n.shape_index != SENTINEL
}

/// `nodes[lo..hi)` is a run of consecutive subtrees in pre-order: each node
/// is followed by its descendants, and its exit index points just past them.
/// A leaf carries the sentinel in its entry index too.
pub open spec fn forest(nodes: Seq<BVHNode>, lo: int, hi: int) -> bool
    decreases hi - lo,
{
    if 0 <= lo && lo < hi && hi <= nodes.len() {
        let e = nodes[lo].exit_index as int;
        if lo < e && e <= hi {
            let head_ok = if is_leaf(nodes[lo]) {
                e == lo + 1 && nodes[lo].entry_index == SENTINEL
            } else {
                nodes[lo].entry_index as int == lo + 1 && lo + 1 < e && forest(nodes, lo + 1, e)
            };
            head_ok && forest(nodes, e, hi)
        } else {
            false
        }
    } else {
        0 <= lo && lo == hi && hi <= nodes.len()
    }
}

/// Node `i` is well linked within a run that ends at `bound`: its exit lies
/// beyond it and within the run, a leaf exits to the next node (and has no
/// entry), an internal node enters its first child right after itself, and
/// no descendant exits beyond it.
pub open spec fn node_links_ok(nodes: Seq<BVHNode>, i: int, bound: int) -> bool {
    let e = nodes[i].exit_index as int;
    &&& i < e <= bound
    &&& is_leaf(nodes[i]) ==> e == i + 1 && nodes[i].entry_index == SENTINEL
    &&& !is_leaf(nodes[i]) ==> nodes[i].entry_index as int == i + 1 && i + 1 < e
    &&& forall|j: int| i < j < e ==> #[trigger] nodes[j].exit_index <= e
}

/// The skip links of a whole array support stack-free traversal: every
/// subtree's exit index lies past all of its descendants.
pub open spec fn skip_links_valid(nodes: Seq<BVHNode>) -> bool {
    forall|i: int| 0 <= i < nodes.len() ==> #[trigger] node_links_ok(nodes, i, nodes.len() as int)
}

/// Number of leaves in `nodes`.
pub open spec fn leaf_count(nodes: Seq<BVHNode>) -> nat
    decreases nodes.len(),
{
    if nodes.len() == 0 {
        0
    } else {
        leaf_count(nodes.drop_last()) + if is_leaf(nodes.last()) {
            1nat
        } else {
            0nat
        }
    }
}

/// Some leaf of `nodes` names entity `k`.
pub open spec fn names_shape(nodes: Seq<BVHNode>, k: int) -> bool {
    exists|i: int| 0 <= i < nodes.len() && is_leaf(nodes[i]) && #[trigger] nodes[i].shape_index == k
}

/// The leaves name the entities `0..n`, each exactly once.
pub open spec fn leaves_cover_shapes(nodes: Seq<BVHNode>, n: nat) -> bool {
    &&& leaf_count(nodes) == n
    &&& forall|i: int|
        0 <= i < nodes.len() && is_leaf(nodes[i]) ==> #[trigger] nodes[i].shape_index < n
    &&& forall|i: int, j: int|
        0 <= i < nodes.len() && 0 <= j < nodes.len() && i != j && is_leaf(nodes[i])
            && is_leaf(nodes[j]) ==> #[trigger] nodes[i].shape_index != #[trigger] nodes[j].shape_index
    &&& forall|k: int| 0 <= k < n ==> #[trigger] names_shape(nodes, k)
}

/// A flattened hierarchy over `n` entities that the GPU can traverse.
pub open spec fn flat_bvh_valid(nodes: Seq<BVHNode>, n: nat) -> bool {
    forest(nodes, 0, nodes.len() as int) && leaves_cover_shapes(nodes, n)
}

/// Every node of a pre-order run is well linked within the run.
pub proof fn lemma_forest_links(nodes: Seq<BVHNode>, lo: int, hi: int)
    requires
        forest(nodes, lo, hi),
    ensures
        forall|i: int| lo <= i < hi ==> #[trigger] node_links_ok(nodes, i, hi),
    decreases hi - lo,
{
    if lo < hi {
        let e = nodes[lo].exit_index as int;
        if !is_leaf(nodes[lo]) {
            lemma_forest_links(nodes, lo + 1, e);
        }
        lemma_forest_links(nodes, e, hi);
        assert forall|i: int| lo <= i < hi implies #[trigger] node_links_ok(nodes, i, hi) by {
            if i == lo {
                if !is_leaf(nodes[lo]) {
                    assert forall|j: int| i < j < e implies #[trigger] nodes[j].exit_index <= e by {
                        assert(node_links_ok(nodes, j, e));
                    }
                }
            } else if i < e {
                assert(node_links_ok(nodes, i, e));
            } else {
                assert(node_links_ok(nodes, i, hi));
            }
        }
    }
}

/// A pre-order forest over the whole array has valid skip links.
pub proof fn lemma_flat_bvh_skip_links(nodes: Seq<BVHNode>, n: nat)
    requires
        flat_bvh_valid(nodes, n),
    ensures
        skip_links_valid(nodes),
{
    lemma_forest_links(nodes, 0, nodes.len() as int);
}

/// Checks `forest(nodes, lo, hi)`; recursion depth follows the tree's depth.
fn check_forest(nodes: &Vec<BVHNode>, lo: usize, hi: usize) -> (r: bool)
    requires
        lo <= hi <= nodes@.len(),
    ensures
        r == forest(nodes@, lo as int, hi as int),
    decreases hi - lo,
{
    let mut cur = lo;
    while cur < hi
        invariant
            lo <= cur <= hi <= nodes@.len(),
            forest(nodes@, lo as int, hi as int) == forest(nodes@, cur as int, hi as int),
        decreases hi - cur,
    {
        let node = nodes[cur];
        let e = node.exit_index as usize;
        if !(cur < e && e <= hi) {
            return false;
        }
        if node.shape_index != SENTINEL {
            if e != cur + 1 || node.entry_index != SENTINEL {
                return false;
            }
        } else {
            if node.entry_index as usize != cur + 1 || !(cur + 1 < e) {
                return false;
            }
            if !check_forest(nodes, cur + 1, e) {
                return false;
            }
        }
        cur = e;
    }
    true
}

/// Checks `leaves_cover_shapes(nodes, n)` in one pass, marking each entity
/// as its leaf is met.
fn check_leaves(nodes: &Vec<BVHNode>, n: usize) -> (r: bool)
    ensures
        r == leaves_cover_shapes(nodes@, n as nat),
{
    let mut seen: Vec<bool> = vec![false; n];
    let mut count: usize = 0;
    let mut i: usize = 0;
    while i < nodes.len()
        invariant
            0 <= i <= nodes@.len(),
            seen@.len() == n,
            count <= i,
            count == leaf_count(nodes@.take(i as int)),
            forall|j: int| 0 <= j < i && is_leaf(nodes@[j]) ==> #[trigger] nodes@[j].shape_index < n,
            forall|j1: int, j2: int|
                0 <= j1 < i && 0 <= j2 < i && j1 != j2 && is_leaf(nodes@[j1]) && is_leaf(nodes@[j2])
                    ==> #[trigger] nodes@[j1].shape_index != #[trigger] nodes@[j2].shape_index,
            forall|k: int|
                0 <= k < n ==> (#[trigger] seen@[k] <==> names_shape(nodes@.take(i as int), k)),
        decreases nodes@.len() - i,
    {
        let node = nodes[i];
        proof {
            assert(nodes@.take(i as int + 1).drop_last() =~= nodes@.take(i as int));
        }
        if node.shape_index != SENTINEL {
            let s = node.shape_index as usize;
            if s >= n {
                return false;
            }
            if seen[s] {
                proof {
                    let j = choose|j: int|
                        0 <= j < nodes@.take(i as int).len() && is_leaf(nodes@.take(i as int)[j])
                            && #[trigger] nodes@.take(i as int)[j].shape_index == s as int;
                    assert(nodes@[j].shape_index == nodes@[i as int].shape_index);
                }
                return false;
            }
            proof {
                assert forall|j: int| 0 <= j < i && is_leaf(nodes@[j]) implies nodes@[j].shape_index
                    != node.shape_index by {
                    if nodes@[j].shape_index == node.shape_index {
                        assert(nodes@.take(i as int)[j] == nodes@[j]);
                        assert(names_shape(nodes@.take(i as int), s as int));
                    }
                }
            }
            seen.set(s, true);
            count = count + 1;
        }
        proof {
            let t = nodes@.take(i as int + 1);
            assert forall|k: int| 0 <= k < n implies (#[trigger] seen@[k] <==> names_shape(t, k)) by {
                if names_shape(nodes@.take(i as int), k) {
                    let j = choose|j: int|
                        0 <= j < nodes@.take(i as int).len() && is_leaf(nodes@.take(i as int)[j])
                            && #[trigger] nodes@.take(i as int)[j].shape_index == k;
                    assert(t[j] == nodes@[j]);
                }
                if names_shape(t, k) {
                    let j = choose|j: int|
                        0 <= j < t.len() && is_leaf(t[j]) && #[trigger] t[j].shape_index == k;
                    if j < i {
                        assert(nodes@.take(i as int)[j] == nodes@[j]);
                    }
                }
                if k == node.shape_index as int && is_leaf(node) {
                    assert(t[i as int] == node);
                }
            }
        }
        i = i + 1;
    }
    proof {
        assert(nodes@.take(i as int) =~= nodes@);
    }
    if count != n {
        return false;
    }
    let mut k: usize = 0;
    while k < n
        invariant
            0 <= k <= n,
            seen@.len() == n,
            forall|k2: int| 0 <= k2 < k ==> #[trigger] names_shape(nodes@, k2),
            forall|k2: int| 0 <= k2 < n ==> (#[trigger] seen@[k2] <==> names_shape(nodes@, k2)),
        decreases n - k,
    {
        if !seen[k] {
            return false;
        }
        k = k + 1;
    }
    true
}

/// Replaces an infinite bound by a large finite one, so that the GPU buffer
/// never holds an infinity; every other bit pattern is kept.
pub open spec fn gpu_friendly_spec(bits: u32) -> u32 {
    if bits == POS_INF_BITS {
        FAR_BITS
    } else if bits == NEG_INF_BITS {
        NEG_FAR_BITS
    } else {
        bits
    }
}

/// Executable form of `gpu_friendly_spec`, on the bit pattern of a bound.
pub fn gpu_friendly_f32(bits: u32) -> (r: u32)
    ensures
        r == gpu_friendly_spec(bits),
{
    if bits == POS_INF_BITS {
        FAR_BITS
    } else if bits == NEG_INF_BITS {
        NEG_FAR_BITS
    } else {
        bits
    }
}

/// A bound with each infinite coordinate made finite.
pub open spec fn clamp_vec(v: Vec3Bits) -> Vec3Bits {
    Vec3Bits { x: gpu_friendly_spec(v.x), y: gpu_friendly_spec(v.y), z: gpu_friendly_spec(v.z) }
}

/// A node with its bounds made finite and its links untouched.
pub open spec fn clamp_node(n: BVHNode) -> BVHNode {
    BVHNode {
        min: clamp_vec(n.min),
        max: clamp_vec(n.max),
        entry_index: n.entry_index,
        exit_index: n.exit_index,
        shape_index: n.shape_index,
    }
}

/// Two arrays that differ at most in their bounds.
spec fn same_links(a: Seq<BVHNode>, b: Seq<BVHNode>) -> bool {
    &&& a.len() == b.len()
    &&& forall|i: int|
        0 <= i < a.len() ==> (#[trigger] a[i]).entry_index == b[i].entry_index
            && a[i].exit_index == b[i].exit_index && a[i].shape_index == b[i].shape_index
}

proof fn lemma_same_links_forest(a: Seq<BVHNode>, b: Seq<BVHNode>, lo: int, hi: int)
    requires
        same_links(a, b),
    ensures
        forest(a, lo, hi) == forest(b, lo, hi),
    decreases hi - lo,
{
    if 0 <= lo && lo < hi && hi <= a.len() {
        assert(a[lo].exit_index == b[lo].exit_index);
        let e = a[lo].exit_index as int;
        if lo < e && e <= hi {
            lemma_same_links_forest(a, b, lo + 1, e);
            lemma_same_links_forest(a, b, e, hi);
        }
    }
}

proof fn lemma_same_links_leaf_count(a: Seq<BVHNode>, b: Seq<BVHNode>)
    requires
        same_links(a, b),
    ensures
        leaf_count(a) == leaf_count(b),
    decreases a.len(),
{
    if a.len() > 0 {
        assert(a.last().shape_index == b.last().shape_index);
        lemma_same_links_leaf_count(a.drop_last(), b.drop_last());
    }
}

proof fn lemma_same_links_valid(a: Seq<BVHNode>, b: Seq<BVHNode>, n: nat)
    requires
        same_links(a, b),
    ensures
        flat_bvh_valid(a, n) == flat_bvh_valid(b, n),
{
    lemma_same_links_forest(a, b, 0, a.len() as int);
    lemma_same_links_leaf_count(a, b);
    if leaves_cover_shapes(a, n) {
        assert forall|k: int| 0 <= k < n implies #[trigger] names_shape(b, k) by {
            assert(names_shape(a, k));
            let i = choose|i: int| 0 <= i < a.len() && is_leaf(a[i]) && #[trigger] a[i].shape_index == k;
            assert(b[i].shape_index == a[i].shape_index);
        }
        assert forall|i: int, j: int|
            0 <= i < b.len() && 0 <= j < b.len() && i != j && is_leaf(b[i]) && is_leaf(b[j])
                implies #[trigger] b[i].shape_index != #[trigger] b[j].shape_index by {
            assert(a[i].shape_index == b[i].shape_index && a[j].shape_index == b[j].shape_index);
        }
        assert forall|i: int| 0 <= i < b.len() && is_leaf(b[i]) implies #[trigger] b[i].shape_index < n by {
            assert(a[i].shape_index == b[i].shape_index);
        }
    }
    if leaves_cover_shapes(b, n) {
        assert forall|k: int| 0 <= k < n implies #[trigger] names_shape(a, k) by {
            assert(names_shape(b, k));
            let i = choose|i: int| 0 <= i < b.len() && is_leaf(b[i]) && #[trigger] b[i].shape_index == k;
            assert(b[i].shape_index == a[i].shape_index);
        }
        assert forall|i: int, j: int|
            0 <= i < a.len() && 0 <= j < a.len() && i != j && is_leaf(a[i]) && is_leaf(a[j])
                implies #[trigger] a[i].shape_index != #[trigger] a[j].shape_index by {
            assert(a[i].shape_index == b[i].shape_index && a[j].shape_index == b[j].shape_index);
        }
        assert forall|i: int| 0 <= i < a.len() && is_leaf(a[i]) implies #[trigger] a[i].shape_index < n by {
            assert(a[i].shape_index == b[i].shape_index);
        }
    }
}

/// Turns the flattened hierarchy built over `entity_count` entities into the
/// nodes uploaded to the GPU: it is refused unless its links form a
/// pre-order forest and its leaves name every entity exactly once; the
/// accepted nodes keep their links and have infinite bounds made finite.
pub fn prepare_gpu_nodes(nodes: &Vec<BVHNode>, entity_count: usize) -> (r: Result<Vec<BVHNode>, BvhError>)
    ensures
        r is Ok <==> flat_bvh_valid(nodes@, entity_count as nat),
        r == Err::<Vec<BVHNode>, BvhError>(BvhError::MalformedLinks) <==> !forest(nodes@, 0, nodes@.len() as int),
        r == Err::<Vec<BVHNode>, BvhError>(BvhError::LeafShapeMismatch) <==> (
            forest(nodes@, 0, nodes@.len() as int) && !leaves_cover_shapes(nodes@, entity_count as nat)
        ),
        r matches Ok(out) ==> {
            &&& out@.len() == nodes@.len()
            &&& forall|i: int| 0 <= i < out@.len() ==> #[trigger] out@[i] == clamp_node(nodes@[i])
            &&& flat_bvh_valid(out@, entity_count as nat)
            &&& skip_links_valid(out@)
            &&& leaves_cover_shapes(out@, entity_count as nat)
        },
{
    if !check_forest(nodes, 0, nodes.len()) {
        return Err(BvhError::MalformedLinks);
    }
    if !check_leaves(nodes, entity_count) {
        return Err(BvhError::LeafShapeMismatch);
    }
    let mut out: Vec<BVHNode> = Vec::new();
    let mut i: usize = 0;
    while i < nodes.len()
        invariant
            0 <= i <= nodes@.len(),
            out@.len() == i,
            forall|j: int| 0 <= j < i ==> #[trigger] out@[j] == clamp_node(nodes@[j]),
        decreases nodes@.len() - i,
    {
        let n = nodes[i];
        let min = Vec3Bits { x: gpu_friendly_f32(n.min.x), y: gpu_friendly_f32(n.min.y), z: gpu_friendly_f32(n.min.z) };
        let max = Vec3Bits { x: gpu_friendly_f32(n.max.x), y: gpu_friendly_f32(n.max.y), z: gpu_friendly_f32(n.max.z) };
        out.push(BVHNode {
            min,
            max,
            entry_index: n.entry_index,
            exit_index: n.exit_index,
            shape_index: n.shape_index,
        });
        i = i + 1;
    }
    proof {
        assert(same_links(nodes@, out@));
        lemma_same_links_valid(nodes@, out@, entity_count as nat);
        lemma_flat_bvh_skip_links(out@, entity_count as nat);
    }
    Ok(out)
}

/// The twelve words of a node in the GPU layout: two four-lane bounds (the
/// fourth lane zero), then entry, exit and shape index, and a padding word
/// that repeats the shape index.
pub open spec fn node_words(n: BVHNode) -> Seq<u32> {
    seq![
        n.min.x, n.min.y, n.min.z, 0u32,
        n.max.x, n.max.y, n.max.z, 0u32,
        n.entry_index, n.exit_index, n.shape_index, n.shape_index,
    ]
}

/// The words of a node array, node after node.
pub open spec fn nodes_words(nodes: Seq<BVHNode>) -> Seq<u32>
    decreases nodes.len(),
{
    if nodes.len() == 0 {
        Seq::empty()
    } else {
        nodes_words(nodes.drop_last()) + node_words(nodes.last())
    }
}

/// The bytes of the BVH buffer: each node's words, little-endian, in order.
pub fn encode_bvh_nodes(nodes: &Vec<BVHNode>) -> (r: Vec<u8>)
    ensures
        r@ == le_bytes(nodes_words(nodes@)),
{
    let mut out: Vec<u8> = Vec::new();
    let mut i: usize = 0;
    while i < nodes.len()
        invariant
            0 <= i <= nodes@.len(),
            out@ == le_bytes(nodes_words(nodes@.take(i as int))),
        decreases nodes@.len() - i,
    {
        let n = nodes[i];
        let mut w: Vec<u32> = Vec::new();
        w.push(n.min.x);
        w.push(n.min.y);
        w.push(n.min.z);
        w.push(0);
        w.push(n.max.x);
        w.push(n.max.y);
        w.push(n.max.z);
        w.push(0);
        w.push(n.entry_index);
        w.push(n.exit_index);
        w.push(n.shape_index);
        w.push(n.shape_index);
        proof {
            assert(w@ =~= node_words(n));
            assert(nodes@.take(i as int + 1).drop_last() =~= nodes@.take(i as int));
            lemma_le_bytes_append(nodes_words(nodes@.take(i as int)), node_words(n));
        }
        push_words_le(&mut out, w.as_slice());
        i = i + 1;
    }
    proof {
        assert(nodes@.take(i as int) =~= nodes@);
    }
    out
}

} // verus!
