use bvh::aabb::{Aabb, Bounded};
use bvh::bounding_hierarchy::BHShape;
use bvh::bvh::Bvh;
use nalgebra::Point3;
use sdf_scene::{
    encode_bvh_nodes, gpu_friendly_f32, prepare_gpu_nodes, BVHNode, BvhError, Vec3Bits, FAR_BITS, NEG_FAR_BITS,
    SENTINEL,
};

struct Sphere {
    centre: [f32; 3],
    radius: f32,
    node_index: usize,
}

impl Bounded<f32, 3> for Sphere {
    fn aabb(&self) -> Aabb<f32, 3> {
        let h = self.radius + 0.5;
        let [x, y, z] = self.centre;
        Aabb::with_bounds(Point3::new(x - h, y - h, z - h), Point3::new(x + h, y + h, z + h))
    }
}

impl BHShape<f32, 3> for Sphere {
    fn set_bh_node_index(&mut self, index: usize) {
        self.node_index = index;
    }

    fn bh_node_index(&self) -> usize {
        self.node_index
    }
}

fn bits(p: &Point3<f32>) -> Vec3Bits {
    Vec3Bits { x: p.x.to_bits(), y: p.y.to_bits(), z: p.z.to_bits() }
}

fn flatten(spheres: &mut Vec<Sphere>) -> Vec<BVHNode> {
    if spheres.is_empty() {
        return Vec::new();
    }
    let bvh = Bvh::build(spheres);
    bvh.flatten()
        .iter()
        .map(|n| BVHNode {
            min: bits(&n.aabb.min),
            max: bits(&n.aabb.max),
            entry_index: n.entry_index,
            exit_index: n.exit_index,
            shape_index: n.shape_index,
        })
        .collect()
}

fn sphere(x: f32, y: f32, z: f32, radius: f32) -> Sphere {
    Sphere { centre: [x, y, z], radius, node_index: 0 }
}

fn zero() -> Vec3Bits {
    Vec3Bits { x: 0, y: 0, z: 0 }
}

fn leaf(exit: u32, shape: u32) -> BVHNode {
    BVHNode { min: zero(), max: zero(), entry_index: SENTINEL, exit_index: exit, shape_index: shape }
}

fn inner(entry: u32, exit: u32) -> BVHNode {
    BVHNode { min: zero(), max: zero(), entry_index: entry, exit_index: exit, shape_index: SENTINEL }
}

fn assert_skip_links(nodes: &[BVHNode]) {
    for (i, n) in nodes.iter().enumerate() {
        let e = n.exit_index as usize;
        assert!(e > i && e <= nodes.len());
        if n.shape_index == SENTINEL {
            assert_eq!(n.entry_index as usize, i + 1);
        } else {
            assert_eq!(n.entry_index, SENTINEL);
            assert_eq!(e, i + 1);
        }
        for j in i + 1..e {
            assert!(nodes[j].exit_index as usize <= e);
        }
    }
}

fn assert_leaves_permute(nodes: &[BVHNode], n: usize) {
    let mut shapes: Vec<u32> = nodes.iter().filter(|x| x.shape_index != SENTINEL).map(|x| x.shape_index).collect();
    shapes.sort();
    let expected: Vec<u32> = (0..n as u32).collect();
    assert_eq!(shapes, expected);
}

#[test]
fn three_spheres_give_three_leaves_and_an_internal_node() {
    let mut spheres = vec![sphere(0.0, 0.0, 0.0, 1.0), sphere(2.0, 0.0, 0.0, 1.0), sphere(-2.0, 0.0, 0.0, 1.0)];
    let raw = flatten(&mut spheres);
    let nodes = prepare_gpu_nodes(&raw, 3).unwrap();
    let leaves = nodes.iter().filter(|n| n.shape_index != SENTINEL).count();
    let internal = nodes.len() - leaves;
    assert_eq!(leaves, 3);
    assert!(internal >= 1);
    assert_skip_links(&nodes);
    assert_leaves_permute(&nodes, 3);
}

#[test]
fn many_spheres_from_the_hierarchy_builder_are_accepted() {
    let mut spheres = Vec::new();
    for i in 0..57 {
        let f = i as f32;
        spheres.push(sphere((f * 1.7) % 9.0 - 4.0, (f * 2.3) % 7.0 - 3.0, (f * 0.9) % 5.0, 0.2 + (i % 3) as f32 * 0.1));
    }
    let raw = flatten(&mut spheres);
    let nodes = prepare_gpu_nodes(&raw, 57).unwrap();
    assert_eq!(nodes.len(), raw.len());
    let leaves = nodes.iter().filter(|n| n.shape_index != SENTINEL).count();
    assert_eq!(leaves, 57);
    assert_skip_links(&nodes);
    assert_leaves_permute(&nodes, 57);
    for n in &nodes {
        for v in [n.min.x, n.min.y, n.min.z, n.max.x, n.max.y, n.max.z] {
            assert!(f32::from_bits(v).is_finite());
        }
    }
}

#[test]
fn single_sphere_is_a_single_leaf() {
    let mut spheres = vec![sphere(1.0, 2.0, 3.0, 0.5)];
    let raw = flatten(&mut spheres);
    assert_eq!(raw.len(), 1);
    let nodes = prepare_gpu_nodes(&raw, 1).unwrap();
    assert_eq!(nodes[0].shape_index, 0);
    assert_eq!(nodes[0].exit_index, 1);
}

#[test]
fn empty_scene_has_no_nodes() {
    let nodes = prepare_gpu_nodes(&Vec::new(), 0).unwrap();
    assert!(nodes.is_empty());
    assert_eq!(prepare_gpu_nodes(&Vec::new(), 2), Err(BvhError::LeafShapeMismatch));
}

#[test]
fn handmade_forest_is_accepted() {
    // Two top-level subtrees: (leaf 0, leaf 2) under node 0, then leaf 1.
    let raw = vec![inner(1, 3), leaf(2, 0), leaf(3, 2), leaf(4, 1)];
    assert_eq!(prepare_gpu_nodes(&raw, 3), Ok(raw.clone()));
}

#[test]
fn exit_beyond_the_array_is_refused() {
    let raw = vec![inner(1, 3), leaf(2, 0), leaf(3, 1), leaf(9, 2)];
    assert_eq!(prepare_gpu_nodes(&raw, 3), Err(BvhError::MalformedLinks));
}

#[test]
fn descendant_exiting_past_its_parent_is_refused() {
    let raw = vec![inner(1, 3), leaf(2, 0), inner(3, 4), leaf(4, 1)];
    assert_eq!(prepare_gpu_nodes(&raw, 2), Err(BvhError::MalformedLinks));
}

#[test]
fn wrong_entry_index_is_refused() {
    let raw = vec![inner(2, 3), leaf(2, 0), leaf(3, 1)];
    assert_eq!(prepare_gpu_nodes(&raw, 2), Err(BvhError::MalformedLinks));
}

#[test]
fn leaf_skipping_a_node_is_refused() {
    let raw = vec![leaf(2, 0), leaf(2, 1)];
    assert_eq!(prepare_gpu_nodes(&raw, 2), Err(BvhError::MalformedLinks));
}

#[test]
fn leaf_with_an_entry_index_is_refused() {
    let mut l = leaf(1, 0);
    l.entry_index = 1;
    assert_eq!(prepare_gpu_nodes(&vec![l], 1), Err(BvhError::MalformedLinks));
}

#[test]
fn internal_node_without_children_is_refused() {
    let raw = vec![inner(1, 1)];
    assert_eq!(prepare_gpu_nodes(&raw, 0), Err(BvhError::MalformedLinks));
}

#[test]
fn duplicate_leaf_shape_is_refused() {
    let raw = vec![leaf(1, 0), leaf(2, 0)];
    assert_eq!(prepare_gpu_nodes(&raw, 2), Err(BvhError::LeafShapeMismatch));
}

#[test]
fn leaf_shape_out_of_range_is_refused() {
    let raw = vec![leaf(1, 0), leaf(2, 5)];
    assert_eq!(prepare_gpu_nodes(&raw, 2), Err(BvhError::LeafShapeMismatch));
}

#[test]
fn too_few_leaves_are_refused() {
    let raw = vec![leaf(1, 0), leaf(2, 1)];
    assert_eq!(prepare_gpu_nodes(&raw, 3), Err(BvhError::LeafShapeMismatch));
}

#[test]
fn infinite_bounds_become_finite() {
    assert_eq!(gpu_friendly_f32(f32::INFINITY.to_bits()), 99999999.0f32.to_bits());
    assert_eq!(gpu_friendly_f32(f32::NEG_INFINITY.to_bits()), (-99999999.0f32).to_bits());
    assert_eq!(FAR_BITS, 99999999.0f32.to_bits());
    assert_eq!(NEG_FAR_BITS, (-99999999.0f32).to_bits());
    assert_eq!(gpu_friendly_f32(1.5f32.to_bits()), 1.5f32.to_bits());
    let inf = f32::INFINITY.to_bits();
    let ninf = f32::NEG_INFINITY.to_bits();
    let raw = vec![BVHNode {
        min: Vec3Bits { x: inf, y: inf, z: inf },
        max: Vec3Bits { x: ninf, y: ninf, z: 2.0f32.to_bits() },
        entry_index: SENTINEL,
        exit_index: 1,
        shape_index: 0,
    }];
    let nodes = prepare_gpu_nodes(&raw, 1).unwrap();
    assert_eq!(nodes[0].min, Vec3Bits { x: FAR_BITS, y: FAR_BITS, z: FAR_BITS });
    assert_eq!(nodes[0].max, Vec3Bits { x: NEG_FAR_BITS, y: NEG_FAR_BITS, z: 2.0f32.to_bits() });
    assert_eq!(nodes[0].exit_index, 1);
}

#[test]
fn node_encoding_is_forty_eight_little_endian_bytes() {
    let node = BVHNode {
        min: Vec3Bits { x: 1, y: 2, z: 3 },
        max: Vec3Bits { x: 4, y: 5, z: 0x0102_0304 },
        entry_index: 7,
        exit_index: 8,
        shape_index: 9,
    };
    let bytes = encode_bvh_nodes(&vec![node, node]);
    assert_eq!(bytes.len(), 96);
    let words: Vec<u32> = bytes.chunks(4).map(|c| u32::from_le_bytes([c[0], c[1], c[2], c[3]])).collect();
    assert_eq!(&words[0..12], &[1, 2, 3, 0, 4, 5, 0x0102_0304, 0, 7, 8, 9, 9]);
    assert_eq!(&words[12..24], &words[0..12]);
    assert_eq!(&bytes[24..28], &[4, 3, 2, 1]);
}
