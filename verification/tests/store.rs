//! Octree store validation.

use voxel_engine::node::OctreeNode;
use voxel_engine::octree::Octree;

#[test]
fn empty_store_is_rejected() {
    assert!(Octree::new(Vec::new()).is_none());
}

#[test]
fn out_of_range_child_slot_is_rejected() {
    // Root points its internal child past the end of the store.
    let root = OctreeNode::new(7, false, 0x01, 0x00);
    assert!(Octree::new(vec![root]).is_none());
}

#[test]
fn far_flag_on_internal_node_is_rejected() {
    // The far flag is a reserved extension point; a store using it on a
    // node with internal children is not accepted.
    let root = OctreeNode::new(1, true, 0x01, 0x00);
    let child = OctreeNode::new(0, false, 0x01, 0x01);
    assert!(Octree::new(vec![root, child]).is_none());
}

#[test]
fn far_flag_on_leaf_only_node_is_accepted() {
    // With only leaf children the pointer is never followed, so the flag
    // is inert.
    let root = OctreeNode::new(0, true, 0xff, 0xff);
    assert!(Octree::new(vec![root]).is_some());
}

#[test]
fn valid_two_level_store_is_accepted() {
    // Octant 0 is a leaf owning slot 1; octant 4 is internal in slot 2.
    let root = OctreeNode::new(1, false, 0x11, 0x01);
    let leaf_slot = OctreeNode::new(0, false, 0x00, 0x00);
    let child = OctreeNode::new(0, false, 0xff, 0xff);
    assert!(Octree::new(vec![root, leaf_slot, child]).is_some());
}

#[test]
fn store_reads_back_nodes() {
    let a = OctreeNode::new(1, false, 0x01, 0x01);
    let b = OctreeNode::new(0, false, 0x00, 0x00);
    let o = Octree::new(vec![a, b]).unwrap();
    assert_eq!(o.len(), 2);
    assert_eq!(o.node(0), a);
    assert_eq!(o.node(1), b);
}
