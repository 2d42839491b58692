//! Node codec round-trip and builder behaviour.

use voxel_engine::node::{OctreeNode, OctreeNodeBuilder};

#[test]
fn codec_round_trip_exhaustive_masks() {
    // Sweep every valid/leaf mask pair with leaf & !valid == 0, over a
    // sample of child pointers and both far values.
    for valid in 0..=255u8 {
        for leaf_bits in 0..=255u8 {
            let leaf = leaf_bits & valid;
            for &ptr in &[0u16, 1, 2, 1234, 0x7fff] {
                for &far in &[false, true] {
                    let n = OctreeNode::new(ptr, far, valid, leaf);
                    assert_eq!(n.child_ptr(), ptr);
                    assert_eq!(n.far(), far);
                    for i in 0..8 {
                        assert_eq!(n.valid(i), (valid >> i) & 1 == 1);
                        assert_eq!(n.leaf(i), (leaf >> i) & 1 == 1);
                    }
                }
            }
        }
    }
}

#[test]
fn codec_round_trip_all_child_ptrs() {
    // Every 15-bit child pointer survives a pack/unpack round trip.
    for ptr in 0..0x8000u16 {
        let n = OctreeNode::new(ptr, false, 0xa5, 0x21);
        assert_eq!(n.child_ptr(), ptr);
        assert!(!n.far());
    }
}

#[test]
fn codec_truncates_oversized_child_ptr() {
    // The top bit of a 16-bit pointer is dropped by construction.
    let n = OctreeNode::new(0x8001, false, 0, 0);
    assert_eq!(n.child_ptr(), 1);
}

#[test]
fn builder_matches_packed_constructor() {
    let built = OctreeNodeBuilder::new()
        .child_ptr(321)
        .far(true)
        .valid(0xf0)
        .leaf(0x30)
        .build();
    let packed = OctreeNode::new(321, true, 0xf0, 0x30);
    assert_eq!(built, packed);
}

#[test]
fn builder_defaults_to_empty_node() {
    let n = OctreeNodeBuilder::new().build();
    assert_eq!(n.child_ptr(), 0);
    assert!(!n.far());
    for i in 0..8 {
        assert!(!n.valid(i));
        assert!(!n.leaf(i));
    }
}
