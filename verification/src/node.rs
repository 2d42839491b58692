//! Packed 32-bit octree node descriptor.
//!
//! Bit layout, from the least significant bit:
//! - bits 0..8:   `leaf_mask`, one bit per octant; set = that child is a
//!   terminal voxel,
//! - bits 8..16:  `valid_mask`, one bit per octant; set = that child exists,
//! - bit 16:      `far`, a reserved indirect-pointer flag,
//! - bits 17..32: `child_pointer`, offset of the first child slot, in node
//!   units.
//!
//! Out-of-range inputs are truncated to their bit width by construction; the
//! codec itself never rejects a value.  The invariant `leaf & !valid == 0`
//! is the builder's responsibility, not the codec's.

use vstd::prelude::*;

verus! {

/// Child pointer of a packed node: bits 17..32.
pub open spec fn node_child_ptr(bits: u32) -> u32 {
    bits >> 17
}

/// Far flag of a packed node: bit 16.
pub open spec fn node_far(bits: u32) -> bool {
    bits & 0x0001_0000u32 != 0
}

/// Valid mask of a packed node: bits 8..16.
pub open spec fn node_valid_mask(bits: u32) -> u32 {
    (bits >> 8) & 0xff
}

/// Leaf mask of a packed node: bits 0..8.
pub open spec fn node_leaf_mask(bits: u32) -> u32 {
    bits & 0xff
}

/// Octant `i` of the valid mask, for `i < 8`.
pub open spec fn node_valid(bits: u32, i: u32) -> bool {
    node_valid_mask(bits) & (1u32 << i) != 0
}

/// Octant `i` of the leaf mask, for `i < 8`.
pub open spec fn node_leaf(bits: u32, i: u32) -> bool {
    node_leaf_mask(bits) & (1u32 << i) != 0
}

/// The packed descriptor for the four fields; `child_ptr` keeps its low 15
/// bits, the other fields their full width.
pub open spec fn spec_pack(child_ptr: u16, far: bool, valid: u8, leaf: u8) -> u32 {
    (((child_ptr & 0x7fff) as u32) << 17) | (if far {
        0x0001_0000u32
    } else {
        0u32
    }) | ((valid as u32) << 8) | (leaf as u32)
}

/// A packed 32-bit octree node descriptor.
#[derive(Clone, Copy, PartialEq, Eq, Structural, Debug)]
pub struct OctreeNode(pub u32);

impl OctreeNode {
    /// Pack the four fields into a descriptor.  A `child_ptr` of 15 bits or
    /// fewer round-trips exactly; higher bits are truncated.
    pub fn new(child_ptr: u16, far: bool, valid: u8, leaf: u8) -> (r: OctreeNode)
        ensures
            r.0 == spec_pack(child_ptr, far, valid, leaf),
            node_child_ptr(r.0) == (child_ptr & 0x7fff) as u32,
            node_far(r.0) == far,
            node_valid_mask(r.0) == valid as u32,
            node_leaf_mask(r.0) == leaf as u32,
    {
        let bits: u32 = (((child_ptr & 0x7fff) as u32) << 17) | (if far {
            0x0001_0000u32
        } else {
            0u32
        }) | ((valid as u32) << 8) | (leaf as u32);
        proof {
            let f: u32 = if far {
                0x0001_0000u32
            } else {
                0u32
            };
            assert(f == 0 || f == 0x0001_0000u32);
            assert({
                let b = (((child_ptr & 0x7fff) as u32) << 17) | f | ((valid as u32) << 8) | (
                leaf as u32);
                b >> 17 == (child_ptr & 0x7fff) as u32 && (b & 0x0001_0000u32 == if f != 0 {
                    0x0001_0000u32
                } else {
                    0u32
                }) && (b >> 8) & 0xff == valid as u32 && b & 0xff == leaf as u32
            }) by (bit_vector)
                requires
                    f == 0 || f == 0x0001_0000u32,
            ;
        }
        OctreeNode(bits)
    }

    /// Offset of the first child slot, in node units (15 bits).
    pub fn child_ptr(&self) -> (r: u16)
        ensures
            r as u32 == node_child_ptr(self.0),
            r < 0x8000,
    {
        proof {
            let b = self.0;
            assert((b & 0xfffe_0000u32) >> 17 == b >> 17 && b >> 17 < 0x8000) by (bit_vector);
        }
        ((self.0 & 0xfffe_0000u32) >> 17) as u16
    }

    /// The reserved indirect-pointer flag.
    pub fn far(&self) -> (r: bool)
        ensures
            r == node_far(self.0),
    {
        (self.0 & 0x0001_0000u32) != 0
    }

    /// Whether the child in octant `index` exists.
    pub fn valid(&self, index: usize) -> (r: bool)
        requires
            index < 8,
        ensures
            r == node_valid(self.0, index as u32),
    {
        proof {
            let i = index as u32;
            let b = self.0;
            assert((b & (1u32 << (i + 8))) != 0 <==> ((b >> 8) & 0xff) & (1u32 << i) != 0)
                by (bit_vector)
                requires
                    i < 8,
            ;
        }
        (self.0 & (1u32 << ((index as u32) + 8))) != 0
    }

    /// Whether the child in octant `index` is a terminal voxel.
    pub fn leaf(&self, index: usize) -> (r: bool)
        requires
            index < 8,
        ensures
            r == node_leaf(self.0, index as u32),
    {
        proof {
            let i = index as u32;
            let b = self.0;
            assert((b & (1u32 << i)) != 0 <==> (b & 0xff) & (1u32 << i) != 0) by (bit_vector)
                requires
                    i < 8,
            ;
        }
        (self.0 & (1u32 << (index as u32))) != 0
    }
}

/// A small builder that assembles a descriptor field by field.
pub struct OctreeNodeBuilder {
    pub node: OctreeNode,
}

impl OctreeNodeBuilder {
    /// An empty descriptor: no children, null pointer.
    pub fn new() -> (r: OctreeNodeBuilder)
        ensures
            r.node.0 == 0,
    {
        OctreeNodeBuilder { node: OctreeNode(0u32) }
    }

    /// Set the child pointer (the low 15 bits of `value`).
    pub fn child_ptr(self, value: u16) -> (r: OctreeNodeBuilder)
        ensures
            r.node.0 == self.node.0 | (((value & 0x7fff) as u32) << 17),
    {
        OctreeNodeBuilder { node: OctreeNode(self.node.0 | (((value & 0x7fff) as u32) << 17)) }
    }

    /// Set the far flag.
    pub fn far(self, value: bool) -> (r: OctreeNodeBuilder)
        ensures
            r.node.0 == self.node.0 | (if value {
                0x0001_0000u32
            } else {
                0u32
            }),
    {
        OctreeNodeBuilder {
            node: OctreeNode(self.node.0 | (if value {
                0x0001_0000u32
            } else {
                0u32
            })),
        }
    }

    /// Set the valid mask.
    pub fn valid(self, value: u8) -> (r: OctreeNodeBuilder)
        ensures
            r.node.0 == self.node.0 | ((value as u32) << 8),
    {
        OctreeNodeBuilder { node: OctreeNode(self.node.0 | ((value as u32) << 8)) }
    }

    /// Set the leaf mask.
    pub fn leaf(self, value: u8) -> (r: OctreeNodeBuilder)
        ensures
            r.node.0 == self.node.0 | (value as u32),
    {
        OctreeNodeBuilder { node: OctreeNode(self.node.0 | (value as u32)) }
    }

    /// The assembled descriptor.
    pub fn build(self) -> (r: OctreeNode)
        ensures
            r == self.node,
    {
        self.node
    }
}

/// A node with an empty valid mask has no valid octant at all.
pub proof fn lemma_empty_valid_mask(bits: u32, i: u32)
    requires
        node_valid_mask(bits) == 0,
    ensures
        !node_valid(bits, i),
{
    let vm = node_valid_mask(bits);
    assert(vm == 0 ==> vm & (1u32 << i) == 0) by (bit_vector);
}

/// Packing a node and reading it back reproduces every field exactly, for
/// every `child_ptr` below `2^15`, both values of `far`, and all mask pairs
/// with `leaf & !valid == 0`.
pub proof fn lemma_codec_round_trip(child_ptr: u16, far: bool, valid: u8, leaf: u8)
    requires
        child_ptr < 0x8000,
        leaf & !valid == 0,
    ensures
        node_child_ptr(spec_pack(child_ptr, far, valid, leaf)) == child_ptr as u32,
        node_far(spec_pack(child_ptr, far, valid, leaf)) == far,
        node_valid_mask(spec_pack(child_ptr, far, valid, leaf)) == valid as u32,
        node_leaf_mask(spec_pack(child_ptr, far, valid, leaf)) == leaf as u32,
        forall|i: u32|
            i < 8 ==> node_valid(spec_pack(child_ptr, far, valid, leaf), i) == ((valid >> i) & 1
                == 1),
        forall|i: u32|
            i < 8 ==> node_leaf(spec_pack(child_ptr, far, valid, leaf), i) == ((leaf >> i) & 1
                == 1),
{
    let f: u32 = if far {
        0x0001_0000u32
    } else {
        0u32
    };
    assert({
        let b = (((child_ptr & 0x7fff) as u32) << 17) | f | ((valid as u32) << 8) | (leaf as u32);
        b >> 17 == child_ptr as u32 && (b & 0x0001_0000u32 == f) && (b >> 8) & 0xff == valid as u32
            && b & 0xff == leaf as u32
    }) by (bit_vector)
        requires
            child_ptr < 0x8000,
            f == 0 || f == 0x0001_0000u32,
    ;
    assert forall|i: u32| i < 8 implies node_valid(spec_pack(child_ptr, far, valid, leaf), i) == ((
    valid >> i) & 1 == 1) by {
        assert((valid as u32) & (1u32 << i) != 0 <==> (valid >> i) & 1 == 1) by (bit_vector)
            requires
                i < 8,
        ;
    }
    assert forall|i: u32| i < 8 implies node_leaf(spec_pack(child_ptr, far, valid, leaf), i) == ((
    leaf >> i) & 1 == 1) by {
        assert((leaf as u32) & (1u32 << i) != 0 <==> (leaf >> i) & 1 == 1) by (bit_vector)
            requires
                i < 8,
        ;
    }
}

} // verus!
