//! Immutable flat octree store.
//!
//! An octree is an append-only sequence of packed nodes with the root at
//! index 0.  The children of a node are stored contiguously: the slot of the
//! child in octant `i` (when valid) is `child_pointer + popcount(valid_mask &
//! ((1 << i) - 1))`.
//!
//! A store is published once, fully built, and then only read.  The
//! well-formedness check below is the publish-time validation: every slot a
//! traversal can reach must lie inside the store, so no traversal ever has to
//! check bounds mid-flight.  The `far` flag is a reserved extension point; a
//! well-formed store does not use it on nodes with non-leaf children.

use crate::node::{node_child_ptr, node_far, node_leaf, node_valid, node_valid_mask, OctreeNode};
use vstd::prelude::*;

verus! {

/// Number of set bits among the low eight bits of `m`.
pub open spec fn spec_pop8(m: u32) -> int {
    ((m & 1) + ((m >> 1u32) & 1) + ((m >> 2u32) & 1) + ((m >> 3u32) & 1) + ((m >> 4u32) & 1) + ((m
        >> 5u32) & 1) + ((m >> 6u32) & 1) + ((m >> 7u32) & 1)) as int
}

/// The mask selecting the octants below octant `i`.
pub open spec fn mask_below(i: u32) -> u32 {
    ((1u32 << i) - 1) as u32
}

/// Store slot of the child of `bits` in octant `i`: the child pointer plus
/// the number of valid octants below `i`.
pub open spec fn spec_child_slot(bits: u32, i: u32) -> int {
    node_child_ptr(bits) + spec_pop8(node_valid_mask(bits) & mask_below(i))
}

/// Number of set bits of `valid_mask` in octants below `octant`.
pub fn popcount_below(valid_mask: u32, octant: u32) -> (r: u32)
    requires
        valid_mask < 256,
        octant < 8,
    ensures
        r == spec_pop8(valid_mask & mask_below(octant)),
        r <= 8,
{
    let one_shl: u32 = 1u32 << octant;
    proof {
        assert(1u32 << octant >= 1) by (bit_vector)
            requires
                octant < 8,
        ;
    }
    let m: u32 = valid_mask & (one_shl - 1);
    proof {
        assert((m & 1) <= 1 && ((m >> 1u32) & 1) <= 1 && ((m >> 2u32) & 1) <= 1 && ((m >> 3u32)
            & 1) <= 1 && ((m >> 4u32) & 1) <= 1 && ((m >> 5u32) & 1) <= 1 && ((m >> 6u32) & 1) <= 1
            && ((m >> 7u32) & 1) <= 1) by (bit_vector);
        assert(m == valid_mask & mask_below(octant));
    }
    (((m & 1) + ((m >> 1u32) & 1)) + (((m >> 2u32) & 1) + ((m >> 3u32) & 1))) + ((((m >> 4u32) & 1)
        + ((m >> 5u32) & 1)) + (((m >> 6u32) & 1) + ((m >> 7u32) & 1)))
}

/// Store slot of the child of `node` in octant `octant`.
pub fn child_slot(node: OctreeNode, octant: u32) -> (r: u32)
    requires
        octant < 8,
    ensures
        r == spec_child_slot(node.0, octant),
        r < 0x8008,
{
    let valid_mask: u32 = (node.0 >> 8u32) & 0xff;
    proof {
        let b = node.0;
        assert((b >> 8u32) & 0xff < 256) by (bit_vector);
    }
    node.child_ptr() as u32 + popcount_below(valid_mask, octant)
}

/// An immutable flat octree: packed nodes, root at index 0.
pub struct Octree {
    pub nodes: Vec<OctreeNode>,
}

impl Octree {
    /// One node has the condition an in-range store asks of it: any valid
    /// non-leaf octant keeps the reserved `far` flag clear and points at a
    /// slot inside a store of `len` nodes.
    pub open spec fn node_ok(bits: u32, len: int) -> bool {
        forall|i: u32|
            #![trigger node_valid(bits, i)]
            i < 8 && node_valid(bits, i) && !node_leaf(bits, i) ==> !node_far(bits)
                && spec_child_slot(bits, i) < len
    }

    /// A published store: nonempty, small enough to index with 32 bits, and
    /// closed under the child-slot relation.
    pub open spec fn wf(self) -> bool {
        &&& 1 <= self.nodes@.len() <= 0x8000_0000
        &&& forall|j: int|
            0 <= j < self.nodes@.len() ==> Self::node_ok(
                (#[trigger] self.nodes@[j]).0,
                self.nodes@.len() as int,
            )
    }

    /// The root has no children at all: every traversal must miss.
    pub open spec fn root_empty(self) -> bool {
        node_valid_mask(self.nodes@[0].0) == 0
    }

    /// Validate and publish a store.  Returns the store exactly when the
    /// node sequence is nonempty, not oversized, and closed under the
    /// child-slot relation; a malformed sequence is rejected here, never
    /// discovered mid-traversal.
    pub fn new(nodes: Vec<OctreeNode>) -> (r: Option<Octree>)
        ensures
            match r {
                Some(o) => o.nodes == nodes && o.wf(),
                None => !(Octree { nodes }).wf(),
            },
    {
        if nodes.len() == 0 || nodes.len() > 0x8000_0000 {
            return None;
        }
        let len = nodes.len();
        let mut j: usize = 0;
        while j < len
            invariant
                len == nodes@.len(),
                1 <= len <= 0x8000_0000,
                j <= len,
                forall|k: int|
                    0 <= k < j ==> Self::node_ok((#[trigger] nodes@[k]).0, len as int),
            decreases len - j,
        {
            let bits = nodes[j].0;
            let mut i: u32 = 0;
            while i < 8
                invariant
                    len == nodes@.len(),
                    1 <= len <= 0x8000_0000,
                    j < len,
                    bits == nodes@[j as int].0,
                    i <= 8,
                    forall|i2: u32|
                        i2 < i && node_valid(bits, i2) && !node_leaf(bits, i2) ==> !node_far(bits)
                            && spec_child_slot(bits, i2) < len,
                decreases 8 - i,
            {
                let n = nodes[j];
                if n.valid(i as usize) && !n.leaf(i as usize) {
                    if n.far() {
                        return None;
                    }
                    if child_slot(n, i) as usize >= len {
                        return None;
                    }
                }
                i = i + 1;
            }
            assert(Self::node_ok(nodes@[j as int].0, len as int));
            j = j + 1;
        }
        Some(Octree { nodes })
    }

    /// Number of nodes in the store.
    pub fn len(&self) -> (r: usize)
        ensures
            r == self.nodes@.len(),
    {
        self.nodes.len()
    }

    /// The node at `idx`.
    pub fn node(&self, idx: usize) -> (r: OctreeNode)
        requires
            idx < self.nodes@.len(),
        ensures
            r == self.nodes@[idx as int],
    {
        self.nodes[idx]
    }
}

} // verus!
