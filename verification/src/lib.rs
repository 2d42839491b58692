//! Sparse-voxel-octree ray traversal.
//!
//! The crate provides a packed 32-bit node codec, an immutable flat octree
//! store, a camera ray generator working on fixed-point matrices, and an
//! iterative, stack-based traversal that walks a ray through the octree to
//! the first intersected leaf voxel.  A simpler depth-first traversal serves
//! as a correctness oracle, and a parser reads the chunked voxel-model byte
//! format that octrees are built from.
//!
//! All coordinates are fixed-point integers (23 fractional bits, matching the
//! mantissa width of a single-precision float), and all ray-parameter
//! comparisons are exact rational comparisons, so every traversal decision is
//! deterministic and verified: no traversal can fault, and the only outcomes
//! are a hit on a real leaf or a miss.

pub mod camera;
pub mod laws;
pub mod node;
pub mod octree;
pub mod rat;
pub mod ray;
pub mod reference;
pub mod traverse;
pub mod vox;
