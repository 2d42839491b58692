//! Chunked voxel-model byte format.
//!
//! A model file starts with the 4-byte magic `"VOX "` and a little-endian
//! 32-bit version that must equal 150, followed by a `MAIN` chunk.  Every
//! chunk carries a 4-byte tag, a 32-bit content-byte length and a 32-bit
//! children-byte length.  Recognized tags are `SIZE` (three 32-bit
//! dimensions) and `XYZI` (a 32-bit voxel count followed by that many
//! `(x, y, z, color_index)` quadruples of 32-bit values); an unrecognized
//! tag is skipped over its declared content length.
//!
//! The parser is pinned to the declarative reading of the bytes,
//! `spec_parse_vox`: it succeeds exactly on well-formed files, and then
//! returns, in input order, one `Size` per SIZE chunk and one `Xyzi` with
//! the declared quadruples per XYZI chunk; malformed bytes surface as an
//! error, never as silent acceptance.  The traversal core never sees this
//! format: it consumes only the packed node store an external builder
//! derives from the parsed voxels.

use vstd::prelude::*;

verus! {

/// One voxel of a model: grid position and palette index.
#[derive(Clone, Copy, PartialEq, Eq, Structural, Debug)]
pub struct Voxel {
    pub x: u32,
    pub y: u32,
    pub z: u32,
    pub color_index: u32,
}

/// The content of one recognized chunk.
#[derive(Debug)]
pub enum ChunkContent {
    /// A chunk that carries nothing the engine reads.
    Empty,
    /// Model dimensions.
    Size(i32, i32, i32),
    /// The voxels of a model.
    Xyzi(Vec<Voxel>),
}

/// Why a byte sequence is not a model file.
#[derive(Clone, Copy, PartialEq, Eq, Structural, Debug)]
pub enum VoxError {
    /// The magic `"VOX "` is absent.
    BadMagic,
    /// The version field differs from 150.
    BadVersion,
    /// The first chunk is not `MAIN`.
    MissingMain,
    /// A declared length is negative.
    BadLength,
    /// The bytes end before a declared structure does.
    Truncated,
}

/// The value of one recognized chunk, as the specification sees it.
pub enum ChunkData {
    /// A chunk that carries nothing the engine reads.
    Empty,
    /// Model dimensions.
    Size(int, int, int),
    /// The voxels of a model.
    Xyzi(Seq<Voxel>),
}

/// The value a parsed chunk denotes.
pub open spec fn chunk_view(c: ChunkContent) -> ChunkData {
    match c {
        ChunkContent::Empty => ChunkData::Empty,
        ChunkContent::Size(x, y, z) => ChunkData::Size(x as int, y as int, z as int),
        ChunkContent::Xyzi(v) => ChunkData::Xyzi(v@),
    }
}

/// The values a parsed chunk list denotes.
pub open spec fn chunks_view(s: Seq<ChunkContent>) -> Seq<ChunkData> {
    s.map_values(|c: ChunkContent| chunk_view(c))
}

/// The little-endian 32-bit value at offset `p`.
pub open spec fn le_u32_at(s: Seq<u8>, p: int) -> int {
    s[p] + 0x100 * s[p + 1] + 0x1_0000 * s[p + 2] + 0x100_0000 * s[p + 3]
}

/// The same value read as a signed 32-bit integer.
pub open spec fn le_i32_at(s: Seq<u8>, p: int) -> int {
    if le_u32_at(s, p) < 0x8000_0000 {
        le_u32_at(s, p)
    } else {
        le_u32_at(s, p) - 0x1_0000_0000
    }
}

/// The bytes start with the magic `"VOX "`.
pub open spec fn has_magic(s: Seq<u8>) -> bool {
    s.len() >= 4 && s[0] == 0x56u8 && s[1] == 0x4fu8 && s[2] == 0x58u8 && s[3] == 0x20u8
}

/// The four bytes at `p` spell `MAIN`.
pub open spec fn main_tag_at(s: Seq<u8>, p: int) -> bool {
    s[p] == 0x4du8 && s[p + 1] == 0x41u8 && s[p + 2] == 0x49u8 && s[p + 3] == 0x4eu8
}

/// The four bytes at `p` spell `SIZE`.
pub open spec fn size_tag_at(s: Seq<u8>, p: int) -> bool {
    s[p] == 0x53u8 && s[p + 1] == 0x49u8 && s[p + 2] == 0x5au8 && s[p + 3] == 0x45u8
}

/// The four bytes at `p` spell `XYZI`.
pub open spec fn xyzi_tag_at(s: Seq<u8>, p: int) -> bool {
    s[p] == 0x58u8 && s[p + 1] == 0x59u8 && s[p + 2] == 0x5au8 && s[p + 3] == 0x49u8
}

/// The file header is sound: magic, version 150, and a `MAIN` chunk
/// header, twenty bytes in all.
pub open spec fn header_ok(s: Seq<u8>) -> bool {
    s.len() >= 20 && has_magic(s) && le_i32_at(s, 4) == 150 && main_tag_at(s, 8)
}

/// The `n` voxel quadruples starting at `base`, in order.
pub open spec fn spec_voxels(s: Seq<u8>, base: int, n: int) -> Seq<Voxel> {
    Seq::new(
        n as nat,
        |j: int|
            Voxel {
                x: le_u32_at(s, base + 16 * j) as u32,
                y: le_u32_at(s, base + 16 * j + 4) as u32,
                z: le_u32_at(s, base + 16 * j + 8) as u32,
                color_index: le_u32_at(s, base + 16 * j + 12) as u32,
            },
    )
}

/// The chunk values declared by the bytes from `pos` to the end: each
/// chunk is a 12-byte header followed by its declared content, a SIZE
/// chunk denotes its three dimensions, an XYZI chunk its counted
/// quadruples, and any other tag is skipped and denotes nothing.  `None`
/// when the bytes end before a declared structure does, or a declared
/// length is negative.
pub open spec fn spec_chunks(s: Seq<u8>, pos: int) -> Option<Seq<ChunkData>>
    decreases s.len() - pos,
{
    if pos >= s.len() {
        Some(Seq::empty())
    } else if s.len() - pos < 12 {
        None
    } else {
        let cl = le_u32_at(s, pos + 4);
        if cl >= 0x8000_0000 {
            None
        } else if s.len() - pos - 12 < cl {
            None
        } else {
            let rest = spec_chunks(s, pos + 12 + cl);
            if size_tag_at(s, pos) {
                if cl < 12 {
                    None
                } else {
                    match rest {
                        Some(tl) => Some(
                            seq![
                                ChunkData::Size(
                                    le_i32_at(s, pos + 12),
                                    le_i32_at(s, pos + 16),
                                    le_i32_at(s, pos + 20),
                                ),
                            ] + tl,
                        ),
                        None => None,
                    }
                }
            } else if xyzi_tag_at(s, pos) {
                if cl < 4 {
                    None
                } else {
                    let n = le_u32_at(s, pos + 12);
                    if n * 16 + 4 > cl {
                        None
                    } else {
                        match rest {
                            Some(tl) => Some(
                                seq![ChunkData::Xyzi(spec_voxels(s, pos + 16, n))] + tl,
                            ),
                            None => None,
                        }
                    }
                }
            } else {
                rest
            }
        }
    }
}

/// What parsing a model file yields: the chunk values after a sound
/// header, or nothing for a malformed file.
pub open spec fn spec_parse_vox(s: Seq<u8>) -> Option<Seq<ChunkData>> {
    if header_ok(s) {
        spec_chunks(s, 20)
    } else {
        None
    }
}

/// The walk's accumulator matches the whole file: the chunks read so far,
/// followed by whatever the bytes from `pos` declare, are exactly the
/// file's chunks.
pub open spec fn walk_matches(s: Seq<u8>, pos: int, acc: Seq<ChunkData>) -> bool {
    spec_chunks(s, 20) == (match spec_chunks(s, pos) {
        Some(tl) => Some(acc + tl),
        None => None,
    })
}

/// A 32-bit value reinterpreted as signed wraps by `2^32`.
proof fn lemma_u32_as_i32(v: u32)
    by (bit_vector)
    ensures
        v < 0x8000_0000 ==> (#[verifier::truncate] (v as i32)) == v,
        v >= 0x8000_0000 ==> (#[verifier::truncate] (v as i32)) == v - 0x1_0000_0000,
{
}

/// Appending one parsed chunk appends its value.
proof fn lemma_view_push(s: Seq<ChunkContent>, c: ChunkContent)
    ensures
        chunks_view(s.push(c)) == chunks_view(s).push(chunk_view(c)),
{
    assert(chunks_view(s.push(c)) =~= chunks_view(s).push(chunk_view(c)));
}

/// Moving one chunk value from the remainder to the accumulator.
proof fn lemma_shift_head(acc: Seq<ChunkData>, e: ChunkData, tl: Seq<ChunkData>)
    ensures
        acc.push(e) + tl == acc + (seq![e] + tl),
{
    assert(acc.push(e) + tl =~= acc + (seq![e] + tl));
}

/// Read the little-endian 32-bit value at `p`.
fn read_u32(input: &[u8], p: usize) -> (r: u32)
    requires
        p + 4 <= input@.len(),
    ensures
        r == le_u32_at(input@, p as int),
{
    (input[p] as u32) + 0x100 * (input[p + 1] as u32) + 0x1_0000 * (input[p + 2] as u32)
        + 0x100_0000 * (input[p + 3] as u32)
}

/// Parse a model file into its recognized chunk contents.
///
/// Success is owed exactly on well-formed files — a sound header followed
/// by chunks whose declared lengths the bytes cover — and the returned
/// list denotes exactly the file's chunk values, in input order
/// (`spec_parse_vox`).  The three header faults are reported as their own
/// errors; any other malformed byte sequence is rejected as truncated or
/// as carrying a negative length.
pub fn parse_vox(input: &[u8]) -> (r: Result<Vec<ChunkContent>, VoxError>)
    ensures
        (r matches Err(e) && e == VoxError::BadMagic) <==> !has_magic(input@),
        (r matches Err(e) && e == VoxError::BadVersion) <==> (has_magic(input@) && input@.len() >= 8
            && le_i32_at(input@, 4) != 150),
        (r matches Err(e) && e == VoxError::MissingMain) <==> (has_magic(input@) && input@.len()
            >= 20 && le_i32_at(input@, 4) == 150 && !main_tag_at(input@, 8)),
        r is Ok <==> spec_parse_vox(input@) is Some,
        r matches Ok(chunks) ==> Some(chunks_view(chunks@)) == spec_parse_vox(input@),
{
    if input.len() < 4 || input[0] != 0x56 || input[1] != 0x4f || input[2] != 0x58 || input[3]
        != 0x20 {
        return Err(VoxError::BadMagic);
    }
    if input.len() < 8 {
        return Err(VoxError::Truncated);
    }
    let version = read_u32(input, 4);
    if version != 150 {
        return Err(VoxError::BadVersion);
    }
    if input.len() < 20 {
        return Err(VoxError::Truncated);
    }
    if input[8] != 0x4d || input[9] != 0x41 || input[10] != 0x49 || input[11] != 0x4e {
        return Err(VoxError::MissingMain);
    }
    // The twelve header bytes of MAIN are followed by its children, which
    // are the file's remaining chunks.
    let mut pos: usize = 20;
    let mut chunks: Vec<ChunkContent> = Vec::new();

    proof {
        if spec_chunks(input@, 20) is Some {
            let tl = spec_chunks(input@, 20)->Some_0;
            assert(chunks_view(chunks@) + tl =~= tl);
        }
    }
    while pos < input.len()
        invariant
            20 <= pos <= input@.len(),
            header_ok(input@),
            walk_matches(input@, pos as int, chunks_view(chunks@)),
        decreases input@.len() - pos,
    {
        let ghost cpos = pos as int;
        let ghost s = input@;
        if input.len() - pos < 12 {
            proof {
                assert(spec_chunks(s, cpos) is None);
            }
            return Err(VoxError::Truncated);
        }
        let t0 = input[pos];
        let t1 = input[pos + 1];
        let t2 = input[pos + 2];
        let t3 = input[pos + 3];
        // The chunk's children length at offset 8 is declared but plays no
        // part in the walk: content is consumed by its own length.
        let content_len = read_u32(input, pos + 4);
        if content_len >= 0x8000_0000 {
            proof {
                assert(spec_chunks(s, cpos) is None);
            }
            return Err(VoxError::BadLength);
        }
        pos = pos + 12;
        let cl = content_len as usize;
        if input.len() - pos < cl {
            proof {
                assert(spec_chunks(s, cpos) is None);
            }
            return Err(VoxError::Truncated);
        }
        let ghost acc0 = chunks_view(chunks@);
        if t0 == 0x53 && t1 == 0x49 && t2 == 0x5a && t3 == 0x45 {
            // SIZE: three dimensions.
            if cl < 12 {
                proof {
                    assert(size_tag_at(s, cpos));
                    assert(spec_chunks(s, cpos) is None);
                }
                return Err(VoxError::Truncated);
            }
            let dx = read_u32(input, pos);
            let dy = read_u32(input, pos + 4);
            let dz = read_u32(input, pos + 8);
            let c = ChunkContent::Size(
                #[verifier::truncate] (dx as i32),
                #[verifier::truncate] (dy as i32),
                #[verifier::truncate] (dz as i32),
            );
            let ghost prev = chunks@;
            let ghost cg = c;
            proof {
                lemma_u32_as_i32(dx);
                lemma_u32_as_i32(dy);
                lemma_u32_as_i32(dz);
                assert(chunk_view(cg) == ChunkData::Size(
                    le_i32_at(s, cpos + 12),
                    le_i32_at(s, cpos + 16),
                    le_i32_at(s, cpos + 20),
                ));
            }
            chunks.push(c);
            proof {
                lemma_view_push(prev, cg);
            }
        } else if t0 == 0x58 && t1 == 0x59 && t2 == 0x5a && t3 == 0x49 {
            // XYZI: a voxel count and that many quadruples.
            if cl < 4 {
                proof {
                    assert(xyzi_tag_at(s, cpos) && !size_tag_at(s, cpos));
                    assert(spec_chunks(s, cpos) is None);
                }
                return Err(VoxError::Truncated);
            }
            let count = read_u32(input, pos);
            if (count as u64) * 16 + 4 > (cl as u64) {
                proof {
                    assert(xyzi_tag_at(s, cpos) && !size_tag_at(s, cpos));
                    assert(spec_chunks(s, cpos) is None);
                }
                return Err(VoxError::Truncated);
            }
            let mut voxels: Vec<Voxel> = Vec::new();
            let mut j: u32 = 0;
            proof {
                assert(voxels@ =~= spec_voxels(s, cpos + 16, 0));
            }
            while j < count
                invariant
                    j <= count,
                    4 <= cl,
                    input@.len() <= usize::MAX,
                    (count as int) * 16 + 4 <= cl as int,
                    pos + cl <= input@.len(),
                    s == input@,
                    cpos + 12 == pos,
                    voxels@ == spec_voxels(s, cpos + 16, j as int),
                decreases count - j,
            {
                proof {
                    lemma_quad_offset(j as int, count as int);
                }
                let base = pos + 4 + 16 * (j as usize);
                let v = Voxel {
                    x: read_u32(input, base),
                    y: read_u32(input, base + 4),
                    z: read_u32(input, base + 8),
                    color_index: read_u32(input, base + 12),
                };
                voxels.push(v);
                j = j + 1;
                proof {
                    assert(voxels@ =~= spec_voxels(s, cpos + 16, j as int));
                }
            }
            let c = ChunkContent::Xyzi(voxels);
            let ghost prev = chunks@;
            let ghost cg = c;
            proof {
                assert(chunk_view(cg) == ChunkData::Xyzi(
                    spec_voxels(s, cpos + 16, le_u32_at(s, cpos + 12)),
                ));
            }
            chunks.push(c);
            proof {
                lemma_view_push(prev, cg);
            }
        }
        // An unrecognized tag is dropped; its content is skipped by the
        // declared length.
        pos = pos + cl;
        proof {
            let rest = spec_chunks(s, pos as int);
            assert(pos as int == cpos + 12 + le_u32_at(s, cpos + 4));
            if size_tag_at(s, cpos) {
                let e = ChunkData::Size(
                    le_i32_at(s, cpos + 12),
                    le_i32_at(s, cpos + 16),
                    le_i32_at(s, cpos + 20),
                );
                assert(spec_chunks(s, cpos) == (match rest {
                    Some(tl) => Some(seq![e] + tl),
                    None => None::<Seq<ChunkData>>,
                }));
                assert(chunks_view(chunks@) == acc0.push(e));
                match rest {
                    Some(tl) => {
                        lemma_shift_head(acc0, e, tl);
                    },
                    None => {},
                }
            } else if xyzi_tag_at(s, cpos) {
                let e = ChunkData::Xyzi(spec_voxels(s, cpos + 16, le_u32_at(s, cpos + 12)));
                assert(spec_chunks(s, cpos) == (match rest {
                    Some(tl) => Some(seq![e] + tl),
                    None => None::<Seq<ChunkData>>,
                }));
                assert(chunks_view(chunks@) == acc0.push(e));
                match rest {
                    Some(tl) => {
                        lemma_shift_head(acc0, e, tl);
                    },
                    None => {},
                }
            } else {
                assert(spec_chunks(s, cpos) == rest);
                assert(chunks_view(chunks@) == acc0);
            }
        }
    }
    proof {
        assert(spec_chunks(input@, pos as int) == Some(Seq::<ChunkData>::empty()));
        assert(chunks_view(chunks@) + Seq::<ChunkData>::empty() =~= chunks_view(chunks@));
    }
    Ok(chunks)
}

/// A quadruple within the declared count stays within the declared bytes.
proof fn lemma_quad_offset(j: int, count: int)
    by (nonlinear_arith)
    requires
        0 <= j < count,
    ensures
        16 * j + 16 <= 16 * count,
{
}

} // verus!
