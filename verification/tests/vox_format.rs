//! Model-file parsing: headers, chunks, and rejection of malformed bytes.

use voxel_engine::vox::{parse_vox, ChunkContent, VoxError};

fn le(v: u32) -> [u8; 4] {
    [v as u8, (v >> 8) as u8, (v >> 16) as u8, (v >> 24) as u8]
}

/// `"VOX "`, version 150, and a MAIN chunk header covering `children`
/// bytes of content.
fn header(children: u32) -> Vec<u8> {
    let mut b = Vec::new();
    b.extend_from_slice(b"VOX ");
    b.extend_from_slice(&le(150));
    b.extend_from_slice(b"MAIN");
    b.extend_from_slice(&le(0));
    b.extend_from_slice(&le(children));
    b
}

fn chunk(tag: &[u8; 4], content: &[u8]) -> Vec<u8> {
    let mut b = Vec::new();
    b.extend_from_slice(tag);
    b.extend_from_slice(&le(content.len() as u32));
    b.extend_from_slice(&le(0));
    b.extend_from_slice(content);
    b
}

#[test]
fn header_alone_parses_to_no_chunks() {
    let chunks = parse_vox(&header(0)).unwrap();
    assert!(chunks.is_empty());
}

#[test]
fn size_chunk_is_parsed() {
    let mut content = Vec::new();
    content.extend_from_slice(&le(4));
    content.extend_from_slice(&le(5));
    content.extend_from_slice(&le(6));
    let mut b = header(24);
    b.extend_from_slice(&chunk(b"SIZE", &content));
    let chunks = parse_vox(&b).unwrap();
    assert_eq!(chunks.len(), 1);
    match &chunks[0] {
        ChunkContent::Size(x, y, z) => {
            assert_eq!((*x, *y, *z), (4, 5, 6));
        }
        other => panic!("expected a size chunk, got {:?}", other),
    }
}

#[test]
fn xyzi_chunk_is_parsed() {
    let mut content = Vec::new();
    content.extend_from_slice(&le(2));
    for v in [(1u32, 2u32, 3u32, 7u32), (4, 5, 6, 9)] {
        content.extend_from_slice(&le(v.0));
        content.extend_from_slice(&le(v.1));
        content.extend_from_slice(&le(v.2));
        content.extend_from_slice(&le(v.3));
    }
    let mut b = header(48);
    b.extend_from_slice(&chunk(b"XYZI", &content));
    let chunks = parse_vox(&b).unwrap();
    assert_eq!(chunks.len(), 1);
    match &chunks[0] {
        ChunkContent::Xyzi(voxels) => {
            assert_eq!(voxels.len(), 2);
            assert_eq!(
                (voxels[0].x, voxels[0].y, voxels[0].z, voxels[0].color_index),
                (1, 2, 3, 7)
            );
            assert_eq!(
                (voxels[1].x, voxels[1].y, voxels[1].z, voxels[1].color_index),
                (4, 5, 6, 9)
            );
        }
        other => panic!("expected a voxel chunk, got {:?}", other),
    }
}

#[test]
fn unrecognized_chunks_are_skipped() {
    let mut b = header(64);
    b.extend_from_slice(&chunk(b"RGBA", &[0xab; 16]));
    let mut size = Vec::new();
    size.extend_from_slice(&le(1));
    size.extend_from_slice(&le(2));
    size.extend_from_slice(&le(3));
    b.extend_from_slice(&chunk(b"SIZE", &size));
    let chunks = parse_vox(&b).unwrap();
    assert_eq!(chunks.len(), 1);
    assert!(matches!(chunks[0], ChunkContent::Size(1, 2, 3)));
}

#[test]
fn bad_magic_is_rejected() {
    assert_eq!(parse_vox(b"").unwrap_err(), VoxError::BadMagic);
    assert_eq!(parse_vox(b"VOX").unwrap_err(), VoxError::BadMagic);
    let mut b = header(0);
    b[3] = b'!';
    assert_eq!(parse_vox(&b).unwrap_err(), VoxError::BadMagic);
}

#[test]
fn bad_version_is_rejected() {
    let mut b = header(0);
    b[4..8].copy_from_slice(&le(149));
    assert_eq!(parse_vox(&b).unwrap_err(), VoxError::BadVersion);
}

#[test]
fn missing_main_is_rejected() {
    let mut b = header(0);
    b[8..12].copy_from_slice(b"PACK");
    assert_eq!(parse_vox(&b).unwrap_err(), VoxError::MissingMain);
}

#[test]
fn truncated_input_is_rejected() {
    // Header cut short.
    assert_eq!(parse_vox(b"VOX \x96\x00\x00\x00MAIN").unwrap_err(), VoxError::Truncated);
    // Chunk content shorter than declared.
    let mut b = header(24);
    let mut c = chunk(b"SIZE", &[0u8; 12]);
    c.truncate(c.len() - 4);
    b.extend_from_slice(&c);
    assert_eq!(parse_vox(&b).unwrap_err(), VoxError::Truncated);
    // Voxel count larger than the content can hold.
    let mut content = Vec::new();
    content.extend_from_slice(&le(3));
    content.extend_from_slice(&[0u8; 16]);
    let mut b2 = header(32);
    b2.extend_from_slice(&chunk(b"XYZI", &content));
    assert_eq!(parse_vox(&b2).unwrap_err(), VoxError::Truncated);
}

#[test]
fn negative_length_is_rejected() {
    let mut b = header(12);
    b.extend_from_slice(b"RGBA");
    b.extend_from_slice(&le(0x8000_0000));
    b.extend_from_slice(&le(0));
    assert_eq!(parse_vox(&b).unwrap_err(), VoxError::BadLength);
}

#[test]
fn test_parser() {
    // A small but complete model: dimensions plus one voxel chunk.
    let mut content = Vec::new();
    content.extend_from_slice(&le(1));
    content.extend_from_slice(&le(2));
    content.extend_from_slice(&le(0));
    content.extend_from_slice(&le(1));
    content.extend_from_slice(&le(7));
    let mut size = Vec::new();
    size.extend_from_slice(&le(3));
    size.extend_from_slice(&le(3));
    size.extend_from_slice(&le(3));
    let mut b = header(64);
    b.extend_from_slice(&chunk(b"SIZE", &size));
    b.extend_from_slice(&chunk(b"XYZI", &content));
    parse_vox(&b).unwrap();
}

#[test]
fn chunks_are_listed_in_input_order() {
    // SIZE, an unrecognized chunk, XYZI, SIZE: the result keeps exactly
    // the recognized chunks, in order.
    let mut size_a = Vec::new();
    for d in [1u32, 2, 3] {
        size_a.extend_from_slice(&le(d));
    }
    let mut xyzi = Vec::new();
    xyzi.extend_from_slice(&le(1));
    for v in [9u32, 8, 7, 6] {
        xyzi.extend_from_slice(&le(v));
    }
    let mut size_b = Vec::new();
    for d in [4u32, 5, 6] {
        size_b.extend_from_slice(&le(d));
    }
    let mut b = header(128);
    b.extend_from_slice(&chunk(b"SIZE", &size_a));
    b.extend_from_slice(&chunk(b"PACK", &[1, 2, 3, 4]));
    b.extend_from_slice(&chunk(b"XYZI", &xyzi));
    b.extend_from_slice(&chunk(b"SIZE", &size_b));
    let chunks = parse_vox(&b).unwrap();
    assert_eq!(chunks.len(), 3);
    assert!(matches!(chunks[0], ChunkContent::Size(1, 2, 3)));
    match &chunks[1] {
        ChunkContent::Xyzi(voxels) => {
            assert_eq!(voxels.len(), 1);
            assert_eq!(
                (voxels[0].x, voxels[0].y, voxels[0].z, voxels[0].color_index),
                (9, 8, 7, 6)
            );
        }
        other => panic!("expected a voxel chunk, got {:?}", other),
    }
    assert!(matches!(chunks[2], ChunkContent::Size(4, 5, 6)));
}
