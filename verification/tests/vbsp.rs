use bsp::raw::HEADER_SIZE;
use bsp::vbsp::bspfile::{lzma_decompress_with_header, BspError, BspFile, DataError};
use bsp::vbsp::data::{BspVersion, Directories, LumpArgs, LumpEntry, PackedPrimitiveCount};
use bsp::vbsp::leaves::{LeafBounds, Leaves};
use bsp::vbsp::lighting::ColorRGBExp32;
use bsp::vbsp::lump_type::LumpType;
use bsp::vbsp::visdata::{calculate_visdata_indices, VisData};
use bsp::{Bsp, LumpId, BSP_VERSION, VBSP_IDENT};

/// `data` packed the way Source stores a compressed lump: `"LZMA"`, the
/// inflated size, the payload size, five property bytes and the payload.
fn valve_lzma(data: &[u8]) -> Vec<u8> {
    let mut stream = Vec::new();
    let options = lzma_rs::compress::Options {
        unpacked_size: lzma_rs::compress::UnpackedSize::SkipWritingToHeader,
    };
    lzma_rs::lzma_compress_with_options(&mut &data[..], &mut stream, &options).unwrap();
    let mut body = b"LZMA".to_vec();
    body.extend_from_slice(&(data.len() as u32).to_le_bytes());
    body.extend_from_slice(&((stream.len() - 5) as u32).to_le_bytes());
    body.extend_from_slice(&stream);
    body
}

fn vbsp_file(version: u32) -> Vec<u8> {
    let mut bytes = vec![0u8; 1036];
    bytes[0..4].copy_from_slice(b"VBSP");
    bytes[4..8].copy_from_slice(&version.to_le_bytes());
    bytes
}

#[test]
fn a_vbsp_file_opens_with_its_version() {
    let bytes = vbsp_file(20);
    let file = BspFile::new(&bytes).unwrap();
    assert_eq!(file.header().version, BspVersion::Version20);
    assert_eq!(*file.get_lump_entry(LumpType::Planes), LumpEntry::default());
}

#[test]
fn a_bad_vbsp_header_is_refused() {
    assert!(matches!(BspFile::new(b"IBSP\x26\0\0\0"), Err(BspError::UnexpectedHeader(m)) if &m == b"IBSP"));
    assert!(matches!(
        BspFile::new(b"VB"),
        Err(BspError::MalformedData(DataError::UnexpectedEof { needed: 4, len: 2 }))
    ));
    assert!(matches!(
        BspFile::new(&vbsp_file(18)),
        Err(BspError::MalformedData(DataError::UnknownVersion(18)))
    ));
    assert!(matches!(
        BspFile::new(&vbsp_file(19)[..100]),
        Err(BspError::MalformedData(DataError::UnexpectedEof { needed: 1032, len: 100 }))
    ));
}

#[test]
fn a_lump_is_read_plain_or_inflated() {
    let mut bytes = vbsp_file(20);
    let plain = [1u8, 2, 3, 4, 5];
    let packed = valve_lzma(b"hello, lump");
    let plain_at = bytes.len() as u32;
    bytes.extend_from_slice(&plain);
    let packed_at = bytes.len() as u32;
    bytes.extend_from_slice(&packed);
    let file = BspFile::new(&bytes).unwrap();

    let entry = LumpEntry { offset: plain_at, length: 5, version: 0, ident: 0 };
    assert_eq!(file.get_lump(&entry, LumpType::Entities).unwrap(), plain.to_vec());

    let entry = LumpEntry { offset: packed_at, length: packed.len() as u32, version: 0, ident: 11 };
    assert_eq!(file.get_lump(&entry, LumpType::Entities).unwrap(), b"hello, lump".to_vec());

    let entry = LumpEntry { offset: packed_at, length: 0, version: 0, ident: 0 };
    assert!(matches!(file.get_lump(&entry, LumpType::Planes), Err(BspError::InvalidLumpSize { .. })));
    let entry = LumpEntry { offset: packed_at, length: 5000, version: 0, ident: 0 };
    assert!(matches!(file.get_lump(&entry, LumpType::Planes), Err(BspError::LumpOutOfBounds(_))));
}

#[test]
fn an_inflated_lump_must_have_the_promised_length() {
    let packed = valve_lzma(b"abcdef");
    assert_eq!(lzma_decompress_with_header(&packed, 6).unwrap(), b"abcdef".to_vec());
    assert!(matches!(
        lzma_decompress_with_header(&packed, 7),
        Err(BspError::UnexpectedUncompressedLumpSize { got: 6, expected: 7 })
    ));
    assert!(matches!(
        lzma_decompress_with_header(b"ZMLA\0\0\0\0\0\0\0\0", 6),
        Err(BspError::LumpDecompressError(lzma_rs::error::Error::LzmaError(m))) if m == "Invalid lzma header"
    ));
    assert!(matches!(
        lzma_decompress_with_header(&packed[..20], 6),
        Err(BspError::UnexpectedCompressedLumpSize { got: 20, .. })
    ));
}

#[test]
fn a_compressed_bsp_lump_is_inflated() {
    let mut bytes = vec![0u8; HEADER_SIZE];
    bytes[0..4].copy_from_slice(&VBSP_IDENT.to_le_bytes());
    bytes[4..8].copy_from_slice(&BSP_VERSION.to_le_bytes());
    let mut edges = Vec::new();
    for v in [1u16, 2, 3, 4] {
        edges.extend_from_slice(&v.to_le_bytes());
    }
    let packed = valve_lzma(&edges);
    let at = 8 + 16 * LumpId::Edges.index();
    let ofs = bytes.len() as i32;
    bytes[at..at + 4].copy_from_slice(&ofs.to_le_bytes());
    bytes[at + 4..at + 8].copy_from_slice(&(packed.len() as i32).to_le_bytes());
    bytes[at + 12..at + 16].copy_from_slice(&(edges.len() as i32).to_le_bytes());
    bytes.extend_from_slice(&packed);

    let bsp = Bsp::parse(bytes).unwrap();
    assert!(bsp.is_compressed(LumpId::Edges));
    assert_eq!(bsp.lump_bytes(LumpId::Edges).unwrap(), edges);
    let decoded = bsp.edges().unwrap();
    assert_eq!(decoded.len(), 2);
    assert_eq!(decoded[1].v, [3, 4]);
}

#[test]
fn l4d2_directories_are_rotated_back() {
    let mut bytes = vec![0u8; 1024];
    // L4D2 order: version, offset, length, ident. A version of 1 lands in
    // the offset slot, which no real offset could be.
    bytes[0..4].copy_from_slice(&1u32.to_le_bytes());
    bytes[4..8].copy_from_slice(&2000u32.to_le_bytes());
    bytes[8..12].copy_from_slice(&64u32.to_le_bytes());
    let mut dirs = Directories::read(&bytes, 0);
    assert!(dirs.is_l4d2_lump_order(4096));
    dirs.fixup_lumps();
    assert_eq!(dirs.get(LumpType::Entities), LumpEntry { offset: 2000, length: 64, version: 1, ident: 0 });

    let mut standard = vec![0u8; 1024];
    standard[0..4].copy_from_slice(&2000u32.to_le_bytes());
    standard[4..8].copy_from_slice(&64u32.to_le_bytes());
    assert!(!Directories::read(&standard, 0).is_l4d2_lump_order(4096));
}

#[test]
fn source_visdata_counts_clusters_from_zero() {
    let vis = [0b1010_0111u8, 0, 5, 0b0000_0001, 0b0001_0000, 0, 12, 0b1000_0000];
    assert_eq!(calculate_visdata_indices(&vis, 256).collect_all(), vec![0, 1, 2, 5, 7, 48, 60, 167]);
    assert_eq!(calculate_visdata_indices(&vis, 4).collect_all(), vec![0, 1, 2]);
}

#[test]
fn visible_clusters_follow_the_pvs_offset() {
    let vis = VisData {
        cluster_count: 8,
        pvs_offsets: vec![20, 21],
        pas_offsets: vec![20, 20],
        data: vec![0b0000_0011, 0b1000_0000],
    };
    assert_eq!(vis.visible_clusters(0).collect_all(), vec![0, 1]);
    assert_eq!(vis.visible_clusters(1).collect_all(), vec![7]);
    assert!(vis.visible_clusters(5).collect_all().is_empty());
}

#[test]
fn rgbm_moves_the_exponent_into_alpha() {
    let c = |exponent: i8| ColorRGBExp32 { r: 128, g: 64, b: 255, exponent };
    assert_eq!(c(0).to_rgbm32f(), [128, 64, 255, 255]);
    assert_eq!(c(-8).to_rgbm32f(), [128, 64, 255, 1]);
    assert_eq!(c(-5).to_rgbm32f(), [128, 64, 255, 8]);
    assert_eq!(c(-9).to_rgbm32f(), [64, 32, 127, 1]);
    assert_eq!(c(-16).to_rgbm32f(), [0, 0, 0, 0]);
}

#[test]
fn lump_types_round_trip_through_their_index() {
    for i in 0..64u32 {
        assert_eq!(LumpType::try_from(i).unwrap().index(), i as usize);
    }
    assert!(LumpType::try_from(64).is_err());
}

#[test]
fn leaves_are_read_in_their_lump_version() {
    let mut bytes = vec![0u8; 64];
    bytes[0..4].copy_from_slice(&1i32.to_le_bytes());
    bytes[4..6].copy_from_slice(&7i16.to_le_bytes());
    bytes[6..8].copy_from_slice(&((3i16 << 7) | 5).to_le_bytes());
    bytes[8..10].copy_from_slice(&(-16i16).to_le_bytes());
    bytes[20..22].copy_from_slice(&11u16.to_le_bytes());
    bytes[32 + 28..32 + 30].copy_from_slice(&(-1i16).to_le_bytes());
    let args = LumpArgs { type_: LumpType::Leaves, length: 64, version: 1 };
    let leaves = Leaves::read(&bytes, args).unwrap();
    assert_eq!(leaves.len(), 2);
    let first = leaves.get(0).unwrap();
    assert_eq!((first.contents, first.cluster, first.first_leaf_face), (1, 7, 11));
    assert_eq!((first.area_and_flags.area(), first.area_and_flags.flags()), (3, 5));
    assert_eq!(first.bounds, LeafBounds::Short { mins: [-16, 0, 0], maxs: [0, 0, 0] });
    assert!(first.cube.is_none());
    assert_eq!(leaves.get(1).unwrap().leaf_water_data_id, -1);
    assert!(leaves.get(2).is_none());
}

#[test]
fn a_version_zero_leaf_carries_its_cube_after_padding() {
    let mut bytes = vec![0u8; 56];
    bytes[32..36].copy_from_slice(&[9, 8, 7, 2]);
    let args = LumpArgs { type_: LumpType::Leaves, length: 56, version: 0 };
    let leaf = Leaves::read(&bytes, args).unwrap().into_inner()[0];
    let cube = leaf.cube.unwrap();
    assert_eq!((cube.color[0].r, cube.color[0].g, cube.color[0].b, cube.color[0].exponent), (9, 8, 7, 2));
}

#[test]
fn a_bad_leaf_lump_is_refused() {
    let bytes = vec![0u8; 60];
    let args = LumpArgs { type_: LumpType::Leaves, length: 60, version: 1 };
    assert!(matches!(
        Leaves::read(&bytes, args),
        Err(BspError::InvalidLumpSize { lump: LumpType::Leaves, element_size: 32, lump_size: 60 })
    ));
    let args = LumpArgs { type_: LumpType::Leaves, length: 56, version: 3 };
    assert!(matches!(Leaves::read(&bytes, args), Err(BspError::LumpVersion(v)) if v.version == 3 && v.lump_type == "leaves"));
}

#[test]
fn three_l4d2_fixups_restore_an_entry() {
    let original = LumpEntry { offset: 1, length: 2, version: 3, ident: 4 };
    let mut e = original;
    e.fixup_l4d2();
    assert_eq!(e, LumpEntry { offset: 2, length: 3, version: 1, ident: 4 });
    e.fixup_l4d2();
    e.fixup_l4d2();
    assert_eq!(e, original);
}

#[test]
fn a_packed_primitive_count_unpacks() {
    let p = PackedPrimitiveCount::pack(1234, true);
    assert_eq!((p.primitive_count(), p.enable_shadows()), (1234, true));
    assert_eq!(p.0, 0x8000_0000 | 1234);
    let q = PackedPrimitiveCount::pack(7, false);
    assert_eq!((q.primitive_count(), q.enable_shadows()), (7, false));
}

#[test]
fn test_leaf_bytes() {
    // A version 0 leaf reads from zeroed bytes and takes exactly its 56-byte
    // record: a lump of one record yields one leaf, and a byte short fails.
    let bytes = [0u8; 512];
    assert!(bsp::vbsp::leaves::Leaf::read(&bytes, 0, bsp::vbsp::data::LeafArgs::default()).is_ok());
    let one = Leaves::read(&bytes, LumpArgs { type_: LumpType::Leaves, length: 56, version: 0 }).unwrap();
    assert_eq!(one.len(), 1);
    assert!(Leaves::read(&bytes, LumpArgs { type_: LumpType::Leaves, length: 55, version: 0 }).is_err());
}

#[test]
fn every_lump_type_has_its_own_name() {
    let mut names = std::collections::HashSet::new();
    for i in 0..64u32 {
        assert!(names.insert(LumpType::try_from(i).unwrap().name()));
    }
    assert_eq!(names.len(), 64);
    assert_eq!(LumpType::Lighting.name(), "lighting");
    assert_eq!(LumpType::LightingHdr.name(), "lightinghdr");
    assert_eq!(LumpType::DisplacementMultiBlend.name(), "displacementmultiblend");
}
