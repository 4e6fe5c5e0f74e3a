use bsp::raw::{DLeaf, DLeafV0, Record, HEADER_SIZE};
use bsp::{Bsp, BspError, LumpId, BSP_VERSION, VBSP_IDENT};

/// A header-only BSP: valid, but with every lump zero-length.
fn empty_bsp_bytes() -> Vec<u8> {
    let mut bytes = vec![0u8; HEADER_SIZE];
    bytes[0..4].copy_from_slice(&VBSP_IDENT.to_le_bytes());
    bytes[4..8].copy_from_slice(&BSP_VERSION.to_le_bytes());
    bytes[1032..1036].copy_from_slice(&1i32.to_le_bytes());
    bytes
}

#[test]
fn ident_is_vbsp_in_file_order() {
    assert_eq!(VBSP_IDENT.to_le_bytes(), *b"VBSP");
}

#[test]
fn lump_id_table_is_in_order() {
    for (i, id) in LumpId::ALL.iter().enumerate() {
        assert_eq!(id.index(), i, "{} is at the wrong index", id.name());
    }
}

#[test]
fn leaf_stride_follows_lump_version() {
    assert_eq!(LumpId::Leafs.stride(0), Some(56));
    assert_eq!(LumpId::Leafs.stride(1), Some(32));
}

#[test]
fn absent_lumps_read_as_empty_slices() {
    let bsp = Bsp::parse(empty_bsp_bytes()).expect("header-only bsp should open");

    assert_eq!(bsp.version(), BSP_VERSION);
    assert_eq!(bsp.map_revision(), 1);
    assert!(bsp.faces().expect("faces").is_empty());
    assert!(bsp.vertices().expect("vertices").is_empty());
    assert!(bsp.edges().expect("edges").is_empty());
    assert!(bsp.surfedges().expect("surfedges").is_empty());
    assert!(bsp.planes().expect("planes").is_empty());
    assert!(bsp.dispinfos().expect("dispinfos").is_empty());
    assert!(bsp.disp_verts().expect("disp_verts").is_empty());
    assert!(bsp.disp_tris().expect("disp_tris").is_empty());
    assert!(bsp.texinfos().expect("texinfos").is_empty());
    assert!(bsp.texdatas().expect("texdatas").is_empty());
    assert!(bsp.models().expect("models").is_empty());
    assert!(bsp.leaves().expect("leaves").is_empty());
    assert!(bsp.lighting().expect("lighting").is_empty());
    assert!(bsp.cubemaps().expect("cubemaps").is_empty());
    assert!(bsp.texture_names().expect("texture_names").is_empty());
    assert_eq!(bsp.entities_str().expect("entities"), "");
    assert!(bsp.game_lumps().expect("game_lumps").is_empty());
}

#[test]
fn rejects_non_vbsp_and_bad_versions() {
    assert!(matches!(Bsp::parse(vec![0u8; 2048]), Err(BspError::BadIdent { found: 0 })));

    let mut bytes = empty_bsp_bytes();
    bytes[4..8].copy_from_slice(&17i32.to_le_bytes());
    assert!(matches!(Bsp::parse(bytes), Err(BspError::UnsupportedVersion { found: 17 })));

    // Too short to even hold a header.
    assert!(matches!(Bsp::parse(vec![0u8; 8]), Err(BspError::TooSmall { .. })));
}

#[test]
fn the_v0_light_cube_starts_at_byte_30_not_32() {
    let mut bytes = [0u8; 56];
    // leafWaterDataID = -1, the last field before the cube.
    bytes[28..30].copy_from_slice(&(-1i16).to_le_bytes());
    // Fill the cube with a recognisable ramp at its real offset.
    for (i, b) in bytes[30..54].iter_mut().enumerate() {
        *b = i as u8 + 1;
    }

    let leaf = DLeafV0::read(&bytes, 0);

    assert_eq!(leaf.leaf_water_data_id, -1);
    // First sample is bytes 30..34, last is 50..54.
    assert_eq!(
        (
            leaf.ambient_lighting[0].r,
            leaf.ambient_lighting[0].g,
            leaf.ambient_lighting[0].b,
            leaf.ambient_lighting[0].exponent,
        ),
        (1, 2, 3, 4),
    );
    assert_eq!(leaf.ambient_lighting[5].exponent, 24);
    // The two spare bytes are at the end.
    assert_eq!(leaf._pad, [0, 0]);
}

#[test]
fn both_leaf_versions_agree_on_the_fields_they_share() {
    let mut bytes = [0u8; 56];
    bytes[0..4].copy_from_slice(&1i32.to_le_bytes()); // contents
    bytes[4..6].copy_from_slice(&7i16.to_le_bytes()); // cluster
    // area = 300 (9 bits), flags = 5 (7 bits) -> the packed word.
    bytes[6..8].copy_from_slice(&(300u16 | (5u16 << 9)).to_le_bytes());
    bytes[20..22].copy_from_slice(&11u16.to_le_bytes()); // firstleafface
    bytes[28..30].copy_from_slice(&(-1i16).to_le_bytes());

    let v0 = DLeafV0::read(&bytes, 0);
    let v1 = DLeaf::read(&bytes[..32], 0);

    assert_eq!(v0.leaf().contents, v1.contents);
    assert_eq!(v0.leaf().cluster, v1.cluster);
    assert_eq!(v0.leaf().firstleafface, v1.firstleafface);
    assert_eq!((v0.area(), v0.flags()), (300, 5));
    assert_eq!((v0.area(), v0.flags()), (v1.area(), v1.flags()));
}

/// Put one lump's directory entry and body into a header-only file.
fn with_lump(mut bytes: Vec<u8>, id: LumpId, body: &[u8]) -> Vec<u8> {
    let ofs = bytes.len() as i32;
    let at = 8 + 16 * id.index();
    bytes[at..at + 4].copy_from_slice(&ofs.to_le_bytes());
    bytes[at + 4..at + 8].copy_from_slice(&(body.len() as i32).to_le_bytes());
    bytes.extend_from_slice(body);
    bytes
}

#[test]
fn a_lump_is_decoded_as_whole_records() {
    let mut body = Vec::new();
    for (a, b) in [(1u16, 2u16), (3, 4)] {
        body.extend_from_slice(&a.to_le_bytes());
        body.extend_from_slice(&b.to_le_bytes());
    }
    let bsp = Bsp::parse(with_lump(empty_bsp_bytes(), LumpId::Edges, &body)).unwrap();
    let edges = bsp.edges().unwrap();
    assert_eq!(edges.len(), 2);
    assert_eq!(edges[1].v, [3, 4]);
}

#[test]
fn a_ragged_lump_is_a_stride_error() {
    let bsp = Bsp::parse(with_lump(empty_bsp_bytes(), LumpId::Edges, &[1, 2, 3, 4, 5, 6])).unwrap();
    assert!(matches!(
        bsp.edges(),
        Err(BspError::BadStride { lump: LumpId::Edges, len: 6, stride: 4, rem: 2 })
    ));
}

#[test]
fn a_lump_past_the_end_is_out_of_bounds() {
    let mut bytes = empty_bsp_bytes();
    let at = 8 + 16 * LumpId::Edges.index();
    bytes[at..at + 4].copy_from_slice(&1000i32.to_le_bytes());
    bytes[at + 4..at + 8].copy_from_slice(&400i32.to_le_bytes());
    let bsp = Bsp::parse(bytes).unwrap();
    assert!(matches!(bsp.edges(), Err(BspError::LumpOutOfBounds { lump: LumpId::Edges, .. })));
}

#[test]
fn texture_names_come_from_the_string_table() {
    let data = b"tools/nodraw\0dev/dev_measurewall01a\0";
    let mut table = Vec::new();
    table.extend_from_slice(&0i32.to_le_bytes());
    table.extend_from_slice(&13i32.to_le_bytes());
    let bytes = with_lump(empty_bsp_bytes(), LumpId::TexDataStringData, data);
    let bytes = with_lump(bytes, LumpId::TexDataStringTable, &table);
    let mut texdatas = vec![0u8; 64];
    texdatas[32 + 12..32 + 16].copy_from_slice(&1i32.to_le_bytes());
    let bytes = with_lump(bytes, LumpId::TexData, &texdatas);
    let bsp = Bsp::parse(bytes).unwrap();
    assert_eq!(bsp.texture_name(1).unwrap(), "dev/dev_measurewall01a");
    assert_eq!(bsp.texture_names().unwrap(), vec!["tools/nodraw".to_string(), "dev/dev_measurewall01a".to_string()]);
    assert!(matches!(bsp.texture_name(2), Err(BspError::IndexOutOfRange { .. })));
}
