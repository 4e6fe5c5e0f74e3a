use bsp::qbsp::data::BspData;
use bsp::qbsp::lighting::BspLighting;
use bsp::qbsp::nodes::{
    Bsp29LeafContents, BoundingBox, BspLeafContentFlags, BspNodeRef, BspPlaneType, VisDataRef,
};
use bsp::qbsp::texture::BspTexFlags;
use bsp::qbsp::{BspFormat, BspParseError, BspParseInput, BspParseSettings, LumpEntry};

/// A BSP29 file: the magic, a directory of 15 entries, then each lump's
/// bytes in directory order.
fn bsp29(lumps: &[Vec<u8>; 15]) -> Vec<u8> {
    let mut out = vec![0x1D, 0, 0, 0];
    let mut offset = 4 + 15 * 8;
    for lump in lumps {
        out.extend_from_slice(&(offset as u32).to_le_bytes());
        out.extend_from_slice(&(lump.len() as u32).to_le_bytes());
        offset += lump.len();
    }
    for lump in lumps {
        out.extend_from_slice(lump);
    }
    out
}

fn plane(ty: u32) -> Vec<u8> {
    let mut p = Vec::new();
    for v in [0.0f32, 0.0, 1.0, 64.0] {
        p.extend_from_slice(&v.to_bits().to_le_bytes());
    }
    p.extend_from_slice(&ty.to_le_bytes());
    p
}

/// A BSP29 node: plane 3, front node 1, back leaf 0, a box, faces 2..6.
fn node() -> Vec<u8> {
    let mut n = Vec::new();
    n.extend_from_slice(&3u32.to_le_bytes());
    n.extend_from_slice(&1i16.to_le_bytes());
    n.extend_from_slice(&(-1i16).to_le_bytes());
    for v in [1u16, 2, 3, 10, 20, 30] {
        n.extend_from_slice(&v.to_le_bytes());
    }
    n.extend_from_slice(&2u16.to_le_bytes());
    n.extend_from_slice(&4u16.to_le_bytes());
    n
}

/// A BSP29 model over faces 0..1 with 5 visleafs.
fn model() -> Vec<u8> {
    let mut m = vec![0u8; 36];
    m[24..28].copy_from_slice(&8.0f32.to_bits().to_le_bytes());
    for h in [0i32, 1, -2, 0] {
        m.extend_from_slice(&h.to_le_bytes());
    }
    for v in [5u32, 0, 1] {
        m.extend_from_slice(&v.to_le_bytes());
    }
    m
}

/// A BSP29 texinfo: U along X, V along Y, texture 4, flags `flags`.
fn texinfo(flags: u32) -> Vec<u8> {
    let mut t = Vec::new();
    for v in [1.0f32, 0.0, 0.0, 16.0, 0.0, 1.0, 0.0, 0.0] {
        t.extend_from_slice(&v.to_bits().to_le_bytes());
    }
    t.extend_from_slice(&4u32.to_le_bytes());
    t.extend_from_slice(&flags.to_le_bytes());
    t
}

/// A BSP29 leaf of contents `contents`, visdata at offset 0, one mark
/// surface from 1, and ambient levels 1 to 4.
fn leaf(contents: i32) -> Vec<u8> {
    let mut l = Vec::new();
    l.extend_from_slice(&contents.to_le_bytes());
    l.extend_from_slice(&0i32.to_le_bytes());
    for v in [0u16, 0, 0, 8, 8, 8] {
        l.extend_from_slice(&v.to_le_bytes());
    }
    l.extend_from_slice(&1u16.to_le_bytes());
    l.extend_from_slice(&1u16.to_le_bytes());
    l.extend_from_slice(&[1, 2, 3, 4]);
    l
}

fn sample_lumps(plane_type: u32) -> [Vec<u8>; 15] {
    let mut vertices = Vec::new();
    for v in [1.0f32, 2.0, 3.0, -4.0, 5.0, 0.5] {
        vertices.extend_from_slice(&v.to_bits().to_le_bytes());
    }
    let mut surfedges = Vec::new();
    for s in [1i32, -1] {
        surfedges.extend_from_slice(&s.to_le_bytes());
    }
    [
        b"{}".to_vec(),           // entities
        plane(plane_type),        // planes
        vec![0, 0, 0, 0],         // textures: none
        vertices,                 // vertices
        vec![0xFF],               // visibility
        node(),                   // nodes
        texinfo(1),               // texture infos
        Vec::new(),               // faces
        vec![1, 2, 3],            // lighting
        Vec::new(),               // clip nodes
        leaf(-3),                 // leaves
        vec![7, 0, 9, 0],         // mark surfaces
        vec![0, 0, 1, 0],         // edges
        surfedges,                // surface edges
        model(),                  // models
    ]
}

fn input(bsp: &[u8]) -> BspParseInput<'_> {
    BspParseInput { bsp, lit: None, settings: BspParseSettings::default() }
}

#[test]
fn a_bsp29_file_parses_into_its_lumps() {
    let bytes = bsp29(&sample_lumps(2));
    let data = BspData::parse(&input(&bytes)).unwrap();
    assert_eq!(data.parse_ctx.format, BspFormat::BSP29);
    assert_eq!(data.entities, b"{}".to_vec());
    assert_eq!(data.planes.len(), 1);
    assert_eq!(data.planes[0].ty, BspPlaneType::AxialZ);
    assert_eq!(data.planes[0].normal, [0, 0, 1.0f32.to_bits()]);
    assert_eq!(data.planes[0].dist, 64.0f32.to_bits());
    assert!(data.textures.is_empty());
    assert_eq!(
        data.vertices,
        vec![[1.0f32.to_bits(), 2.0f32.to_bits(), 3.0f32.to_bits()], [(-4.0f32).to_bits(), 5.0f32.to_bits(), 0.5f32.to_bits()]]
    );
    assert_eq!(data.visibility, vec![0xFF]);
    assert!(matches!(&data.lighting, Some(BspLighting::Grayscale(v)) if v == &vec![1, 2, 3]));
    assert!(data.clip_nodes.is_empty() && data.leaf_brushes.is_empty());
    assert_eq!(data.mark_surfaces.iter().map(|v| v.0).collect::<Vec<_>>(), vec![7, 9]);
    assert_eq!((data.edges[0].a.0, data.edges[0].b.0), (0, 1));
    assert_eq!(data.surface_edges, vec![1, -1]);
    assert_eq!(data.tex_info.len(), 1);
    let t = &data.tex_info[0];
    assert_eq!(t.projection.u_axis, [1.0f32.to_bits(), 0, 0]);
    assert_eq!(t.projection.u_offset, 16.0f32.to_bits());
    assert_eq!(t.texture_idx.0, Some(4));
    assert_eq!(t.flags.texture_flags, Some(BspTexFlags::Special));
    assert!(t.extra_info.0.is_none());
    assert_eq!(data.leaves.len(), 1);
    let l = data.leaves[0];
    assert_eq!(l.contents.0, BspLeafContentFlags::from_bsp29(Bsp29LeafContents::Water));
    assert_eq!(l.visdata, VisDataRef::Offset(0));
    assert_eq!(l.bound, BoundingBox::Short { min: [0, 0, 0], max: [8, 8, 8] });
    assert_eq!((l.face_idx.0, l.face_num.0), (1, 1));
    assert_eq!(l.ambience.map(|a| [a.water, a.sky, a.slime, a.lava]), Some([1, 2, 3, 4]));
    assert!(l.area.0.is_none() && l.leaf_brushes.is_none());
    assert_eq!(data.nodes.len(), 1);
    let n = data.nodes[0];
    assert_eq!(n.plane_idx, 3);
    assert_eq!((n.front.0, n.back.0), (BspNodeRef::Node(1), BspNodeRef::Leaf(0)));
    assert_eq!(n.bound, BoundingBox::Short { min: [1, 2, 3], max: [10, 20, 30] });
    assert_eq!((n.face_idx.0, n.face_num.0), (2, 4));
    assert_eq!(data.models.len(), 1);
    let m = data.models[0];
    assert_eq!(m.origin, [8.0f32.to_bits(), 0, 0]);
    assert_eq!(m.hulls.root, BspNodeRef::Node(0));
    assert_eq!(m.hulls.for_size.unwrap().large, BspNodeRef::Leaf(1));
    assert_eq!(m.visleafs.0, Some(5));
    assert_eq!((m.first_face, m.num_faces), (0, 1));
}

#[test]
fn a_lit_file_replaces_the_lighting_lump() {
    let bytes = bsp29(&sample_lumps(2));
    let lit = [b'Q', b'L', b'I', b'T', 1, 0, 0, 0, 10, 20, 30];
    let data = BspData::parse(&BspParseInput { bsp: &bytes, lit: Some(&lit), settings: BspParseSettings::default() })
        .unwrap();
    assert!(matches!(&data.lighting, Some(BspLighting::Colored(v)) if v == &vec![[10, 20, 30]]));
}

#[test]
fn an_empty_lighting_lump_gives_no_lighting() {
    let mut lumps = sample_lumps(2);
    lumps[8] = Vec::new();
    let data = BspData::parse(&input(&bsp29(&lumps))).unwrap();
    assert!(data.lighting.is_none());
}

#[test]
fn a_file_shorter_than_its_magic_is_out_of_bounds() {
    assert!(matches!(
        BspData::parse(&input(&[0x1D, 0])),
        Err(BspParseError::BufferOutOfBounds { from: 0, to: 4, size: 2 })
    ));
}

#[test]
fn a_bad_plane_type_names_the_record() {
    let bytes = bsp29(&sample_lumps(9));
    match BspData::parse(&input(&bytes)) {
        Err(BspParseError::DoingJob(job, inner)) => {
            assert_eq!(job, "Parsing planes lump entry 0");
            assert!(matches!(*inner, BspParseError::InvalidVariant { value: 9, .. }));
        }
        Err(e) => panic!("unexpected {e:?}"),
        Ok(_) => panic!("a bad plane type parsed"),
    }
}

#[test]
fn a_quake_lump_past_the_end_is_out_of_bounds() {
    let mut bytes = bsp29(&sample_lumps(2));
    // Stretch the entity lump past the end of the file.
    bytes[8..12].copy_from_slice(&10_000u32.to_le_bytes());
    let offset = u32::from_le_bytes([bytes[4], bytes[5], bytes[6], bytes[7]]);
    assert!(matches!(
        BspData::parse(&input(&bytes)),
        Err(BspParseError::LumpOutOfBounds(LumpEntry { offset: o, len: 10_000 })) if o == offset
    ));
}

#[test]
fn a_bad_texinfo_flag_names_the_record() {
    let mut lumps = sample_lumps(2);
    lumps[6] = [texinfo(0), texinfo(7)].concat();
    match BspData::parse(&input(&bsp29(&lumps))) {
        Err(BspParseError::DoingJob(job, inner)) => {
            assert_eq!(job, "Parsing texture infos lump entry 1");
            assert!(matches!(*inner, BspParseError::InvalidVariant { value: 7, .. }));
        }
        Err(e) => panic!("unexpected {e:?}"),
        Ok(_) => panic!("a bad texinfo flag parsed"),
    }
}

/// `bsp` with a BSPX directory appended (after padding to 4 bytes), naming
/// `lumps`, whose bytes follow the directory.
fn with_bspx(mut bsp: Vec<u8>, lumps: &[(&str, Vec<u8>)]) -> Vec<u8> {
    while bsp.len() % 4 != 0 {
        bsp.push(0);
    }
    let dir_len = 8 + 32 * lumps.len();
    let mut offset = bsp.len() + dir_len;
    bsp.extend_from_slice(b"BSPX");
    bsp.extend_from_slice(&(lumps.len() as u32).to_le_bytes());
    for (name, data) in lumps {
        let mut n = [0u8; 24];
        n[..name.len()].copy_from_slice(name.as_bytes());
        bsp.extend_from_slice(&n);
        bsp.extend_from_slice(&(offset as u32).to_le_bytes());
        bsp.extend_from_slice(&(data.len() as u32).to_le_bytes());
        offset += data.len();
    }
    for (_, data) in lumps {
        bsp.extend_from_slice(data);
    }
    bsp
}

fn settings(use_bspx_rgb_lighting: bool) -> BspParseSettings {
    BspParseSettings { use_bspx_rgb_lighting, ..BspParseSettings::default() }
}

#[test]
fn bspx_rgb_lighting_comes_first_when_asked_for() {
    let bytes = with_bspx(
        bsp29(&sample_lumps(2)),
        &[("RGBLIGHTING", vec![1, 2, 3, 4, 5, 6]), ("LMSHIFT", vec![9, 9])],
    );
    let used = BspData::parse(&BspParseInput { bsp: &bytes, lit: None, settings: settings(true) }).unwrap();
    assert!(matches!(&used.lighting, Some(BspLighting::Colored(v)) if v == &vec![[1, 2, 3], [4, 5, 6]]));
    assert!(used.bspx.rgb_lighting.is_none());
    assert_eq!(used.bspx.unparsed.len(), 1);
    assert_eq!(used.bspx.unparsed[0].name.as_str(), "LMSHIFT");
    assert_eq!(used.bspx.unparsed[0].data, vec![9, 9]);

    let kept = BspData::parse(&BspParseInput { bsp: &bytes, lit: None, settings: settings(false) }).unwrap();
    assert!(matches!(&kept.lighting, Some(BspLighting::Grayscale(v)) if v == &vec![1, 2, 3]));
    assert_eq!(kept.bspx.rgb_lighting, Some(vec![[1, 2, 3], [4, 5, 6]]));
}

#[test]
fn bspx_rgb_lighting_overrides_a_lit_file() {
    let bytes = with_bspx(bsp29(&sample_lumps(2)), &[("RGBLIGHTING", vec![7, 8, 9])]);
    let lit = [b'Q', b'L', b'I', b'T', 1, 0, 0, 0, 10, 20, 30];
    let data = BspData::parse(&BspParseInput { bsp: &bytes, lit: Some(&lit), settings: settings(true) }).unwrap();
    assert!(matches!(&data.lighting, Some(BspLighting::Colored(v)) if v == &vec![[7, 8, 9]]));
}

#[test]
fn a_file_without_bspx_has_no_bspx_lumps() {
    let data = BspData::parse(&input(&bsp29(&sample_lumps(2)))).unwrap();
    assert!(data.bspx.rgb_lighting.is_none() && data.bspx.unparsed.is_empty());
}

#[test]
fn a_repeated_bspx_name_is_refused() {
    let bytes = with_bspx(bsp29(&sample_lumps(2)), &[("LMSHIFT", vec![1]), ("LMSHIFT", vec![2])]);
    match BspData::parse(&input(&bytes)) {
        Err(BspParseError::DoingJob(job, inner)) => {
            assert_eq!(job, "Reading BSPX directory");
            assert!(matches!(*inner, BspParseError::DuplicateBspxLump(ref n) if n == "LMSHIFT"));
        }
        Err(e) => panic!("unexpected {e:?}"),
        Ok(_) => panic!("a repeated BSPX name parsed"),
    }
}

#[test]
fn a_ragged_bspx_rgb_lump_is_refused() {
    let bytes = with_bspx(bsp29(&sample_lumps(2)), &[("RGBLIGHTING", vec![1, 2, 3, 4])]);
    match BspData::parse(&input(&bytes)) {
        Err(BspParseError::DoingJob(job, inner)) => {
            assert_eq!(job, "Reading BSPX data");
            assert!(matches!(*inner, BspParseError::ColorDataSizeNotDevisableBy3(4)));
        }
        Err(e) => panic!("unexpected {e:?}"),
        Ok(_) => panic!("a ragged BSPX lighting lump parsed"),
    }
}

#[test]
fn a_bad_leaf_contents_value_is_refused() {
    let mut lumps = sample_lumps(2);
    lumps[10] = leaf(-7);
    match BspData::parse(&input(&bsp29(&lumps))) {
        Err(BspParseError::DoingJob(job, inner)) => {
            assert_eq!(job, "Parsing leaves lump entry 0");
            assert!(matches!(*inner, BspParseError::InvalidVariant { value: -7, .. }));
        }
        Err(e) => panic!("unexpected {e:?}"),
        Ok(_) => panic!("a bad leaf parsed"),
    }
}

/// A Quake 2 file: `"IBSP"`, version 38, a directory of 19 entries, then
/// each lump's bytes in directory order.
fn bsp38(lumps: &[Vec<u8>; 19]) -> Vec<u8> {
    let mut out = b"IBSP".to_vec();
    out.extend_from_slice(&38u32.to_le_bytes());
    let mut offset = 8 + 19 * 8;
    for lump in lumps {
        out.extend_from_slice(&(offset as u32).to_le_bytes());
        out.extend_from_slice(&(lump.len() as u32).to_le_bytes());
        offset += lump.len();
    }
    for lump in lumps {
        out.extend_from_slice(lump);
    }
    out
}

#[test]
fn a_quake2_file_reads_its_leaves_brushes_and_sides() {
    let mut leaf = Vec::new();
    leaf.extend_from_slice(&1u32.to_le_bytes()); // contents: solid
    leaf.extend_from_slice(&(-1i16).to_le_bytes()); // no cluster
    leaf.extend_from_slice(&2u16.to_le_bytes()); // area
    for v in [0u16, 0, 0, 4, 4, 4] {
        leaf.extend_from_slice(&v.to_le_bytes());
    }
    for v in [0u16, 0, 0, 1] {
        leaf.extend_from_slice(&v.to_le_bytes());
    }
    let mut brush = Vec::new();
    for v in [0i32, 2, 1] {
        brush.extend_from_slice(&v.to_le_bytes());
    }
    let mut sides = Vec::new();
    for (plane, texinfo) in [(3u16, -1i16), (4, 0)] {
        sides.extend_from_slice(&plane.to_le_bytes());
        sides.extend_from_slice(&texinfo.to_le_bytes());
    }
    let mut lumps: [Vec<u8>; 19] = Default::default();
    lumps[7] = vec![10, 20, 30]; // lighting
    lumps[8] = leaf;
    lumps[10] = vec![0, 0]; // leaf brushes
    lumps[14] = brush;
    lumps[15] = sides;
    let data = BspData::parse(&input(&bsp38(&lumps))).unwrap();
    assert_eq!(data.parse_ctx.format, BspFormat::BSP38);
    assert!(matches!(&data.lighting, Some(BspLighting::Colored(v)) if v == &vec![[10, 20, 30]]));
    let l = data.leaves[0];
    assert_eq!(l.visdata, VisDataRef::Cluster(-1));
    assert_eq!(l.area.0, Some(2));
    assert!(l.ambience.is_none());
    assert_eq!(l.leaf_brushes.map(|b| (b.idx.0, b.num.0)), Some((0, 1)));
    assert_eq!(data.leaf_brushes.len(), 1);
    assert_eq!((data.brushes[0].first_side, data.brushes[0].num_sides, data.brushes[0].contents), (0, 2, 1));
    let sides: Vec<(u32, i32)> = data.brush_sides.iter().map(|s| (s.plane_idx.0, s.texture_info.0)).collect();
    assert_eq!(sides, vec![(3, -1), (4, 0)]);
    assert!(data.clip_nodes.is_empty() && data.textures.is_empty());
}
