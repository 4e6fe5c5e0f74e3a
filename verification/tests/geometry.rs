use bsp::flags;
use bsp::geometry::{fan_indices, plan_model, SurfaceKey};
use bsp::raw::HEADER_SIZE;
use bsp::{Bsp, BspError, LumpId, BSP_VERSION, VBSP_IDENT};

#[test]
fn skip_render_mask_covers_the_tool_surfaces() {
    // Guards against a typo in the mask silently rendering tool brushes.
    for flag in [
        flags::SURF_NODRAW,
        flags::SURF_SKY,
        flags::SURF_SKY2D,
        flags::SURF_HINT,
        flags::SURF_SKIP,
        flags::SURF_TRIGGER,
    ] {
        assert_ne!(flags::SURF_SKIP_RENDER & flag, 0, "{flag:#x} not masked");
    }
    // ...and does not accidentally drop ordinary visible geometry.
    for flag in [
        flags::SURF_LIGHT,
        flags::SURF_WARP,
        flags::SURF_TRANS,
        flags::SURF_BUMPLIGHT,
        flags::SURF_NOSHADOWS,
    ] {
        assert_eq!(flags::SURF_SKIP_RENDER & flag, 0, "{flag:#x} over-masked");
    }
}

#[test]
fn a_fan_lists_kept_triangles_reversed() {
    assert_eq!(fan_indices(10, &[true, true]), vec![10, 12, 11, 10, 13, 12]);
    assert_eq!(fan_indices(0, &[true, false, true]), vec![0, 2, 1, 0, 4, 3]);
    assert!(fan_indices(5, &[false]).is_empty());
    assert!(fan_indices(5, &[]).is_empty());
}

fn empty_bsp_bytes() -> Vec<u8> {
    let mut bytes = vec![0u8; HEADER_SIZE];
    bytes[0..4].copy_from_slice(&VBSP_IDENT.to_le_bytes());
    bytes[4..8].copy_from_slice(&BSP_VERSION.to_le_bytes());
    bytes
}

fn with_lump(mut bytes: Vec<u8>, id: LumpId, body: &[u8]) -> Vec<u8> {
    let ofs = bytes.len() as i32;
    let at = 8 + 16 * id.index();
    bytes[at..at + 4].copy_from_slice(&ofs.to_le_bytes());
    bytes[at + 4..at + 8].copy_from_slice(&(body.len() as i32).to_le_bytes());
    bytes.extend_from_slice(body);
    bytes
}

fn face(firstedge: i32, numedges: i16, texinfo: i16, dispinfo: i16) -> [u8; 56] {
    let mut f = [0u8; 56];
    f[4..8].copy_from_slice(&firstedge.to_le_bytes());
    f[8..10].copy_from_slice(&numedges.to_le_bytes());
    f[10..12].copy_from_slice(&texinfo.to_le_bytes());
    f[12..14].copy_from_slice(&dispinfo.to_le_bytes());
    f
}

fn texinfo(flags: i32, texdata: i32) -> [u8; 72] {
    let mut t = [0u8; 72];
    t[64..68].copy_from_slice(&flags.to_le_bytes());
    t[68..72].copy_from_slice(&texdata.to_le_bytes());
    t
}

/// One model over six faces: three quads to build (two sharing a
/// material), a nodraw face, a displacement and a two-edge sliver.
fn sample_map() -> Bsp {
    map_with_model(0, 6)
}

/// The faces of [`sample_map`] under one model over `count` faces from `first`.
fn map_with_model(first: i32, count: i32) -> Bsp {
    let mut edges = Vec::new();
    for (a, b) in [(0u16, 0u16), (0, 1), (1, 2), (2, 3), (3, 0)] {
        edges.extend_from_slice(&a.to_le_bytes());
        edges.extend_from_slice(&b.to_le_bytes());
    }
    let mut surfedges = Vec::new();
    for s in [1i32, 2, 3, 4, -4, -3, -2, -1] {
        surfedges.extend_from_slice(&s.to_le_bytes());
    }
    let mut faces = Vec::new();
    for f in [
        face(0, 4, 0, -1),
        face(0, 4, 1, -1),
        face(0, 4, 0, 0),
        face(0, 2, 0, -1),
        face(4, 4, 2, -1),
        face(4, 4, 0, -1),
    ] {
        faces.extend_from_slice(&f);
    }
    let mut texinfos = Vec::new();
    for t in [texinfo(0, 0), texinfo(flags::SURF_NODRAW, 0), texinfo(flags::SURF_LIGHT, 1)] {
        texinfos.extend_from_slice(&t);
    }
    let mut model = [0u8; 48];
    model[40..44].copy_from_slice(&first.to_le_bytes());
    model[44..48].copy_from_slice(&count.to_le_bytes());

    let bytes = with_lump(empty_bsp_bytes(), LumpId::Vertexes, &[0u8; 48]);
    let bytes = with_lump(bytes, LumpId::Edges, &edges);
    let bytes = with_lump(bytes, LumpId::SurfEdges, &surfedges);
    let bytes = with_lump(bytes, LumpId::Planes, &[0u8; 20]);
    let bytes = with_lump(bytes, LumpId::TexData, &[0u8; 64]);
    let bytes = with_lump(bytes, LumpId::TexInfo, &texinfos);
    let bytes = with_lump(bytes, LumpId::Faces, &faces);
    let bytes = with_lump(bytes, LumpId::Models, &model);
    Bsp::parse(bytes).unwrap()
}

#[test]
fn a_model_plan_groups_faces_by_material() {
    let plan = plan_model(&sample_map(), 0).unwrap();
    assert_eq!((plan.first_face, plan.end_face), (0, 6));
    assert_eq!(
        plan.surfaces,
        vec![SurfaceKey { texdata: 0, flags: 0 }, SurfaceKey { texdata: 1, flags: flags::SURF_LIGHT }]
    );
    let placed: Vec<(u32, usize, u32)> = plan.faces.iter().map(|f| (f.face, f.surface, f.first_vertex)).collect();
    assert_eq!(placed, vec![(0, 0, 0), (4, 1, 0), (5, 0, 4)]);
    assert_eq!(plan.faces[0].ring, vec![0, 1, 2, 3]);
    assert_eq!(plan.faces[1].ring, vec![0, 3, 2, 1]);
    assert_eq!(plan.faces[2].chunk().vertex_count, 4);

    let stats = plan.stats;
    assert_eq!((stats.faces_total, stats.faces_built), (6, 3));
    assert_eq!(stats.skipped.tool_surface, 1);
    assert_eq!(stats.skipped.displacement, 1);
    assert_eq!(stats.skipped.too_few_edges, 1);
    assert_eq!(stats.faces_skipped(), 3);
}

#[test]
fn a_missing_model_is_an_index_error() {
    assert!(matches!(
        plan_model(&sample_map(), 1),
        Err(BspError::IndexOutOfRange { lump: LumpId::Models, index: 1, len: 1 })
    ));
}

#[test]
fn a_model_past_the_faces_lump_builds_nothing() {
    let plan = plan_model(&map_with_model(10, 3), 0).unwrap();
    assert_eq!((plan.first_face, plan.end_face), (10, 10));
    assert!(plan.faces.is_empty() && plan.surfaces.is_empty());
    assert_eq!((plan.stats.faces_total, plan.stats.faces_built, plan.stats.faces_skipped()), (0, 0, 0));
}

#[test]
fn a_model_running_off_the_faces_lump_is_clamped() {
    let plan = plan_model(&map_with_model(4, 10), 0).unwrap();
    assert_eq!((plan.first_face, plan.end_face), (4, 6));
    let stats = plan.stats;
    assert_eq!((stats.faces_total, stats.faces_built), (2, 2));
    assert_eq!(stats.faces_built + stats.faces_skipped(), stats.faces_total);
}
