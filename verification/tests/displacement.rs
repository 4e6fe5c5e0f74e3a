use bsp::displacement::{
    face_quad, grid_indices, quad_splits_top_left, DispStats, LuxelAxisCheck, MAX_DISP_POWER, MIN_DISP_POWER,
};
use bsp::raw::{DDispInfo, DEdge, DispTri, Record};

#[test]
fn diagonal_alternates_and_matches_valve_parity() {
    // Valve tests the flat index; for every legal width (5, 9, 17 — all
    // odd) that is the same as testing row + col.
    for side in [5usize, 9, 17] {
        for row in 0..side - 1 {
            for col in 0..side - 1 {
                let ndx = row * side + col;
                assert_eq!(
                    quad_splits_top_left(ndx),
                    (row + col) % 2 == 1,
                    "side {side} row {row} col {col}"
                );
            }
        }
    }
    // ...and that it genuinely alternates along a row.
    assert_ne!(quad_splits_top_left(0), quad_splits_top_left(1));
}

#[test]
fn face_quad_rejects_non_quads() {
    let vertex_count = 4usize;
    let edges = vec![DEdge { v: [0, 1] }; 4];
    let surfedges = vec![0i32; 4];
    assert!(face_quad(0, 3, &surfedges, &edges, vertex_count).is_none());
    assert!(face_quad(0, 5, &surfedges, &edges, vertex_count).is_none());
    assert!(face_quad(0, 4, &surfedges, &edges, vertex_count).is_some());
    // Out-of-range firstedge must not panic.
    assert!(face_quad(900, 4, &surfedges, &edges, vertex_count).is_none());
}

fn dispinfo_with_power(power: i32) -> DDispInfo {
    let bytes = [0u8; 176];
    let mut d = DDispInfo::read(&bytes, 0);
    d.power = power;
    d
}

#[test]
fn displacement_grid_sizes() {
    for (power, verts, tris, side) in [(2, 25, 32, 5), (3, 81, 128, 9), (4, 289, 512, 17)] {
        let d = dispinfo_with_power(power);
        assert_eq!(d.side_len(), side, "power {power} side");
        assert_eq!(d.num_verts(), verts, "power {power} verts");
        assert_eq!(d.num_tris(), tris, "power {power} tris");
    }
}

#[test]
fn face_quad_follows_surfedge_signs() {
    // Edge 1 runs 10 -> 11, edge 2 runs 12 -> 13; a negative surfedge starts
    // from the edge's second vertex.
    let edges = vec![DEdge { v: [0, 0] }, DEdge { v: [10, 11] }, DEdge { v: [12, 13] }];
    let surfedges = vec![1, -1, 2, -2];
    assert_eq!(face_quad(0, 4, &surfedges, &edges, 20), Some([10, 11, 12, 13]));
    // A vertex past the VERTEXES lump rejects the face.
    assert_eq!(face_quad(0, 4, &surfedges, &edges, 13), None);
    // So does an edge past the EDGES lump.
    let far = vec![1, 1, 1, 5];
    assert_eq!(face_quad(0, 4, &far, &edges, 20), None);
}

#[test]
fn a_power_two_grid_has_two_triangles_per_quad() {
    let (indices, removed) = grid_indices(5, 0, &[]);
    assert_eq!(removed, 0);
    assert_eq!(indices.len(), 4 * 4 * 2 * 3);
    assert!(indices.iter().all(|&i| i < 25));
    // Quad 0 splits bottom-left to top-right: (0, 6, 5) then (0, 1, 6),
    // each turned counter-clockwise.
    assert_eq!(&indices[0..6], &[0, 6, 5, 0, 1, 6]);
    // Quad 1 splits the other way: (1, 2, 6) then (2, 7, 6).
    assert_eq!(&indices[6..12], &[1, 2, 6, 2, 7, 6]);
}

#[test]
fn tagged_triangles_are_dropped_and_counted() {
    // Tag the second triangle of the first quad, and one past the grid.
    let mut tris = vec![DispTri { tags: 0 }; 40];
    tris[3].tags = 0x20;
    tris[39].tags = 0x20;
    let (indices, removed) = grid_indices(5, 2, &tris);
    assert_eq!(removed, 1);
    assert_eq!(indices.len(), (32 - 1) * 3);
    assert_eq!(&indices[0..6], &[0, 6, 5, 1, 2, 6]);
}

#[test]
fn skipped_sums_the_skip_reasons() {
    let stats = DispStats {
        displacements: 10,
        built: 3,
        skipped_bad_power: 1,
        skipped_bad_face: 2,
        skipped_no_texinfo: 3,
        skipped_short_verts: 1,
        removed_triangles: 9,
        vertices: 0,
        triangles: 0,
    };
    assert_eq!(stats.skipped(), 7);
    assert_eq!((MIN_DISP_POWER, MAX_DISP_POWER), (2, 4));
}

#[test]
fn luxel_axis_check_sorts_each_outcome() {
    let mut check = LuxelAxisCheck::new();
    check.tally([4, 8], [4, 8]);
    check.tally([4, 8], [8, 4]);
    check.tally([4, 8], [5, 8]);
    check.tally([6, 6], [6, 6]);
    assert_eq!((check.agree, check.transposed, check.inconclusive, check.square), (2, 1, 1, 1));
}

fn dispinfo_map(powers: &[i32]) -> bsp::Bsp {
    let mut bytes = vec![0u8; bsp::raw::HEADER_SIZE];
    bytes[0..4].copy_from_slice(&bsp::VBSP_IDENT.to_le_bytes());
    bytes[4..8].copy_from_slice(&bsp::BSP_VERSION.to_le_bytes());
    let mut infos = Vec::new();
    for power in powers {
        let mut d = [0u8; 176];
        d[20..24].copy_from_slice(&power.to_le_bytes());
        d[36..38].copy_from_slice(&0u16.to_le_bytes());
        infos.extend_from_slice(&d);
    }
    let at = 8 + 16 * bsp::LumpId::DispInfo.index();
    let ofs = bytes.len() as i32;
    bytes[at..at + 4].copy_from_slice(&ofs.to_le_bytes());
    bytes[at + 4..at + 8].copy_from_slice(&(infos.len() as i32).to_le_bytes());
    bytes.extend_from_slice(&infos);
    bsp::Bsp::parse(bytes).unwrap()
}

#[test]
fn every_displacement_is_built_or_skipped_once() {
    // Powers 1 and 5 are out of range; power 3 names face 0, which the
    // map does not have.
    let (_, planned, stats) = bsp::displacement::plan_displacements(&dispinfo_map(&[1, 3, 5])).unwrap();
    assert!(planned.is_empty());
    assert_eq!(stats.displacements, 3);
    assert_eq!((stats.skipped_bad_power, stats.skipped_bad_face), (2, 1));
    assert_eq!(stats.built + stats.skipped(), stats.displacements);
}

#[test]
fn kept_and_removed_triangles_cover_each_grid() {
    // Every third triangle of a power-3 grid (side 9) is tagged for removal.
    let tris: Vec<DispTri> = (0..128).map(|k| DispTri { tags: if k % 3 == 0 { 0x20 } else { 0 } }).collect();
    let (indices, removed) = grid_indices(9, 0, &tris);
    assert_eq!(indices.len() % 3, 0);
    assert_eq!(indices.len() / 3 + removed, 2 * 4usize.pow(3));
    assert_eq!(removed, 43);
}
