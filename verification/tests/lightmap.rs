use bsp::lightmap::{blit, choose_width, layout_atlas, plan_atlas, select_faces, Lighting, LightmapItem, LightmapRect, Shelf};
use bsp::raw::{DFace, Record, TexInfo};

#[test]
fn shelf_packer_wraps_and_stacks() {
    let mut shelf = Shelf::new(16);
    // 6x6 interiors are 8x8 padded, so two fit per 16-wide shelf.
    let a = shelf.place(6, 6);
    let b = shelf.place(6, 6);
    let c = shelf.place(6, 6);
    assert_eq!(a, LightmapRect { x: 1, y: 1, width: 6, height: 6 });
    assert_eq!(b, LightmapRect { x: 9, y: 1, width: 6, height: 6 });
    // Third wraps onto the next shelf, below the first one's border.
    assert_eq!(c, LightmapRect { x: 1, y: 9, width: 6, height: 6 });
    assert_eq!(shelf.height(), 16);
}

#[test]
fn an_over_wide_item_still_gets_placed() {
    let mut shelf = Shelf::new(8);
    let a = shelf.place(6, 2);
    let b = shelf.place(6, 2);
    assert_eq!(a.y, 1);
    assert_eq!(b.y, 5, "second item must start a new shelf");
}

#[test]
fn chosen_width_is_square_ish_and_covers_the_widest_face() {
    // 1000x1000 worth of area wants a 1024-wide atlas.
    assert_eq!(choose_width(1_000_000, 8), 1024);
    // A single huge face forces the width up regardless of total area.
    assert_eq!(choose_width(100, 300), 512);
    // Tiny maps still get a usable floor.
    assert_eq!(choose_width(1, 1), 64);
}

fn pixel(pixels: &[[f32; 3]], width: u32, x: u32, y: u32) -> [f32; 3] {
    pixels[(y * width + x) as usize]
}

#[test]
fn blit_duplicates_edges_into_the_border() {
    let mut pixels = vec![[0.0f32; 3]; 64];
    let rect = LightmapRect { x: 2, y: 2, width: 3, height: 3 };
    // Distinct value per luxel so a wrong border can't coincide.
    let samples: Vec<[f32; 3]> = (0..9).map(|i| [i as f32; 3]).collect();
    blit(&mut pixels, 8, 8, rect, &samples);

    // Interior intact.
    assert_eq!(pixel(&pixels, 8, 2, 2)[0], 0.0);
    assert_eq!(pixel(&pixels, 8, 4, 4)[0], 8.0);
    // Edges repeat the nearest interior luxel.
    assert_eq!(pixel(&pixels, 8, 1, 3)[0], pixel(&pixels, 8, 2, 3)[0]);
    assert_eq!(pixel(&pixels, 8, 5, 3)[0], pixel(&pixels, 8, 4, 3)[0]);
    assert_eq!(pixel(&pixels, 8, 3, 1)[0], pixel(&pixels, 8, 3, 2)[0]);
    assert_eq!(pixel(&pixels, 8, 3, 5)[0], pixel(&pixels, 8, 3, 4)[0]);
    // Corners take the diagonal interior luxel, not black.
    assert_eq!(pixel(&pixels, 8, 1, 1)[0], 0.0);
    assert_eq!(pixel(&pixels, 8, 5, 5)[0], 8.0);
    // Nothing written two pixels out.
    assert_eq!(pixel(&pixels, 8, 0, 0)[0], 0.0);
    assert_eq!(pixel(&pixels, 8, 6, 6)[0], 0.0);
}

#[test]
fn blit_at_the_atlas_edge_does_not_wrap_or_panic() {
    let mut pixels = vec![[0.0f32; 3]; 16];
    // Interior touching x = 0 means the border falls outside the atlas.
    let rect = LightmapRect { x: 0, y: 0, width: 2, height: 2 };
    blit(&mut pixels, 4, 4, rect, &vec![[1.0f32; 3]; 4]);
    assert_eq!(pixel(&pixels, 4, 0, 0), [1.0; 3]);
    assert_eq!(pixel(&pixels, 4, 2, 0), [1.0; 3], "right border");
    // The clipped-away left border must not have wrapped to the far side.
    assert_eq!(pixel(&pixels, 4, 3, 0), [0.0; 3]);
}

#[test]
fn layout_packs_every_face_without_overlap() {
    let items = vec![
        LightmapItem { face: 3, width: 4, height: 2, start: 0 },
        LightmapItem { face: 1, width: 8, height: 8, start: 8 },
        LightmapItem { face: 7, width: 2, height: 5, start: 72 },
    ];
    let layout = layout_atlas(items).expect("small atlas fits");
    assert_eq!(layout.width, 64);
    assert_eq!(layout.items.len(), 3);
    assert_eq!(layout.rects.len(), 3);
    // Tallest first.
    assert_eq!(layout.items[0].face, 1);
    let padded = |r: &LightmapRect| (r.x - 1, r.y - 1, r.x + r.width + 1, r.y + r.height + 1);
    let mut all: Vec<(u32, u32, u32, u32)> = layout.rects.iter().map(padded).collect();
    all.push(padded(&layout.fullbright));
    for (i, a) in all.iter().enumerate() {
        assert!(a.2 <= layout.width && a.3 <= layout.height);
        for b in all.iter().skip(i + 1) {
            let disjoint = a.2 <= b.0 || b.2 <= a.0 || a.3 <= b.1 || b.3 <= a.1;
            assert!(disjoint, "{a:?} overlaps {b:?}");
        }
    }
}

#[test]
fn a_face_named_twice_is_packed_once() {
    let mut face = vec![0u8; 56];
    face[10..12].copy_from_slice(&0i16.to_le_bytes()); // texinfo
    face[20..24].copy_from_slice(&0i32.to_le_bytes()); // lightofs
    face[36..40].copy_from_slice(&1i32.to_le_bytes()); // 2 x 2 samples
    face[40..44].copy_from_slice(&1i32.to_le_bytes());
    let faces = vec![DFace::read(&face, 0), DFace::read(&face, 0)];
    let texinfos = vec![TexInfo::read(&[0u8; 72], 0)];
    let sel = select_faces(&faces, &texinfos, 8, &vec![1, 0, 1, 0, 5]);
    let packed: Vec<u32> = sel.items.iter().map(|i| i.face).collect();
    assert_eq!(packed, vec![1, 0]);
    assert_eq!((sel.faces_unlit, sel.faces_bad_range), (0, 1));
    assert_eq!((sel.items[0].width, sel.items[0].height, sel.items[0].start), (2, 2, 0));
}

fn empty_bsp_bytes() -> Vec<u8> {
    let mut bytes = vec![0u8; bsp::raw::HEADER_SIZE];
    bytes[0..4].copy_from_slice(&bsp::VBSP_IDENT.to_le_bytes());
    bytes[4..8].copy_from_slice(&bsp::BSP_VERSION.to_le_bytes());
    bytes
}

fn with_lump(mut bytes: Vec<u8>, id: bsp::LumpId, body: &[u8]) -> Vec<u8> {
    let ofs = bytes.len() as i32;
    let at = 8 + 16 * id.index();
    bytes[at..at + 4].copy_from_slice(&ofs.to_le_bytes());
    bytes[at + 4..at + 8].copy_from_slice(&(body.len() as i32).to_le_bytes());
    bytes.extend_from_slice(body);
    bytes
}

/// Face 0 has a 2 x 2 bake at the start of the LDR lighting; face 1 was
/// never lit.
fn lit_map() -> bsp::Bsp {
    let mut lit = vec![0u8; 56];
    lit[36..40].copy_from_slice(&1i32.to_le_bytes());
    lit[40..44].copy_from_slice(&1i32.to_le_bytes());
    let mut unlit = lit.clone();
    unlit[16] = 255;
    let faces = [lit, unlit].concat();
    let bytes = with_lump(empty_bsp_bytes(), bsp::LumpId::Faces, &faces);
    let bytes = with_lump(bytes, bsp::LumpId::TexInfo, &[0u8; 72]);
    let bytes = with_lump(bytes, bsp::LumpId::Lighting, &[7u8; 16]);
    bsp::Bsp::parse(bytes).unwrap()
}

#[test]
fn an_atlas_plan_falls_back_to_ldr_and_counts_each_face_once() {
    let plan = plan_atlas(&lit_map(), &vec![0, 1, 0, 7], Lighting::Hdr).unwrap();
    let s = plan.stats;
    assert_eq!(s.source, Lighting::Ldr);
    assert_eq!((s.faces_packed, s.faces_unlit, s.faces_bad_range), (1, 1, 1));
    // Three distinct faces named: each lands in exactly one counter.
    assert_eq!(s.faces_packed + s.faces_unlit + s.faces_bad_range, 3);
    assert_eq!(s.luxels, 4);
    assert_eq!(s.used_pixels, 9 + 4 * 4);
    assert_eq!(plan.samples.len(), 4);
    assert_eq!(plan.layout.items.len(), 1);
    assert_eq!(plan.layout.width, 64);
    let r = plan.layout.rects[0];
    assert!(r.x >= 1 && r.y >= 1 && r.x + r.width < plan.layout.width && r.y + r.height < plan.layout.height);
}

#[test]
fn an_atlas_plan_fails_on_a_missing_texinfo_lump_stride() {
    let bytes = with_lump(empty_bsp_bytes(), bsp::LumpId::Faces, &[0u8; 55]);
    let map = bsp::Bsp::parse(bytes).unwrap();
    assert!(matches!(plan_atlas(&map, &vec![0], Lighting::Ldr), Err(bsp::BspError::BadStride { .. })));
}
