//! A whole Quake-family BSP file: its lumps read into records.

use vstd::prelude::*;

use crate::le::{copy_range, le_i16, le_i32, le_u16, le_u32};
use crate::qbsp::lighting::{magic_qlit, read_lit, rgb_triples, BspLighting};
use crate::qbsp::bspx::{
    bspx_count, bspx_data_ok, bspx_dir_ok, bspx_lumps_are, bspx_others, bspx_rgb, has_bspx, opt_triples,
    read_bspx_directory, BspxData,
};
use crate::qbsp::lumps::{directory_size, is_q2, parse_lump_directory, spec_bsp_entries, spec_directory, LumpDirectory};
use crate::qbsp::models::{uvalue_at, BspEdge, BspFace, BspModel, Hulls, PerSizeHulls, VisleafsField};
use crate::qbsp::nodes::{
    short_node_refs, spec_bsp29_contents, spec_node_ref_32, BoundingBox, BspAmbience, BspAreaIdx, BspClipNode,
    BspLeaf, BspLeafBrushes, BspLeafContentFlags, BspLeafContents, BspNode, BspNodeRef, BspNodeSubRef, BspPlane,
    BspPlaneType, VisDataRef, BspBrush, BspBrushSide,
};
use crate::qbsp::reader::{can_read, BspByteReader};
use crate::qbsp::texture::{
    mip_lump_entry, mip_lump_ok, read_mip_texture_lump, BspMipTexture, BspSurfaceFlags, BspTexFlags, BspTexInfo,
    BspTexInfoFlags, BspTexQ2Info, PlanarTextureProjection, Q2InfoField, TextureIdxField,
};
use crate::qbsp::values::clear_after_nul;
use vstd::utf8::valid_utf8;
use crate::qbsp::values::{wide_values, IBspValue, UBspValue};
use crate::qbsp::{
    magic_at, magic_bsp2, magic_bsp29, magic_bsp30, magic_ibsp, magic_qbsp, BspFormat, BspParseContext,
    BspParseError, BspParseInput, BspParseResultDoingJobExt, LumpEntry,
};

verus! {

/// A fixed-size record of a lump, whose size and layout depend on the format.
pub trait LumpRecord: Sized {
    /// Bytes one record takes in format `f`.
    spec fn record_size(f: BspFormat) -> int;

    /// Whether the record at `c` in `d` decodes in format `f`.
    spec fn record_ok(d: Seq<u8>, c: int, f: BspFormat) -> bool;

    /// Whether `v` is what the record at `c` in `d` decodes to in format `f`.
    spec fn record_is(d: Seq<u8>, c: int, f: BspFormat, v: Self) -> bool;

    /// The record size in format `f`.
    fn size_in(f: BspFormat) -> (r: usize)
        ensures
            r == Self::record_size(f),
            1 <= r <= 128,
    ;

    /// Read one record at the reader's position, in the reader's format.
    fn read_record(reader: &mut BspByteReader) -> (r: Result<Self, BspParseError>)
        requires
            old(reader).cursor() + 128 <= usize::MAX,
        ensures
            final(reader).data() == old(reader).data(),
            final(reader).context() == old(reader).context(),
            can_read(*old(reader), Self::record_size(old(reader).context().format)) ==> {
                &&& (r is Ok) == Self::record_ok(old(reader).data(), old(reader).cursor(), old(reader).context().format)
                &&& r matches Ok(v) ==> Self::record_is(
                    old(reader).data(),
                    old(reader).cursor(),
                    old(reader).context().format,
                    v,
                ) && final(reader).cursor() == old(reader).cursor() + Self::record_size(old(reader).context().format)
            },
    ;
}

/// Bytes of a variable-width value: 4 where values are wide, else 2.
pub open spec fn value_width(f: BspFormat) -> int {
    if wide_values(f) {
        4
    } else {
        2
    }
}

fn value_width_in(f: BspFormat) -> (r: usize)
    ensures
        r == value_width(f),
{
    match f {
        BspFormat::BSP2 | BspFormat::BSP38Qbism => 4,
        _ => 2,
    }
}

impl LumpRecord for i32 {
    open spec fn record_size(f: BspFormat) -> int {
        4
    }

    open spec fn record_ok(d: Seq<u8>, c: int, f: BspFormat) -> bool {
        true
    }

    open spec fn record_is(d: Seq<u8>, c: int, f: BspFormat, v: i32) -> bool {
        v == le_i32(d, c)
    }

    fn size_in(f: BspFormat) -> (r: usize) {
        4
    }

    fn read_record(reader: &mut BspByteReader) -> (r: Result<i32, BspParseError>) {
        reader.read_i32()
    }
}

impl LumpRecord for UBspValue {
    open spec fn record_size(f: BspFormat) -> int {
        value_width(f)
    }

    open spec fn record_ok(d: Seq<u8>, c: int, f: BspFormat) -> bool {
        true
    }

    open spec fn record_is(d: Seq<u8>, c: int, f: BspFormat, v: UBspValue) -> bool {
        v.0 == uvalue_at(d, c, wide_values(f))
    }

    fn size_in(f: BspFormat) -> (r: usize) {
        value_width_in(f)
    }

    fn read_record(reader: &mut BspByteReader) -> (r: Result<UBspValue, BspParseError>) {
        UBspValue::parse(reader)
    }
}

/// A vertex position: three `f32` bit patterns.
impl LumpRecord for [u32; 3] {
    open spec fn record_size(f: BspFormat) -> int {
        12
    }

    open spec fn record_ok(d: Seq<u8>, c: int, f: BspFormat) -> bool {
        true
    }

    open spec fn record_is(d: Seq<u8>, c: int, f: BspFormat, v: [u32; 3]) -> bool {
        v == [le_u32(d, c), le_u32(d, c + 4), le_u32(d, c + 8)]
    }

    fn size_in(f: BspFormat) -> (r: usize) {
        12
    }

    fn read_record(reader: &mut BspByteReader) -> (r: Result<[u32; 3], BspParseError>) {
        read_u32x3(reader)
    }
}

impl LumpRecord for BspEdge {
    open spec fn record_size(f: BspFormat) -> int {
        2 * value_width(f)
    }

    open spec fn record_ok(d: Seq<u8>, c: int, f: BspFormat) -> bool {
        true
    }

    open spec fn record_is(d: Seq<u8>, c: int, f: BspFormat, v: BspEdge) -> bool {
        v == BspEdge {
            a: UBspValue(uvalue_at(d, c, wide_values(f))),
            b: UBspValue(uvalue_at(d, c + value_width(f), wide_values(f))),
        }
    }

    fn size_in(f: BspFormat) -> (r: usize) {
        2 * value_width_in(f)
    }

    fn read_record(reader: &mut BspByteReader) -> (r: Result<BspEdge, BspParseError>) {
        BspEdge::parse(reader)
    }
}

/// Whether `face` is what the face record at `c` in `d` decodes to.
pub open spec fn face_at(d: Seq<u8>, c: int, f: BspFormat, face: BspFace) -> bool {
    let wide = wide_values(f);
    let w = value_width(f);
    let o = le_i32(d, c + 4 * w + 8);
    &&& face.plane_idx.0 == uvalue_at(d, c, wide)
    &&& face.plane_side.0 == uvalue_at(d, c + w, wide)
    &&& face.first_edge == le_u32(d, c + 2 * w)
    &&& face.num_edges.0 == uvalue_at(d, c + 2 * w + 4, wide)
    &&& face.texture_info_idx.0 == uvalue_at(d, c + 3 * w + 4, wide)
    &&& face.lightmap_styles[0].0 == d[c + 4 * w + 4]
    &&& face.lightmap_styles[1].0 == d[c + 4 * w + 5]
    &&& face.lightmap_styles[2].0 == d[c + 4 * w + 6]
    &&& face.lightmap_styles[3].0 == d[c + 4 * w + 7]
    &&& if f is BSP2 || f is BSP29 {
        face.lightmap_offset.pixels == o
    } else {
        face.lightmap_offset.pixels == o / 3 || (o < 0 && face.lightmap_offset.pixels == -((-o) / 3))
    }
}

impl LumpRecord for BspFace {
    open spec fn record_size(f: BspFormat) -> int {
        BspFace::spec_size(wide_values(f))
    }

    open spec fn record_ok(d: Seq<u8>, c: int, f: BspFormat) -> bool {
        true
    }

    open spec fn record_is(d: Seq<u8>, c: int, f: BspFormat, v: BspFace) -> bool {
        face_at(d, c, f, v)
    }

    fn size_in(f: BspFormat) -> (r: usize) {
        match f {
            BspFormat::BSP2 | BspFormat::BSP38Qbism => 28,
            _ => 20,
        }
    }

    fn read_record(reader: &mut BspByteReader) -> (r: Result<BspFace, BspParseError>) {
        BspFace::parse(reader)
    }
}

/// A node reference stored at `at`: `i16` where references are short, else
/// `i32`.
pub open spec fn node_ref_at(d: Seq<u8>, at: int, f: BspFormat) -> BspNodeSubRef {
    BspNodeSubRef(
        spec_node_ref_32(
            if short_node_refs(f) {
                le_i16(d, at) as i32
            } else {
                le_i32(d, at)
            },
        ),
    )
}

impl LumpRecord for BspClipNode {
    open spec fn record_size(f: BspFormat) -> int {
        if short_node_refs(f) {
            8
        } else {
            12
        }
    }

    open spec fn record_ok(d: Seq<u8>, c: int, f: BspFormat) -> bool {
        true
    }

    open spec fn record_is(d: Seq<u8>, c: int, f: BspFormat, v: BspClipNode) -> bool {
        let w: int = if short_node_refs(f) { 2 } else { 4 };
        v == BspClipNode { plane_idx: le_u32(d, c), front: node_ref_at(d, c + 4, f), back: node_ref_at(d, c + 4 + w, f) }
    }

    fn size_in(f: BspFormat) -> (r: usize) {
        match f {
            BspFormat::BSP29 | BspFormat::BSP30 => 8,
            _ => 12,
        }
    }

    fn read_record(reader: &mut BspByteReader) -> (r: Result<BspClipNode, BspParseError>) {
        BspClipNode::parse(reader)
    }
}

impl LumpRecord for BspPlane {
    open spec fn record_size(f: BspFormat) -> int {
        20
    }

    open spec fn record_ok(d: Seq<u8>, c: int, f: BspFormat) -> bool {
        BspPlaneType::spec_from_u32(le_u32(d, c + 16)) is Some
    }

    open spec fn record_is(d: Seq<u8>, c: int, f: BspFormat, v: BspPlane) -> bool {
        v == BspPlane {
            normal: [le_u32(d, c), le_u32(d, c + 4), le_u32(d, c + 8)],
            dist: le_u32(d, c + 12),
            ty: BspPlaneType::spec_from_u32(le_u32(d, c + 16))->0,
        }
    }

    fn size_in(f: BspFormat) -> (r: usize) {
        20
    }

    fn read_record(reader: &mut BspByteReader) -> (r: Result<BspPlane, BspParseError>) {
        BspPlane::parse(reader)
    }
}

/// Three `u32` values at `at`.
pub open spec fn u32x3_at(d: Seq<u8>, at: int) -> [u32; 3] {
    [le_u32(d, at), le_u32(d, at + 4), le_u32(d, at + 8)]
}

/// Three `u16` values at `at`.
pub open spec fn u16x3_at(d: Seq<u8>, at: int) -> [u16; 3] {
    [le_u16(d, at), le_u16(d, at + 2), le_u16(d, at + 4)]
}

/// Bytes of a node's box: `f32` corners where values are wide, else `u16`.
pub open spec fn box_width(f: BspFormat) -> int {
    if wide_values(f) {
        24
    } else {
        12
    }
}

/// The box stored at `at` in format `f`.
pub open spec fn box_at(d: Seq<u8>, at: int, f: BspFormat) -> BoundingBox {
    if wide_values(f) {
        BoundingBox::Float { min: u32x3_at(d, at), max: u32x3_at(d, at + 12) }
    } else {
        BoundingBox::Short { min: u16x3_at(d, at), max: u16x3_at(d, at + 6) }
    }
}

/// Bytes of a node reference.
pub open spec fn ref_width(f: BspFormat) -> int {
    if short_node_refs(f) {
        2
    } else {
        4
    }
}

fn read_u32x3(reader: &mut BspByteReader) -> (r: Result<[u32; 3], BspParseError>)
    requires
        old(reader).cursor() + 12 <= usize::MAX,
    ensures
        final(reader).data() == old(reader).data(),
        final(reader).context() == old(reader).context(),
        can_read(*old(reader), 12) ==> r == Ok::<[u32; 3], BspParseError>(
            u32x3_at(old(reader).data(), old(reader).cursor()),
        ) && final(reader).cursor() == old(reader).cursor() + 12,
        !can_read(*old(reader), 12) ==> r is Err,
{
    let x = reader.read_u32()?;
    let y = reader.read_u32()?;
    let z = reader.read_u32()?;
    Ok([x, y, z])
}

fn read_box(reader: &mut BspByteReader) -> (r: Result<BoundingBox, BspParseError>)
    requires
        old(reader).cursor() + 24 <= usize::MAX,
    ensures
        final(reader).data() == old(reader).data(),
        final(reader).context() == old(reader).context(),
        can_read(*old(reader), box_width(old(reader).context().format)) ==> r == Ok::<BoundingBox, BspParseError>(
            box_at(old(reader).data(), old(reader).cursor(), old(reader).context().format),
        ) && final(reader).cursor() == old(reader).cursor() + box_width(old(reader).context().format),
        !can_read(*old(reader), box_width(old(reader).context().format)) ==> r is Err,
{
    match reader.format() {
        BspFormat::BSP2 | BspFormat::BSP38Qbism => {
            let min = read_u32x3(reader)?;
            let max = read_u32x3(reader)?;
            Ok(BoundingBox::Float { min, max })
        },
        _ => {
            let a = reader.read_u16()?;
            let b = reader.read_u16()?;
            let c = reader.read_u16()?;
            let x = reader.read_u16()?;
            let y = reader.read_u16()?;
            let z = reader.read_u16()?;
            Ok(BoundingBox::Short { min: [a, b, c], max: [x, y, z] })
        },
    }
}

impl LumpRecord for BspNode {
    open spec fn record_size(f: BspFormat) -> int {
        4 + 2 * ref_width(f) + box_width(f) + 2 * value_width(f)
    }

    open spec fn record_ok(d: Seq<u8>, c: int, f: BspFormat) -> bool {
        true
    }

    open spec fn record_is(d: Seq<u8>, c: int, f: BspFormat, v: BspNode) -> bool {
        let b = c + 4 + 2 * ref_width(f);
        let fi = b + box_width(f);
        v == BspNode {
            plane_idx: le_u32(d, c),
            front: node_ref_at(d, c + 4, f),
            back: node_ref_at(d, c + 4 + ref_width(f), f),
            bound: box_at(d, b, f),
            face_idx: UBspValue(uvalue_at(d, fi, wide_values(f))),
            face_num: UBspValue(uvalue_at(d, fi + value_width(f), wide_values(f))),
        }
    }

    fn size_in(f: BspFormat) -> (r: usize) {
        let refs: usize = match f {
            BspFormat::BSP29 | BspFormat::BSP30 => 2,
            _ => 4,
        };
        let wide: usize = value_width_in(f);
        let bx: usize = if wide == 4 { 24 } else { 12 };
        4 + 2 * refs + bx + 2 * wide
    }

    fn read_record(reader: &mut BspByteReader) -> (r: Result<BspNode, BspParseError>) {
        let plane_idx = reader.read_u32()?;
        let front = BspNodeSubRef::parse(reader)?;
        let back = BspNodeSubRef::parse(reader)?;
        let bound = read_box(reader)?;
        let face_idx = UBspValue::parse(reader)?;
        let face_num = UBspValue::parse(reader)?;
        Ok(BspNode { plane_idx, front, back, bound, face_idx, face_num })
    }
}

impl LumpRecord for BspModel {
    open spec fn record_size(f: BspFormat) -> int {
        if is_q2(f) {
            48
        } else {
            64
        }
    }

    open spec fn record_ok(d: Seq<u8>, c: int, f: BspFormat) -> bool {
        true
    }

    open spec fn record_is(d: Seq<u8>, c: int, f: BspFormat, v: BspModel) -> bool {
        let q2 = is_q2(f);
        let tail: int = if q2 { 40 } else { 56 };
        v == BspModel {
            bound_min: u32x3_at(d, c),
            bound_max: u32x3_at(d, c + 12),
            origin: u32x3_at(d, c + 24),
            hulls: Hulls {
                root: spec_node_ref_32(le_i32(d, c + 36)),
                for_size: if q2 {
                    None
                } else {
                    Some(
                        PerSizeHulls {
                            small: spec_node_ref_32(le_i32(d, c + 40)),
                            large: spec_node_ref_32(le_i32(d, c + 44)),
                            unused: spec_node_ref_32(le_i32(d, c + 48)),
                        },
                    )
                },
            },
            visleafs: VisleafsField(
                if q2 {
                    None
                } else {
                    Some(le_u32(d, c + 52))
                },
            ),
            first_face: le_u32(d, c + tail),
            num_faces: le_u32(d, c + tail + 4),
        }
    }

    fn size_in(f: BspFormat) -> (r: usize) {
        match f {
            BspFormat::BSP38 | BspFormat::BSP38Qbism => 48,
            _ => 64,
        }
    }

    fn read_record(reader: &mut BspByteReader) -> (r: Result<BspModel, BspParseError>) {
        let q2 = reader.format().is_quake2();
        let bound_min = read_u32x3(reader)?;
        let bound_max = read_u32x3(reader)?;
        let origin = read_u32x3(reader)?;
        let root = BspNodeRef::from_i32(reader.read_i32()?);
        let (for_size, visleafs) = if q2 {
            (None, VisleafsField(None))
        } else {
            let small = BspNodeRef::from_i32(reader.read_i32()?);
            let large = BspNodeRef::from_i32(reader.read_i32()?);
            let unused = BspNodeRef::from_i32(reader.read_i32()?);
            let leafs = reader.read_u32()?;
            (Some(PerSizeHulls { small, large, unused }), VisleafsField(Some(leafs)))
        };
        let first_face = reader.read_u32()?;
        let num_faces = reader.read_u32()?;
        Ok(BspModel { bound_min, bound_max, origin, hulls: Hulls { root, for_size }, visleafs, first_face, num_faces })
    }
}

/// The flags a texinfo stores as `v`: a texture flag for BSP29 and BSP2,
/// surface flags otherwise.
pub open spec fn texinfo_flags(f: BspFormat, v: u32) -> BspTexInfoFlags {
    if f is BSP29 || f is BSP2 {
        BspTexInfoFlags { texture_flags: BspTexFlags::spec_from_u32(v), surface_flags: BspSurfaceFlags(0) }
    } else {
        BspTexInfoFlags { texture_flags: None, surface_flags: BspSurfaceFlags(v & BspSurfaceFlags::ALL) }
    }
}

impl LumpRecord for BspTexInfo {
    open spec fn record_size(f: BspFormat) -> int {
        if is_q2(f) {
            76
        } else {
            40
        }
    }

    open spec fn record_ok(d: Seq<u8>, c: int, f: BspFormat) -> bool {
        &&& (f is BSP29 || f is BSP2) ==> BspTexFlags::spec_from_u32(le_u32(d, c + 36)) is Some
        &&& is_q2(f) ==> valid_utf8(clear_after_nul(d.subrange(c + 40, c + 72)))
    }

    open spec fn record_is(d: Seq<u8>, c: int, f: BspFormat, v: BspTexInfo) -> bool {
        let q2 = is_q2(f);
        let fl: int = if q2 { c + 32 } else { c + 36 };
        &&& v.projection == PlanarTextureProjection {
            u_axis: u32x3_at(d, c),
            u_offset: le_u32(d, c + 12),
            v_axis: u32x3_at(d, c + 16),
            v_offset: le_u32(d, c + 28),
        }
        &&& v.texture_idx == TextureIdxField(
            if q2 {
                None
            } else {
                Some(le_u32(d, c + 32))
            },
        )
        &&& v.flags == texinfo_flags(f, le_u32(d, fl))
        &&& if q2 {
            v.extra_info.0 matches Some(q) && q.value == le_u32(d, c + 36) && q.name.wf() && q.name.bytes()
                == clear_after_nul(d.subrange(c + 40, c + 72)) && q.next == le_i32(d, c + 72)
        } else {
            v.extra_info.0 is None
        }
    }

    fn size_in(f: BspFormat) -> (r: usize) {
        match f {
            BspFormat::BSP38 | BspFormat::BSP38Qbism => 76,
            _ => 40,
        }
    }

    fn read_record(reader: &mut BspByteReader) -> (r: Result<BspTexInfo, BspParseError>) {
        let q2 = reader.format().is_quake2();
        let u_axis = read_u32x3(reader)?;
        let u_offset = reader.read_u32()?;
        let v_axis = read_u32x3(reader)?;
        let v_offset = reader.read_u32()?;
        let texture_idx = if q2 {
            TextureIdxField(None)
        } else {
            TextureIdxField(Some(reader.read_u32()?))
        };
        let flags = BspTexInfoFlags::parse(reader)?;
        let extra_info = if q2 {
            Q2InfoField(Some(BspTexQ2Info::parse(reader)?))
        } else {
            Q2InfoField(None)
        };
        Ok(
            BspTexInfo {
                projection: PlanarTextureProjection { u_axis, u_offset, v_axis, v_offset },
                texture_idx,
                flags,
                extra_info,
            },
        )
    }
}

/// Bytes of a leaf's visibility reference: a Quake 2 cluster is an `i16`.
pub open spec fn vis_width(f: BspFormat) -> int {
    if f is BSP38 {
        2
    } else {
        4
    }
}

/// Bytes of a leaf's area: Quake 2 and Qbism only.
pub open spec fn area_width(f: BspFormat) -> int {
    if f is BSP38 {
        2
    } else if f is BSP38Qbism {
        4
    } else {
        0
    }
}

/// The contents a leaf stores as `v`: a Quake 1 contents value mapped to
/// flags, or the flags themselves.
pub open spec fn leaf_contents_ok(f: BspFormat, v: i32) -> bool {
    (f is BSP29 || f is BSP2) ==> spec_bsp29_contents(v) is Some
}

impl LumpRecord for BspLeaf {
    open spec fn record_size(f: BspFormat) -> int {
        4 + vis_width(f) + area_width(f) + box_width(f) + 2 * value_width(f) + if is_q2(f) {
            2 * value_width(f)
        } else {
            4
        }
    }

    open spec fn record_ok(d: Seq<u8>, c: int, f: BspFormat) -> bool {
        leaf_contents_ok(f, le_i32(d, c))
    }

    open spec fn record_is(d: Seq<u8>, c: int, f: BspFormat, v: BspLeaf) -> bool {
        let q2 = is_q2(f);
        let w = value_width(f);
        let b = c + 4 + vis_width(f) + area_width(f);
        let fi = b + box_width(f);
        let tail = fi + 2 * w;
        &&& v.contents.0.0 == if f is BSP29 || f is BSP2 {
            BspLeafContentFlags::spec_from_bsp29(spec_bsp29_contents(le_i32(d, c))->0)
        } else {
            le_u32(d, c) & BspLeafContentFlags::ALL
        }
        &&& v.visdata == if f is BSP38 {
            VisDataRef::Cluster(le_i16(d, c + 4) as i32)
        } else if q2 {
            VisDataRef::Cluster(le_i32(d, c + 4))
        } else {
            VisDataRef::Offset(le_i32(d, c + 4))
        }
        &&& v.area == BspAreaIdx(
            if f is BSP38 {
                Some(le_u16(d, c + 6) as u32)
            } else if q2 {
                Some(le_u32(d, c + 8))
            } else {
                None
            },
        )
        &&& v.bound == box_at(d, b, f)
        &&& v.face_idx == UBspValue(uvalue_at(d, fi, wide_values(f)))
        &&& v.face_num == UBspValue(uvalue_at(d, fi + w, wide_values(f)))
        &&& v.ambience == if q2 {
            None
        } else {
            Some(BspAmbience { water: d[tail], sky: d[tail + 1], slime: d[tail + 2], lava: d[tail + 3] })
        }
        &&& v.leaf_brushes == if q2 {
            Some(
                BspLeafBrushes {
                    idx: UBspValue(uvalue_at(d, tail, wide_values(f))),
                    num: UBspValue(uvalue_at(d, tail + w, wide_values(f))),
                },
            )
        } else {
            None
        }
    }

    fn size_in(f: BspFormat) -> (r: usize) {
        match f {
            BspFormat::BSP29 | BspFormat::BSP30 | BspFormat::BSP38 => 28,
            BspFormat::BSP2 => 44,
            BspFormat::BSP38Qbism => 52,
        }
    }

    fn read_record(reader: &mut BspByteReader) -> (r: Result<BspLeaf, BspParseError>) {
        let f = reader.format();
        let contents = BspLeafContents::parse(reader)?;
        let (visdata, area) = match f {
            BspFormat::BSP38 => {
                let cluster = reader.read_i16()?;
                let area = reader.read_u16()?;
                (VisDataRef::Cluster(cluster as i32), BspAreaIdx(Some(area as u32)))
            },
            BspFormat::BSP38Qbism => {
                let cluster = reader.read_i32()?;
                let area = reader.read_u32()?;
                (VisDataRef::Cluster(cluster), BspAreaIdx(Some(area)))
            },
            _ => {
                let offset = reader.read_i32()?;
                (VisDataRef::Offset(offset), BspAreaIdx(None))
            },
        };
        let bound = read_box(reader)?;
        let face_idx = UBspValue::parse(reader)?;
        let face_num = UBspValue::parse(reader)?;
        let (ambience, leaf_brushes) = match f {
            BspFormat::BSP38 | BspFormat::BSP38Qbism => {
                let idx = UBspValue::parse(reader)?;
                let num = UBspValue::parse(reader)?;
                (None, Some(BspLeafBrushes { idx, num }))
            },
            _ => {
                let water = reader.read_u8()?;
                let sky = reader.read_u8()?;
                let slime = reader.read_u8()?;
                let lava = reader.read_u8()?;
                (Some(BspAmbience { water, sky, slime, lava }), None)
            },
        };
        Ok(BspLeaf { contents, visdata, area, bound, face_idx, face_num, ambience, leaf_brushes })
    }
}

impl LumpRecord for BspBrush {
    open spec fn record_size(f: BspFormat) -> int {
        12
    }

    open spec fn record_ok(d: Seq<u8>, c: int, f: BspFormat) -> bool {
        true
    }

    open spec fn record_is(d: Seq<u8>, c: int, f: BspFormat, v: BspBrush) -> bool {
        v == BspBrush { first_side: le_i32(d, c), num_sides: le_i32(d, c + 4), contents: le_i32(d, c + 8) }
    }

    fn size_in(f: BspFormat) -> (r: usize) {
        12
    }

    fn read_record(reader: &mut BspByteReader) -> (r: Result<BspBrush, BspParseError>) {
        let first_side = reader.read_i32()?;
        let num_sides = reader.read_i32()?;
        let contents = reader.read_i32()?;
        Ok(BspBrush { first_side, num_sides, contents })
    }
}

/// A signed variable-width value at `at`: 32 bits when `wide`, else 16.
pub open spec fn ivalue_at(d: Seq<u8>, at: int, wide: bool) -> i32 {
    if wide {
        le_i32(d, at)
    } else {
        le_i16(d, at) as i32
    }
}

impl LumpRecord for BspBrushSide {
    open spec fn record_size(f: BspFormat) -> int {
        2 * value_width(f)
    }

    open spec fn record_ok(d: Seq<u8>, c: int, f: BspFormat) -> bool {
        true
    }

    open spec fn record_is(d: Seq<u8>, c: int, f: BspFormat, v: BspBrushSide) -> bool {
        v == BspBrushSide {
            plane_idx: UBspValue(uvalue_at(d, c, wide_values(f))),
            texture_info: IBspValue(ivalue_at(d, c + value_width(f), wide_values(f))),
        }
    }

    fn size_in(f: BspFormat) -> (r: usize) {
        2 * value_width_in(f)
    }

    fn read_record(reader: &mut BspByteReader) -> (r: Result<BspBrushSide, BspParseError>) {
        let plane_idx = UBspValue::parse(reader)?;
        let texture_info = IBspValue::parse(reader)?;
        Ok(BspBrushSide { plane_idx, texture_info })
    }
}

/// The bytes of `data` that entry `e` points to.
pub open spec fn entry_bytes(data: Seq<u8>, e: LumpEntry) -> Seq<u8> {
    data.subrange(e.offset as int, e.offset + e.len)
}

/// Whether the `i`-th record of `b` decodes.
pub open spec fn record_ok_at<T: LumpRecord>(b: Seq<u8>, f: BspFormat, i: int) -> bool {
    T::record_ok(b, i * T::record_size(f), f)
}

/// Whether `v` is what the `i`-th record of `b` decodes to.
pub open spec fn record_is_at<T: LumpRecord>(b: Seq<u8>, f: BspFormat, i: int, v: T) -> bool {
    T::record_is(b, i * T::record_size(f), f, v)
}

/// Whether every whole record of `b` decodes.
pub open spec fn records_ok<T: LumpRecord>(b: Seq<u8>, f: BspFormat) -> bool {
    forall|i: int| 0 <= i < (b.len() as int) / T::record_size(f) ==> #[trigger] record_ok_at::<T>(b, f, i)
}

/// Whether `v` holds, in order, what every whole record of `b` decodes to.
pub open spec fn records_are<T: LumpRecord>(b: Seq<u8>, f: BspFormat, v: Seq<T>) -> bool {
    &&& v.len() == (b.len() as int) / T::record_size(f)
    &&& forall|i: int| 0 <= i < v.len() ==> #[trigger] record_is_at::<T>(b, f, i, v[i])
}

/// Whether the lump of `e` lies inside `data` and all its records decode.
pub open spec fn lump_ok<T: LumpRecord>(data: Seq<u8>, e: LumpEntry, f: BspFormat) -> bool {
    &&& !e.spec_out_of(data.len() as int)
    &&& records_ok::<T>(entry_bytes(data, e), f)
}

/// Whether the lump of `e`, if it lies inside `data`, holds whole records.
pub open spec fn lump_fits<T: LumpRecord>(data: Seq<u8>, e: LumpEntry, f: BspFormat) -> bool {
    !e.spec_out_of(data.len() as int) ==> (e.len as int) % T::record_size(f) == 0
}

/// The description of the work on record `index` of lump `lump_name`, made
/// by std's `format!` as `"Parsing {lump_name} lump entry {index}"`. Nothing
/// is claimed here of the text.
#[verifier::external_body]
fn entry_job(lump_name: &str, index: usize) -> String {
    format!("Parsing {lump_name} lump entry {index}")
}

proof fn lemma_record_in_lump(i: int, n: int, size: int, len: int)
    requires
        0 <= i < n,
        size >= 1,
        len % size == 0,
        n == len / size,
    ensures
        i * size + size <= len,
        (i + 1) * size == i * size + size,
        0 <= i * size,
{
    vstd::arithmetic::div_mod::lemma_fundamental_div_mod(len, size);
    assert(i * size + size <= len) by (nonlinear_arith)
        requires
            0 <= i < n,
            size >= 1,
            len == size * n,
    ;
    assert((i + 1) * size == i * size + size) by (nonlinear_arith);
    assert(0 <= i * size) by (nonlinear_arith)
        requires
            0 <= i,
            size >= 1,
    ;
}

/// Read every record of the lump at `entry`. A lump that lies inside `data`
/// must hold whole records, and `data` must leave room past its end for a
/// record's cursor.
pub fn read_lump<T: LumpRecord>(data: &[u8], entry: LumpEntry, lump_name: &str, ctx: &BspParseContext) -> (r: Result<
    Vec<T>,
    BspParseError,
>)
    requires
        lump_fits::<T>(data@, entry, ctx.format),
        data@.len() + 128 <= usize::MAX,
    ensures
        (r is Ok) == lump_ok::<T>(data@, entry, ctx.format),
        r matches Ok(v) ==> records_are::<T>(entry_bytes(data@, entry), ctx.format, v@),
        r matches Err(e) ==> if entry.spec_out_of(data@.len() as int) {
            e == BspParseError::LumpOutOfBounds(entry)
        } else {
            e is DoingJob
        },
{
    let lump_data = entry.get(data)?;
    let ghost b = lump_data@;
    let ghost f = ctx.format;
    let size = T::size_in(ctx.format);
    let n = lump_data.len() / size;
    let mut reader = BspByteReader::new(lump_data, ctx);
    let mut out: Vec<T> = Vec::new();
    let mut i: usize = 0;
    while i < n
        invariant
            b == lump_data@,
            b == entry_bytes(data@, entry),
            !entry.spec_out_of(data@.len() as int),
            b.len() + 128 <= usize::MAX,
            f == ctx.format,
            size == T::record_size(f),
            1 <= size <= 128,
            (b.len() as int) % (size as int) == 0,
            n == (b.len() as int) / (size as int),
            reader.data() == b,
            reader.context() == *ctx,
            reader.cursor() == i * size,
            i <= n,
            out@.len() == i,
            forall|k: int| 0 <= k < i ==> #[trigger] record_ok_at::<T>(b, f, k),
            forall|k: int| 0 <= k < i ==> #[trigger] record_is_at::<T>(b, f, k, out@[k]),
        decreases n - i,
    {
        proof {
            lemma_record_in_lump(i as int, n as int, size as int, b.len() as int);
        }
        let rec = T::read_record(&mut reader);
        match rec {
            Ok(v) => {
                out.push(v);
            },
            Err(e) => {
                proof {
                    assert(!record_ok_at::<T>(b, f, i as int));
                }
                return Err(BspParseError::DoingJob(entry_job(lump_name, i), Box::new(e)));
            },
        }
        proof {
            assert forall|k: int| 0 <= k < i + 1 implies #[trigger] record_is_at::<T>(b, f, k, out@[k]) by {
                if k < i {
                }
            }
        }
        i = i + 1;
    }
    Ok(out)
}

/// The format the magic number at the start of `d` names, if `d` starts
/// with one this reader takes.
pub open spec fn spec_format(d: Seq<u8>) -> Option<BspFormat> {
    if d.len() < 4 {
        None
    } else if magic_at(d, 0, magic_bsp2()) {
        Some(BspFormat::BSP2)
    } else if magic_at(d, 0, magic_bsp29()) {
        Some(BspFormat::BSP29)
    } else if magic_at(d, 0, magic_bsp30()) {
        Some(BspFormat::BSP30)
    } else if (magic_at(d, 0, magic_ibsp()) || magic_at(d, 0, magic_qbsp())) && d.len() >= 8 && le_u32(d, 4) == 38 {
        if magic_at(d, 0, magic_ibsp()) {
            Some(BspFormat::BSP38)
        } else {
            Some(BspFormat::BSP38Qbism)
        }
    } else {
        None
    }
}

/// Bytes before the lump directory: the magic number, and for Quake 2 the
/// version.
pub open spec fn header_len(f: BspFormat) -> int {
    if is_q2(f) {
        8
    } else {
        4
    }
}

/// The lump directory of a file in format `f`.
pub open spec fn file_directory(d: Seq<u8>, f: BspFormat) -> LumpDirectory {
    spec_directory(d, header_len(f), f)
}

/// Whether the lump of `e` lies inside `d`.
pub open spec fn inside(d: Seq<u8>, e: LumpEntry) -> bool {
    !e.spec_out_of(d.len() as int)
}

/// Whether a `.lit` file parses: `"QLIT"`, a version, then whole RGB
/// triples.
pub open spec fn lit_ok(b: Seq<u8>) -> bool {
    b.len() >= 8 && magic_at(b, 0, magic_qlit()) && (b.len() - 8) % 3 == 0
}

/// Whether step `k` of reading a file in format `f` succeeds, the steps
/// being its lumps in directory order, with the lighting read from `lit`
/// when a `.lit` file is given.
pub open spec fn step_ok(d: Seq<u8>, f: BspFormat, lit: Option<Seq<u8>>, k: int) -> bool {
    let dir = file_directory(d, f);
    if k == 0 {
        inside(d, dir.entities)
    } else if k == 1 {
        lump_ok::<BspPlane>(d, dir.planes, f)
    } else if k == 2 {
        dir.textures.0 matches Some(e) ==> inside(d, e) && mip_lump_ok(entry_bytes(d, e), 0, f)
    } else if k == 3 {
        lump_ok::<[u32; 3]>(d, dir.vertices, f)
    } else if k == 4 {
        inside(d, dir.visibility)
    } else if k == 5 {
        lump_ok::<BspNode>(d, dir.nodes, f)
    } else if k == 6 {
        lump_ok::<BspTexInfo>(d, dir.tex_info, f)
    } else if k == 7 {
        lump_ok::<BspFace>(d, dir.faces, f)
    } else if k == 8 {
        match lit {
            Some(b) => lit_ok(b),
            None => dir.lighting.len == 0 || (inside(d, dir.lighting) && (f is BSP2 || f is BSP29
                || dir.lighting.len % 3 == 0)),
        }
    } else if k == 9 {
        dir.clip_nodes.0 matches Some(e) ==> lump_ok::<BspClipNode>(d, e, f)
    } else if k == 10 {
        lump_ok::<BspLeaf>(d, dir.leaves, f)
    } else if k == 11 {
        dir.leaf_brushes.0 matches Some(e) ==> lump_ok::<UBspValue>(d, e, f)
    } else if k == 12 {
        lump_ok::<UBspValue>(d, dir.mark_surfaces, f)
    } else if k == 13 {
        lump_ok::<BspEdge>(d, dir.edges, f)
    } else if k == 14 {
        lump_ok::<i32>(d, dir.surf_edges, f)
    } else if k == 15 {
        lump_ok::<BspModel>(d, dir.models, f)
    } else if k == 16 {
        dir.brushes.0 matches Some(e) ==> lump_ok::<BspBrush>(d, e, f)
    } else {
        dir.brush_sides.0 matches Some(e) ==> lump_ok::<BspBrushSide>(d, e, f)
    }
}

/// Whether steps `0..k` all succeed.
pub open spec fn steps_ok(d: Seq<u8>, f: BspFormat, lit: Option<Seq<u8>>, k: int) -> bool {
    forall|j: int| 0 <= j < k ==> #[trigger] step_ok(d, f, lit, j)
}

/// Whether every step of reading a file succeeds.
pub open spec fn all_steps_ok(d: Seq<u8>, f: BspFormat, lit: Option<Seq<u8>>) -> bool {
    &&& step_ok(d, f, lit, 0)
    &&& step_ok(d, f, lit, 1)
    &&& step_ok(d, f, lit, 2)
    &&& step_ok(d, f, lit, 3)
    &&& step_ok(d, f, lit, 4)
    &&& step_ok(d, f, lit, 5)
    &&& step_ok(d, f, lit, 6)
    &&& step_ok(d, f, lit, 7)
    &&& step_ok(d, f, lit, 8)
    &&& step_ok(d, f, lit, 9)
    &&& step_ok(d, f, lit, 10)
    &&& step_ok(d, f, lit, 11)
    &&& step_ok(d, f, lit, 12)
    &&& step_ok(d, f, lit, 13)
    &&& step_ok(d, f, lit, 14)
    &&& step_ok(d, f, lit, 15)
    &&& step_ok(d, f, lit, 16)
    &&& step_ok(d, f, lit, 17)
}

/// Whether each record lump that the reading reaches, and that lies inside
/// the file, holds whole records.
pub open spec fn lumps_fit(d: Seq<u8>, f: BspFormat, lit: Option<Seq<u8>>) -> bool {
    let dir = file_directory(d, f);
    &&& steps_ok(d, f, lit, 1) ==> lump_fits::<BspPlane>(d, dir.planes, f)
    &&& steps_ok(d, f, lit, 3) ==> lump_fits::<[u32; 3]>(d, dir.vertices, f)
    &&& steps_ok(d, f, lit, 5) ==> lump_fits::<BspNode>(d, dir.nodes, f)
    &&& steps_ok(d, f, lit, 6) ==> lump_fits::<BspTexInfo>(d, dir.tex_info, f)
    &&& steps_ok(d, f, lit, 7) ==> lump_fits::<BspFace>(d, dir.faces, f)
    &&& steps_ok(d, f, lit, 9) ==> (dir.clip_nodes.0 matches Some(e) ==> lump_fits::<BspClipNode>(d, e, f))
    &&& steps_ok(d, f, lit, 10) ==> lump_fits::<BspLeaf>(d, dir.leaves, f)
    &&& steps_ok(d, f, lit, 11) ==> (dir.leaf_brushes.0 matches Some(e) ==> lump_fits::<UBspValue>(d, e, f))
    &&& steps_ok(d, f, lit, 12) ==> lump_fits::<UBspValue>(d, dir.mark_surfaces, f)
    &&& steps_ok(d, f, lit, 13) ==> lump_fits::<BspEdge>(d, dir.edges, f)
    &&& steps_ok(d, f, lit, 14) ==> lump_fits::<i32>(d, dir.surf_edges, f)
    &&& steps_ok(d, f, lit, 15) ==> lump_fits::<BspModel>(d, dir.models, f)
    &&& steps_ok(d, f, lit, 16) ==> (dir.brushes.0 matches Some(e) ==> lump_fits::<BspBrush>(d, e, f))
    &&& steps_ok(d, f, lit, 17) ==> (dir.brush_sides.0 matches Some(e) ==> lump_fits::<BspBrushSide>(d, e, f))
}

/// What reading a file asks of it short of an error: once its directory is
/// read, no lump may end past `u32::MAX`, and once its BSPX directory is
/// read, the record lumps reached must hold whole records.
pub open spec fn parse_fits(d: Seq<u8>, lit: Option<Seq<u8>>) -> bool {
    match spec_format(d) {
        Some(f) => header_len(f) + directory_size(f) <= d.len() ==> {
            &&& lumps_end(file_directory(d, f)) <= u32::MAX
            &&& bspx_directory_ok(d, f) ==> lumps_fit(d, f, lit)
        },
        None => true,
    }
}

/// The `.lit` bytes of an input, if any.
pub open spec fn lit_of(input: &BspParseInput) -> Option<Seq<u8>> {
    match input.lit {
        Some(b) => Some(b@),
        None => None,
    }
}

/// Whether the whole file reads: a known format, a directory, and every
/// step.
pub open spec fn file_ok(d: Seq<u8>, lit: Option<Seq<u8>>) -> bool {
    spec_format(d) matches Some(f) && header_len(f) + directory_size(f) <= d.len() && bspx_directory_ok(d, f)
        && all_steps_ok(d, f, lit) && bspx_lumps_ok(d, f)
}

/// Whether `v` is the largest end, `offset + len`, of the entries `s`.
pub open spec fn is_lumps_end(s: Seq<LumpEntry>, v: int) -> bool {
    &&& forall|i: int| 0 <= i < s.len() ==> s[i].offset + s[i].len <= v
    &&& exists|i: int| 0 <= i < s.len() && s[i].offset + s[i].len == v
}

/// Where the last lump of a directory ends.
pub open spec fn lumps_end(dir: LumpDirectory) -> int {
    choose|v: int| is_lumps_end(spec_bsp_entries(dir), v)
}

/// Where a BSPX directory would start: the end of the last lump, rounded up
/// to a multiple of 4.
pub open spec fn bspx_pos(d: Seq<u8>, f: BspFormat) -> int {
    let e = lumps_end(file_directory(d, f));
    (e + 3) / 4 * 4
}

/// Whether a file in format `f` either has no BSPX directory or one that
/// reads.
pub open spec fn bspx_directory_ok(d: Seq<u8>, f: BspFormat) -> bool {
    has_bspx(d, bspx_pos(d, f)) ==> bspx_dir_ok(d, bspx_pos(d, f))
}

/// Whether a file's BSPX lumps, if it has any, all read.
pub open spec fn bspx_lumps_ok(d: Seq<u8>, f: BspFormat) -> bool {
    has_bspx(d, bspx_pos(d, f)) ==> bspx_data_ok(d, bspx_pos(d, f))
}

/// The colored lighting of a file's `RGBLIGHTING` BSPX lump, if it has one.
pub open spec fn file_bspx_rgb(d: Seq<u8>, f: BspFormat) -> Option<Seq<[u8; 3]>> {
    let p = bspx_pos(d, f);
    if has_bspx(d, p) {
        bspx_rgb(d, p, bspx_count(d, p))
    } else {
        None
    }
}

/// The indices of a file's BSPX entries other than `RGBLIGHTING`.
pub open spec fn file_bspx_others(d: Seq<u8>, f: BspFormat) -> Seq<int> {
    let p = bspx_pos(d, f);
    if has_bspx(d, p) {
        bspx_others(d, p, bspx_count(d, p))
    } else {
        Seq::empty()
    }
}

/// Whether `l` is the lighting of a file in format `f`: the `.lit` file's
/// triples when given, else the `LIGHTING` lump unless it is empty.
pub open spec fn lighting_is(d: Seq<u8>, f: BspFormat, lit: Option<Seq<u8>>, l: Option<BspLighting>) -> bool {
    let e = file_directory(d, f).lighting;
    match lit {
        Some(b) => l matches Some(BspLighting::Colored(v)) && v@ == rgb_triples(b.subrange(8, b.len() as int)),
        None => if e.len == 0 {
            l is None
        } else if f is BSP2 || f is BSP29 {
            l matches Some(BspLighting::Grayscale(v)) && v@ == entry_bytes(d, e)
        } else {
            l matches Some(BspLighting::Colored(v)) && v@ == rgb_triples(entry_bytes(d, e))
        },
    }
}

/// Whether `t` holds the textures of the texture lump `e`, if the format has
/// one.
pub open spec fn textures_are(d: Seq<u8>, f: BspFormat, e: Option<LumpEntry>, t: Seq<Option<BspMipTexture>>) -> bool {
    match e {
        Some(e) => {
            let b = entry_bytes(d, e);
            &&& t.len() == le_u32(b, 0)
            &&& forall|i: int| 0 <= i < t.len() ==> mip_lump_entry(b, 0, f, i, #[trigger] t[i])
        },
        None => t.len() == 0,
    }
}

/// Whether `v` holds the records of lump `e` when the format has it, and
/// nothing otherwise.
pub open spec fn optional_records_are<T: LumpRecord>(d: Seq<u8>, f: BspFormat, e: Option<LumpEntry>, v: Seq<T>) -> bool {
    match e {
        Some(e) => records_are::<T>(entry_bytes(d, e), f, v),
        None => v.len() == 0,
    }
}

/// A Quake-family BSP file's contents. Floating-point values are kept as
/// their `f32` bit patterns. The visibility lump is kept as its bytes.
pub struct BspData {
    /// The entity lump: text in Quake's character set.
    pub entities: Vec<u8>,
    pub planes: Vec<BspPlane>,
    pub textures: Vec<Option<BspMipTexture>>,
    /// Every vertex position, as `f32` bit patterns.
    pub vertices: Vec<[u32; 3]>,
    pub visibility: Vec<u8>,
    pub nodes: Vec<BspNode>,
    pub tex_info: Vec<BspTexInfo>,
    pub faces: Vec<BspFace>,
    pub lighting: Option<BspLighting>,
    pub clip_nodes: Vec<BspClipNode>,
    pub leaves: Vec<BspLeaf>,
    /// Quake 2 only: indices into the brushes, pointed to by leaves.
    pub leaf_brushes: Vec<UBspValue>,
    /// Indices into the face list, pointed to by leaves.
    pub mark_surfaces: Vec<UBspValue>,
    pub edges: Vec<BspEdge>,
    pub surface_edges: Vec<i32>,
    pub models: Vec<BspModel>,
    /// Quake 2 only.
    pub brushes: Vec<BspBrush>,
    /// Quake 2 only.
    pub brush_sides: Vec<BspBrushSide>,
    /// The BSPX extension lumps.
    pub bspx: BspxData,
    /// The format the file was read in.
    pub parse_ctx: BspParseContext,
}

impl BspData {
    /// Parse a file, and its `.lit` lighting when given.
    ///
    /// Fails when the file is shorter than its magic number, names no format
    /// this reader takes, has no room for its lump directory, or has a lump
    /// that reaches past its end or does not decode; the `.lit` file, when
    /// given, must parse. The lighting is the `.lit` file's when given, else
    /// the `LIGHTING` lump's unless that is empty; but an `RGBLIGHTING` BSPX
    /// lump comes first when `input.settings.use_bspx_rgb_lighting` is set,
    /// and is then moved out of [`BspData::bspx`].
    #[verifier::spinoff_prover]
    #[verifier::rlimit(80)]
    pub fn parse(input: &BspParseInput) -> (r: Result<BspData, BspParseError>)
        requires
            input.bsp@.len() + 770 <= usize::MAX,
            parse_fits(input.bsp@, lit_of(input)),
        ensures
            ({
                let d = input.bsp@;
                let lit = lit_of(input);
                &&& d.len() < 4 ==> (r matches Err(BspParseError::BufferOutOfBounds { from, to, size }) && from == 0
                    && to == 4 && size == d.len())
                &&& (r is Ok) == file_ok(d, lit)
                &&& r matches Ok(data) ==> {
                    let f = data.parse_ctx.format;
                    let dir = file_directory(d, f);
                    &&& spec_format(d) == Some(f)
                    &&& data.entities@ == entry_bytes(d, dir.entities)
                    &&& records_are::<BspPlane>(entry_bytes(d, dir.planes), f, data.planes@)
                    &&& textures_are(d, f, dir.textures.0, data.textures@)
                    &&& records_are::<[u32; 3]>(entry_bytes(d, dir.vertices), f, data.vertices@)
                    &&& data.visibility@ == entry_bytes(d, dir.visibility)
                    &&& records_are::<BspNode>(entry_bytes(d, dir.nodes), f, data.nodes@)
                    &&& records_are::<BspTexInfo>(entry_bytes(d, dir.tex_info), f, data.tex_info@)
                    &&& records_are::<BspFace>(entry_bytes(d, dir.faces), f, data.faces@)
                    &&& if input.settings.use_bspx_rgb_lighting && file_bspx_rgb(d, f) is Some {
                        data.lighting matches Some(BspLighting::Colored(v)) && file_bspx_rgb(d, f) == Some(v@)
                    } else {
                        lighting_is(d, f, lit, data.lighting)
                    }
                    &&& opt_triples(data.bspx.rgb_lighting) == if input.settings.use_bspx_rgb_lighting {
                        None
                    } else {
                        file_bspx_rgb(d, f)
                    }
                    &&& bspx_lumps_are(d, bspx_pos(d, f), file_bspx_others(d, f), data.bspx.unparsed@)
                    &&& optional_records_are::<BspClipNode>(d, f, dir.clip_nodes.0, data.clip_nodes@)
                    &&& records_are::<BspLeaf>(entry_bytes(d, dir.leaves), f, data.leaves@)
                    &&& optional_records_are::<UBspValue>(d, f, dir.leaf_brushes.0, data.leaf_brushes@)
                    &&& records_are::<UBspValue>(entry_bytes(d, dir.mark_surfaces), f, data.mark_surfaces@)
                    &&& records_are::<BspEdge>(entry_bytes(d, dir.edges), f, data.edges@)
                    &&& records_are::<i32>(entry_bytes(d, dir.surf_edges), f, data.surface_edges@)
                    &&& records_are::<BspModel>(entry_bytes(d, dir.models), f, data.models@)
                    &&& optional_records_are::<BspBrush>(d, f, dir.brushes.0, data.brushes@)
                    &&& optional_records_are::<BspBrushSide>(d, f, dir.brush_sides.0, data.brush_sides@)
                }
            }),
    {
        let bsp = input.bsp;
        let ghost d = bsp@;
        let ghost lit = lit_of(input);
        if bsp.len() < 4 {
            return Err(BspParseError::BufferOutOfBounds { from: 0, to: 4, size: bsp.len() });
        }
        let dummy = BspParseContext { format: BspFormat::default_format() };
        let mut reader = BspByteReader::new(bsp, &dummy);
        let format = BspFormat::parse(&mut reader)?;
        assert(spec_format(d) == Some(format));
        let ctx = BspParseContext { format };
        let ghost f = format;
        let mut reader = reader.with_context(&ctx);
        assert(reader.cursor() == header_len(f));
        let dir = match parse_lump_directory(&mut reader) {
            Ok(dir) => dir,
            Err(e) => {
                return Err(e);
            },
        };
        assert(dir == file_directory(d, f));
        let end = dir.end_of_lumps();
        proof {
            let v = lumps_end(dir);
            assert(is_lumps_end(spec_bsp_entries(dir), end as int));
            assert(is_lumps_end(spec_bsp_entries(dir), v));
            let i = choose|i: int| 0 <= i < spec_bsp_entries(dir).len() && spec_bsp_entries(dir)[i].offset
                + spec_bsp_entries(dir)[i].len == v;
            let j = choose|j: int| 0 <= j < spec_bsp_entries(dir).len() && spec_bsp_entries(dir)[j].offset
                + spec_bsp_entries(dir)[j].len == end;
            assert(v <= end && end <= v);
        }
        let at: u64 = (end + 3) / 4 * 4;
        let bspx_dir = if at <= bsp.len() as u64 {
            read_bspx_directory(bsp, at as usize, &ctx)?
        } else {
            None
        };
        assert(bspx_directory_ok(d, f));
        let entities = copy_lump(bsp, dir.entities)?;
        assert(step_ok(d, f, lit, 0));
        let planes = read_lump::<BspPlane>(bsp, dir.planes, "planes", &ctx)?;
        assert(step_ok(d, f, lit, 1));
        let textures = match dir.textures.0 {
            Some(e) => {
                let b = e.get(bsp)?;
                let mut tr = BspByteReader::new(b, &ctx);
                read_mip_texture_lump(&mut tr).job("Reading texture lump")?
            },
            None => Vec::new(),
        };
        assert(step_ok(d, f, lit, 2));
        assert(steps_ok(d, f, lit, 3));
        let vertices = read_lump::<[u32; 3]>(bsp, dir.vertices, "vertices", &ctx).job("vertices")?;
        assert(step_ok(d, f, lit, 3));
        let visibility = copy_lump(bsp, dir.visibility)?;
        assert(step_ok(d, f, lit, 4));
        assert(steps_ok(d, f, lit, 5));
        let nodes = read_lump::<BspNode>(bsp, dir.nodes, "nodes", &ctx)?;
        assert(step_ok(d, f, lit, 5));
        assert(steps_ok(d, f, lit, 6));
        let tex_info = read_lump::<BspTexInfo>(bsp, dir.tex_info, "texture infos", &ctx)?;
        assert(step_ok(d, f, lit, 6));
        assert(steps_ok(d, f, lit, 7));
        let faces = read_lump::<BspFace>(bsp, dir.faces, "faces", &ctx)?;
        assert(step_ok(d, f, lit, 7));
        let lighting = match input.lit {
            Some(lit_bytes) => Some(BspLighting::Colored(read_lit(lit_bytes, &ctx, false).job("Parsing .lit file")?)),
            None => {
                if !dir.lighting.is_empty() {
                    let b = dir.lighting.get(bsp)?;
                    let mut lr = BspByteReader::new(b, &ctx);
                    assert(b@.subrange(0, b@.len() as int) =~= b@);
                    Some(BspLighting::parse(&mut lr)?)
                } else {
                    None
                }
            },
        };
        assert(step_ok(d, f, lit, 8));
        assert(steps_ok(d, f, lit, 9));
        let clip_nodes = match dir.clip_nodes.0 {
            Some(e) => read_lump::<BspClipNode>(bsp, e, "clip nodes", &ctx)?,
            None => Vec::new(),
        };
        assert(step_ok(d, f, lit, 9));
        assert(steps_ok(d, f, lit, 10));
        let leaves = read_lump::<BspLeaf>(bsp, dir.leaves, "leaves", &ctx)?;
        assert(step_ok(d, f, lit, 10));
        assert(steps_ok(d, f, lit, 11));
        let leaf_brushes = match dir.leaf_brushes.0 {
            Some(e) => read_lump::<UBspValue>(bsp, e, "leaf brushes", &ctx)?,
            None => Vec::new(),
        };
        assert(step_ok(d, f, lit, 11));
        assert(steps_ok(d, f, lit, 12));
        let mark_surfaces = read_lump::<UBspValue>(bsp, dir.mark_surfaces, "mark surfaces", &ctx)?;
        assert(step_ok(d, f, lit, 12));
        assert(steps_ok(d, f, lit, 13));
        let edges = read_lump::<BspEdge>(bsp, dir.edges, "edges", &ctx)?;
        assert(step_ok(d, f, lit, 13));
        assert(steps_ok(d, f, lit, 14));
        let surface_edges = read_lump::<i32>(bsp, dir.surf_edges, "surface edges", &ctx)?;
        assert(step_ok(d, f, lit, 14));
        assert(steps_ok(d, f, lit, 15));
        let models = read_lump::<BspModel>(bsp, dir.models, "models", &ctx)?;
        assert(step_ok(d, f, lit, 15));
        assert(steps_ok(d, f, lit, 16));
        let brushes = match dir.brushes.0 {
            Some(e) => read_lump::<BspBrush>(bsp, e, "brushes", &ctx)?,
            None => Vec::new(),
        };
        assert(step_ok(d, f, lit, 16));
        assert(steps_ok(d, f, lit, 17));
        let brush_sides = match dir.brush_sides.0 {
            Some(e) => read_lump::<BspBrushSide>(bsp, e, "brush sides", &ctx)?,
            None => Vec::new(),
        };
        assert(step_ok(d, f, lit, 17));
        let mut lighting = lighting;
        let bspx = match bspx_dir {
            Some(bd) => {
                let parsed = BspxData::parse(bsp, &bd, &ctx).job("Reading BSPX data")?;
                let BspxData { rgb_lighting, unparsed } = parsed;
                match rgb_lighting {
                    Some(v) if input.settings.use_bspx_rgb_lighting => {
                        lighting = Some(BspLighting::Colored(v));
                        BspxData { rgb_lighting: None, unparsed }
                    },
                    other => BspxData { rgb_lighting: other, unparsed },
                }
            },
            None => BspxData::empty(),
        };
        Ok(
            BspData {
                entities,
                planes,
                textures,
                vertices,
                visibility,
                nodes,
                tex_info,
                faces,
                lighting,
                clip_nodes,
                leaves,
                leaf_brushes,
                mark_surfaces,
                edges,
                surface_edges,
                models,
                brushes,
                brush_sides,
                bspx,
                parse_ctx: ctx,
            },
        )
    }
}

/// A copy of the bytes of lump `e`.
fn copy_lump(data: &[u8], e: LumpEntry) -> (r: Result<Vec<u8>, BspParseError>)
    ensures
        (r is Ok) == inside(data@, e),
        r matches Ok(v) ==> v@ == entry_bytes(data@, e),
        r matches Err(err) ==> err == BspParseError::LumpOutOfBounds(e),
{
    let b = e.get(data)?;
    Ok(copy_range(b, 0, b.len()))
}

/// Edges come out in file order, each with its first vertex first: edge `i`
/// of an edge lump `b` is the two unsigned values at the start of record
/// `i`, 16 bits each in the short formats and 32 bits each in BSP2 and
/// Qbism.
pub proof fn lemma_edges_in_file_order(b: Seq<u8>, f: BspFormat, v: Seq<BspEdge>)
    requires
        records_are::<BspEdge>(b, f, v),
    ensures
        v.len() == (b.len() as int) / (if f is BSP2 || f is BSP38Qbism { 8int } else { 4int }),
        forall|i: int|
            0 <= i < v.len() ==> if f is BSP2 || f is BSP38Qbism {
                (#[trigger] v[i]).a.0 == le_u32(b, 8 * i) && v[i].b.0 == le_u32(b, 8 * i + 4)
            } else {
                (#[trigger] v[i]).a.0 == le_u16(b, 4 * i) as u32 && v[i].b.0 == le_u16(b, 4 * i + 2) as u32
            },
{
    assert forall|i: int| 0 <= i < v.len() implies if f is BSP2 || f is BSP38Qbism {
        (#[trigger] v[i]).a.0 == le_u32(b, 8 * i) && v[i].b.0 == le_u32(b, 8 * i + 4)
    } else {
        (#[trigger] v[i]).a.0 == le_u16(b, 4 * i) as u32 && v[i].b.0 == le_u16(b, 4 * i + 2) as u32
    } by {
        assert(record_is_at::<BspEdge>(b, f, i, v[i]));
        if f is BSP2 || f is BSP38Qbism {
            assert(i * 8 == 8 * i);
        } else {
            assert(i * 4 == 4 * i);
        }
    }
}

/// Planes are 20-byte records in file order: the normal's three `f32` bit
/// patterns, the distance, and a known type stored at 16.
pub proof fn lemma_planes_in_file_order(b: Seq<u8>, f: BspFormat, v: Seq<BspPlane>)
    requires
        records_are::<BspPlane>(b, f, v),
        records_ok::<BspPlane>(b, f),
    ensures
        v.len() == (b.len() as int) / (20int),
        forall|i: int|
            0 <= i < v.len() ==> {
                let r = #[trigger] v[i];
                let o = (20int) * i;
                &&& r.normal == [le_u32(b, o), le_u32(b, o + 4), le_u32(b, o + 8)]
                &&& r.dist == le_u32(b, o + 12)
                &&& BspPlaneType::spec_from_u32(le_u32(b, o + 16)) == Some(r.ty)
            },
{
    assert forall|i: int| 0 <= i < v.len() implies {
        let r = #[trigger] v[i];
        let o = (20int) * i;
        &&& r.normal == [le_u32(b, o), le_u32(b, o + 4), le_u32(b, o + 8)]
        &&& r.dist == le_u32(b, o + 12)
        &&& BspPlaneType::spec_from_u32(le_u32(b, o + 16)) == Some(r.ty)
    } by {
        assert(record_is_at::<BspPlane>(b, f, i, v[i]));
        assert(record_ok_at::<BspPlane>(b, f, i));
        assert(i * (20int) == (20int) * i);
    }
}

/// Vertices are 12-byte records in file order, x, y and z.
pub proof fn lemma_vertices_in_file_order(b: Seq<u8>, f: BspFormat, v: Seq<[u32; 3]>)
    requires
        records_are::<[u32; 3]>(b, f, v),
    ensures
        v.len() == (b.len() as int) / (12int),
        forall|i: int|
            0 <= i < v.len() ==> {
                let r = #[trigger] v[i];
                let o = (12int) * i;
                &&& r == [le_u32(b, o), le_u32(b, o + 4), le_u32(b, o + 8)]
            },
{
    assert forall|i: int| 0 <= i < v.len() implies {
        let r = #[trigger] v[i];
        let o = (12int) * i;
        &&& r == [le_u32(b, o), le_u32(b, o + 4), le_u32(b, o + 8)]
    } by {
        assert(record_is_at::<[u32; 3]>(b, f, i, v[i]));
        assert(i * (12int) == (12int) * i);
    }
}

/// Surface edges are the lump's `i32` values in order.
pub proof fn lemma_surface_edges_in_file_order(b: Seq<u8>, f: BspFormat, v: Seq<i32>)
    requires
        records_are::<i32>(b, f, v),
    ensures
        v.len() == (b.len() as int) / (4int),
        forall|i: int|
            0 <= i < v.len() ==> {
                let r = #[trigger] v[i];
                let o = (4int) * i;
                &&& r == le_i32(b, o)
            },
{
    assert forall|i: int| 0 <= i < v.len() implies {
        let r = #[trigger] v[i];
        let o = (4int) * i;
        &&& r == le_i32(b, o)
    } by {
        assert(record_is_at::<i32>(b, f, i, v[i]));
        assert(i * (4int) == (4int) * i);
    }
}

/// Mark surfaces and leaf brushes are the lump's unsigned values in order:
/// 32 bits in BSP2 and Qbism, 16 bits otherwise.
pub proof fn lemma_indices_in_file_order(b: Seq<u8>, f: BspFormat, v: Seq<UBspValue>)
    requires
        records_are::<UBspValue>(b, f, v),
    ensures
        v.len() == (b.len() as int) / (if f is BSP2 || f is BSP38Qbism { 4int } else { 2int }),
        forall|i: int|
            0 <= i < v.len() ==> {
                let r = #[trigger] v[i];
                let o = (if f is BSP2 || f is BSP38Qbism { 4int } else { 2int }) * i;
                &&& r.0 == if f is BSP2 || f is BSP38Qbism { le_u32(b, o) } else { le_u16(b, o) as u32 }
            },
{
    assert forall|i: int| 0 <= i < v.len() implies {
        let r = #[trigger] v[i];
        let o = (if f is BSP2 || f is BSP38Qbism { 4int } else { 2int }) * i;
        &&& r.0 == if f is BSP2 || f is BSP38Qbism { le_u32(b, o) } else { le_u16(b, o) as u32 }
    } by {
        assert(record_is_at::<UBspValue>(b, f, i, v[i]));
        assert(i * (if f is BSP2 || f is BSP38Qbism { 4int } else { 2int }) == (if f is BSP2 || f is BSP38Qbism { 4int } else { 2int }) * i);
    }
}

/// Faces are records in file order: the plane index first, then the side,
/// a 32-bit first surface edge, the edge count and the texinfo (each
/// variable value 32 bits in BSP2 and Qbism, 16 otherwise), then the four
/// styles and the lighting offset.
pub proof fn lemma_faces_in_file_order(b: Seq<u8>, f: BspFormat, v: Seq<BspFace>)
    requires
        records_are::<BspFace>(b, f, v),
    ensures
        v.len() == (b.len() as int) / (if f is BSP2 || f is BSP38Qbism { 28int } else { 20int }),
        forall|i: int|
            0 <= i < v.len() ==> {
                let r = #[trigger] v[i];
                let o = (if f is BSP2 || f is BSP38Qbism { 28int } else { 20int }) * i;
                &&& r.plane_idx.0 == if f is BSP2 || f is BSP38Qbism { le_u32(b, o) } else { le_u16(b, o) as u32 }
                &&& r.first_edge == le_u32(b, o + if f is BSP2 || f is BSP38Qbism { 8int } else { 4int })
                &&& r.num_edges.0 == if f is BSP2 || f is BSP38Qbism { le_u32(b, o + 12) } else { le_u16(b, o + 8) as u32 }
                &&& r.texture_info_idx.0 == if f is BSP2 || f is BSP38Qbism { le_u32(b, o + 16) } else { le_u16(b, o + 10) as u32 }
                &&& r.lightmap_styles[0].0 == b[o + if f is BSP2 || f is BSP38Qbism { 20int } else { 12int }]
            },
{
    assert forall|i: int| 0 <= i < v.len() implies {
        let r = #[trigger] v[i];
        let o = (if f is BSP2 || f is BSP38Qbism { 28int } else { 20int }) * i;
        &&& r.plane_idx.0 == if f is BSP2 || f is BSP38Qbism { le_u32(b, o) } else { le_u16(b, o) as u32 }
        &&& r.first_edge == le_u32(b, o + if f is BSP2 || f is BSP38Qbism { 8int } else { 4int })
        &&& r.num_edges.0 == if f is BSP2 || f is BSP38Qbism { le_u32(b, o + 12) } else { le_u16(b, o + 8) as u32 }
        &&& r.texture_info_idx.0 == if f is BSP2 || f is BSP38Qbism { le_u32(b, o + 16) } else { le_u16(b, o + 10) as u32 }
        &&& r.lightmap_styles[0].0 == b[o + if f is BSP2 || f is BSP38Qbism { 20int } else { 12int }]
    } by {
        assert(record_is_at::<BspFace>(b, f, i, v[i]));
        assert(i * (if f is BSP2 || f is BSP38Qbism { 28int } else { 20int }) == (if f is BSP2 || f is BSP38Qbism { 28int } else { 20int }) * i);
    }
}

/// Models are records in file order whose last two `u32` values are the
/// first face and the face count; before them come the bounds, the origin
/// and the hulls (and, before Quake 2, the visleaf count).
pub proof fn lemma_models_in_file_order(b: Seq<u8>, f: BspFormat, v: Seq<BspModel>)
    requires
        records_are::<BspModel>(b, f, v),
    ensures
        v.len() == (b.len() as int) / (if f is BSP38 || f is BSP38Qbism { 48int } else { 64int }),
        forall|i: int|
            0 <= i < v.len() ==> {
                let r = #[trigger] v[i];
                let o = (if f is BSP38 || f is BSP38Qbism { 48int } else { 64int }) * i;
                &&& r.first_face == le_u32(b, o + if f is BSP38 || f is BSP38Qbism { 40int } else { 56int })
                &&& r.num_faces == le_u32(b, o + if f is BSP38 || f is BSP38Qbism { 44int } else { 60int })
                &&& r.origin == [le_u32(b, o + 24), le_u32(b, o + 28), le_u32(b, o + 32)]
            },
{
    assert forall|i: int| 0 <= i < v.len() implies {
        let r = #[trigger] v[i];
        let o = (if f is BSP38 || f is BSP38Qbism { 48int } else { 64int }) * i;
        &&& r.first_face == le_u32(b, o + if f is BSP38 || f is BSP38Qbism { 40int } else { 56int })
        &&& r.num_faces == le_u32(b, o + if f is BSP38 || f is BSP38Qbism { 44int } else { 60int })
        &&& r.origin == [le_u32(b, o + 24), le_u32(b, o + 28), le_u32(b, o + 32)]
    } by {
        assert(record_is_at::<BspModel>(b, f, i, v[i]));
        assert(i * (if f is BSP38 || f is BSP38Qbism { 48int } else { 64int }) == (if f is BSP38 || f is BSP38Qbism { 48int } else { 64int }) * i);
    }
}

/// Clip nodes are records in file order: a `u32` plane index, then the
/// front and back references, 16 bits each in BSP29 and BSP30 and 32 bits
/// otherwise.
pub proof fn lemma_clip_nodes_in_file_order(b: Seq<u8>, f: BspFormat, v: Seq<BspClipNode>)
    requires
        records_are::<BspClipNode>(b, f, v),
    ensures
        v.len() == (b.len() as int) / (if f is BSP29 || f is BSP30 { 8int } else { 12int }),
        forall|i: int|
            0 <= i < v.len() ==> {
                let r = #[trigger] v[i];
                let o = (if f is BSP29 || f is BSP30 { 8int } else { 12int }) * i;
                &&& r.plane_idx == le_u32(b, o)
                &&& r.front.0 == spec_node_ref_32(if f is BSP29 || f is BSP30 { le_i16(b, o + 4) as i32 } else { le_i32(b, o + 4) })
                &&& r.back.0 == spec_node_ref_32(if f is BSP29 || f is BSP30 { le_i16(b, o + 6) as i32 } else { le_i32(b, o + 8) })
            },
{
    assert forall|i: int| 0 <= i < v.len() implies {
        let r = #[trigger] v[i];
        let o = (if f is BSP29 || f is BSP30 { 8int } else { 12int }) * i;
        &&& r.plane_idx == le_u32(b, o)
        &&& r.front.0 == spec_node_ref_32(if f is BSP29 || f is BSP30 { le_i16(b, o + 4) as i32 } else { le_i32(b, o + 4) })
        &&& r.back.0 == spec_node_ref_32(if f is BSP29 || f is BSP30 { le_i16(b, o + 6) as i32 } else { le_i32(b, o + 8) })
    } by {
        assert(record_is_at::<BspClipNode>(b, f, i, v[i]));
        assert(i * (if f is BSP29 || f is BSP30 { 8int } else { 12int }) == (if f is BSP29 || f is BSP30 { 8int } else { 12int }) * i);
    }
}

/// Nodes are records in file order: a `u32` plane index, the front and back
/// references (16 bits each in BSP29 and BSP30), the bounds (`u16` corners,
/// or `f32` ones in BSP2 and Qbism), then the first face and the face
/// count.
pub proof fn lemma_nodes_in_file_order(b: Seq<u8>, f: BspFormat, v: Seq<BspNode>)
    requires
        records_are::<BspNode>(b, f, v),
    ensures
        v.len() == (b.len() as int) / (if f is BSP29 || f is BSP30 { 24int } else if f is BSP38 { 28int } else { 44int }),
        forall|i: int|
            0 <= i < v.len() ==> {
                let r = #[trigger] v[i];
                let o = (if f is BSP29 || f is BSP30 { 24int } else if f is BSP38 { 28int } else { 44int }) * i;
                &&& r.plane_idx == le_u32(b, o)
                &&& r.front.0 == spec_node_ref_32(if f is BSP29 || f is BSP30 { le_i16(b, o + 4) as i32 } else { le_i32(b, o + 4) })
                &&& r.back.0 == spec_node_ref_32(if f is BSP29 || f is BSP30 { le_i16(b, o + 6) as i32 } else { le_i32(b, o + 8) })
                &&& r.face_idx.0 == if f is BSP29 || f is BSP30 { le_u16(b, o + 20) as u32 } else if f is BSP38 { le_u16(b, o + 24) as u32 } else { le_u32(b, o + 36) }
                &&& r.face_num.0 == if f is BSP29 || f is BSP30 { le_u16(b, o + 22) as u32 } else if f is BSP38 { le_u16(b, o + 26) as u32 } else { le_u32(b, o + 40) }
            },
{
    assert forall|i: int| 0 <= i < v.len() implies {
        let r = #[trigger] v[i];
        let o = (if f is BSP29 || f is BSP30 { 24int } else if f is BSP38 { 28int } else { 44int }) * i;
        &&& r.plane_idx == le_u32(b, o)
        &&& r.front.0 == spec_node_ref_32(if f is BSP29 || f is BSP30 { le_i16(b, o + 4) as i32 } else { le_i32(b, o + 4) })
        &&& r.back.0 == spec_node_ref_32(if f is BSP29 || f is BSP30 { le_i16(b, o + 6) as i32 } else { le_i32(b, o + 8) })
        &&& r.face_idx.0 == if f is BSP29 || f is BSP30 { le_u16(b, o + 20) as u32 } else if f is BSP38 { le_u16(b, o + 24) as u32 } else { le_u32(b, o + 36) }
        &&& r.face_num.0 == if f is BSP29 || f is BSP30 { le_u16(b, o + 22) as u32 } else if f is BSP38 { le_u16(b, o + 26) as u32 } else { le_u32(b, o + 40) }
    } by {
        assert(record_is_at::<BspNode>(b, f, i, v[i]));
        assert(i * (if f is BSP29 || f is BSP30 { 24int } else if f is BSP38 { 28int } else { 44int }) == (if f is BSP29 || f is BSP30 { 24int } else if f is BSP38 { 28int } else { 44int }) * i);
    }
}

/// Leaves are records in file order: the contents, then the visibility
/// offset (before Quake 2) or cluster (an `i16` in BSP38), and, for Quake 2,
/// the area; the first mark surface and their count follow the bounds.
pub proof fn lemma_leaves_in_file_order(b: Seq<u8>, f: BspFormat, v: Seq<BspLeaf>)
    requires
        records_are::<BspLeaf>(b, f, v),
    ensures
        v.len() == (b.len() as int) / (if f is BSP2 { 44int } else if f is BSP38Qbism { 52int } else { 28int }),
        forall|i: int|
            0 <= i < v.len() ==> {
                let r = #[trigger] v[i];
                let o = (if f is BSP2 { 44int } else if f is BSP38Qbism { 52int } else { 28int }) * i;
                &&& r.visdata == if f is BSP38 { VisDataRef::Cluster(le_i16(b, o + 4) as i32) } else if f is BSP38Qbism { VisDataRef::Cluster(le_i32(b, o + 4)) } else { VisDataRef::Offset(le_i32(b, o + 4)) }
                &&& r.face_idx.0 == if f is BSP2 { le_u32(b, o + 32) } else if f is BSP38Qbism { le_u32(b, o + 36) } else if f is BSP38 { le_u16(b, o + 20) as u32 } else { le_u16(b, o + 20) as u32 }
                &&& r.face_num.0 == if f is BSP2 { le_u32(b, o + 36) } else if f is BSP38Qbism { le_u32(b, o + 40) } else { le_u16(b, o + 22) as u32 }
            },
{
    assert forall|i: int| 0 <= i < v.len() implies {
        let r = #[trigger] v[i];
        let o = (if f is BSP2 { 44int } else if f is BSP38Qbism { 52int } else { 28int }) * i;
        &&& r.visdata == if f is BSP38 { VisDataRef::Cluster(le_i16(b, o + 4) as i32) } else if f is BSP38Qbism { VisDataRef::Cluster(le_i32(b, o + 4)) } else { VisDataRef::Offset(le_i32(b, o + 4)) }
        &&& r.face_idx.0 == if f is BSP2 { le_u32(b, o + 32) } else if f is BSP38Qbism { le_u32(b, o + 36) } else if f is BSP38 { le_u16(b, o + 20) as u32 } else { le_u16(b, o + 20) as u32 }
        &&& r.face_num.0 == if f is BSP2 { le_u32(b, o + 36) } else if f is BSP38Qbism { le_u32(b, o + 40) } else { le_u16(b, o + 22) as u32 }
    } by {
        assert(record_is_at::<BspLeaf>(b, f, i, v[i]));
        assert(i * (if f is BSP2 { 44int } else if f is BSP38Qbism { 52int } else { 28int }) == (if f is BSP2 { 44int } else if f is BSP38Qbism { 52int } else { 28int }) * i);
    }
}

/// Texture infos are records in file order: the U axis and offset, the V
/// axis and offset, then (before Quake 2) the texture index, and the
/// flags.
pub proof fn lemma_texinfos_in_file_order(b: Seq<u8>, f: BspFormat, v: Seq<BspTexInfo>)
    requires
        records_are::<BspTexInfo>(b, f, v),
    ensures
        v.len() == (b.len() as int) / (if f is BSP38 || f is BSP38Qbism { 76int } else { 40int }),
        forall|i: int|
            0 <= i < v.len() ==> {
                let r = #[trigger] v[i];
                let o = (if f is BSP38 || f is BSP38Qbism { 76int } else { 40int }) * i;
                &&& r.projection.u_axis == [le_u32(b, o), le_u32(b, o + 4), le_u32(b, o + 8)]
                &&& r.projection.u_offset == le_u32(b, o + 12)
                &&& r.projection.v_axis == [le_u32(b, o + 16), le_u32(b, o + 20), le_u32(b, o + 24)]
                &&& r.projection.v_offset == le_u32(b, o + 28)
                &&& r.texture_idx.0 == if f is BSP38 || f is BSP38Qbism { None::<u32> } else { Some(le_u32(b, o + 32)) }
            },
{
    assert forall|i: int| 0 <= i < v.len() implies {
        let r = #[trigger] v[i];
        let o = (if f is BSP38 || f is BSP38Qbism { 76int } else { 40int }) * i;
        &&& r.projection.u_axis == [le_u32(b, o), le_u32(b, o + 4), le_u32(b, o + 8)]
        &&& r.projection.u_offset == le_u32(b, o + 12)
        &&& r.projection.v_axis == [le_u32(b, o + 16), le_u32(b, o + 20), le_u32(b, o + 24)]
        &&& r.projection.v_offset == le_u32(b, o + 28)
        &&& r.texture_idx.0 == if f is BSP38 || f is BSP38Qbism { None::<u32> } else { Some(le_u32(b, o + 32)) }
    } by {
        assert(record_is_at::<BspTexInfo>(b, f, i, v[i]));
        assert(i * (if f is BSP38 || f is BSP38Qbism { 76int } else { 40int }) == (if f is BSP38 || f is BSP38Qbism { 76int } else { 40int }) * i);
    }
}

/// Brushes are 12-byte records in file order: first side, side count,
/// contents.
pub proof fn lemma_brushes_in_file_order(b: Seq<u8>, f: BspFormat, v: Seq<BspBrush>)
    requires
        records_are::<BspBrush>(b, f, v),
    ensures
        v.len() == (b.len() as int) / (12int),
        forall|i: int|
            0 <= i < v.len() ==> {
                let r = #[trigger] v[i];
                let o = (12int) * i;
                &&& r.first_side == le_i32(b, o)
                &&& r.num_sides == le_i32(b, o + 4)
                &&& r.contents == le_i32(b, o + 8)
            },
{
    assert forall|i: int| 0 <= i < v.len() implies {
        let r = #[trigger] v[i];
        let o = (12int) * i;
        &&& r.first_side == le_i32(b, o)
        &&& r.num_sides == le_i32(b, o + 4)
        &&& r.contents == le_i32(b, o + 8)
    } by {
        assert(record_is_at::<BspBrush>(b, f, i, v[i]));
        assert(i * (12int) == (12int) * i);
    }
}

} // verus!
