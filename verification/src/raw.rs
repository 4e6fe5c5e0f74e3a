//! The on-disk Source BSP structures and their little-endian decoding.
//!
//! Every struct here matches its counterpart in `public/bspfile.h` field for
//! field, padding included, so a lump is an exact number of records. Floating
//! point fields are kept as their raw IEEE-754 bits: interpreting them is the
//! renderer's business, not the reader's.

use vstd::prelude::*;

use crate::le::{le_i16, le_i32, le_i8, le_u16, le_u32, le_u8, read_i16, read_i32, read_i8, read_u16, read_u32, read_u8};

verus! {

/// A fixed-size on-disk record.
pub trait Record: Sized {
    /// Size of one record in bytes.
    spec fn spec_size() -> nat;

    /// The record whose bytes start at `at` in `s`.
    spec fn spec_read(s: Seq<u8>, at: int) -> Self;

    fn size() -> (r: usize)
        ensures
            r == Self::spec_size(),
            r > 0,
    ;

    /// Decode the record starting at byte `at`.
    fn read(bytes: &[u8], at: usize) -> (r: Self)
        requires
            at + Self::spec_size() <= bytes@.len(),
        ensures
            r == Self::spec_read(bytes@, at as int),
    ;
}

/// The records of a lump body, in order.
pub open spec fn spec_records<T: Record>(s: Seq<u8>) -> Seq<T> {
    Seq::new(s.len() / T::spec_size(), |i: int| T::spec_read(s, i * T::spec_size()))
}

/// Decode a lump body as a sequence of records. Fails with the number of
/// leftover bytes if the length is not a whole number of records.
pub fn read_records<T: Record>(bytes: &[u8]) -> (r: Result<Vec<T>, usize>)
    ensures
        match r {
            Ok(v) => bytes@.len() % T::spec_size() == 0 && v@ == spec_records::<T>(bytes@),
            Err(rem) => rem == bytes@.len() % T::spec_size() && rem != 0,
        },
{
    let stride = T::size();
    let rem = bytes.len() % stride;
    if rem != 0 {
        return Err(rem);
    }
    let count = bytes.len() / stride;
    let mut out: Vec<T> = Vec::with_capacity(count);
    let mut i: usize = 0;
    while i < count
        invariant
            stride == T::spec_size(),
            stride > 0,
            bytes@.len() <= usize::MAX,
            count == bytes@.len() / (stride as nat),
            bytes@.len() % (stride as nat) == 0,
            i <= count,
            out@.len() == i,
            forall|j: int| 0 <= j < i ==> #[trigger] out@[j] == T::spec_read(bytes@, j * stride),
        decreases count - i,
    {
        proof {
            assert((i + 1) * stride <= count * stride) by (nonlinear_arith)
                requires i + 1 <= count;
            assert(count * stride == bytes@.len()) by (nonlinear_arith)
                requires count == bytes@.len() / (stride as nat), bytes@.len() % (stride as nat) == 0, stride > 0;
            assert((i + 1) * stride == i * stride + stride) by (nonlinear_arith);
        }
        let rec = T::read(bytes, i * stride);
        out.push(rec);
        i = i + 1;
    }
    assert(out@ =~= spec_records::<T>(bytes@));
    Ok(out)
}

impl Record for u16 {
    open spec fn spec_size() -> nat {
        2
    }

    open spec fn spec_read(s: Seq<u8>, at: int) -> Self {
        le_u16(s, at)
    }

    fn size() -> (r: usize) {
        2
    }

    fn read(bytes: &[u8], at: usize) -> (r: Self) {
        read_u16(bytes, at)
    }
}

impl Record for i32 {
    open spec fn spec_size() -> nat {
        4
    }

    open spec fn spec_read(s: Seq<u8>, at: int) -> Self {
        le_i32(s, at)
    }

    fn size() -> (r: usize) {
        4
    }

    fn read(bytes: &[u8], at: usize) -> (r: Self) {
        read_i32(bytes, at)
    }
}

/// Number of entries in the lump directory.
pub const HEADER_LUMPS: usize = 64;

/// Size of `dheader_t` in bytes.
pub const HEADER_SIZE: usize = 1036;

/// `lump_t`: one entry of the 64-slot lump directory.
#[derive(Clone, Copy, Debug, PartialEq, Eq)]
pub struct Lump {
    pub fileofs: i32,
    pub filelen: i32,
    /// Lump format version. `LEAFS` in particular changes layout with this.
    pub version: i32,
    /// Non-zero means the lump body is LZMA-compressed and this is the
    /// inflated length.
    pub uncompressed_size: i32,
}

impl Record for Lump {
    open spec fn spec_size() -> nat {
        16
    }

    open spec fn spec_read(s: Seq<u8>, at: int) -> Self {
        Lump {
            fileofs: le_i32(s, at),
            filelen: le_i32(s, at + 4),
            version: le_i32(s, at + 8),
            uncompressed_size: le_i32(s, at + 12),
        }
    }

    fn size() -> (r: usize) {
        16
    }

    fn read(bytes: &[u8], at: usize) -> (r: Self) {
        let _len = bytes.len();
        Lump {
            fileofs: read_i32(bytes, at),
            filelen: read_i32(bytes, at + 4),
            version: read_i32(bytes, at + 8),
            uncompressed_size: read_i32(bytes, at + 12),
        }
    }
}

/// `dplane_t`. The normal and distance are kept as raw `f32` bits.
#[derive(Clone, Copy, Debug, PartialEq, Eq)]
pub struct DPlane {
    pub normal_bits: [u32; 3],
    pub dist_bits: u32,
    /// `PLANE_X`..`PLANE_ANYZ`.
    pub kind: i32,
}

impl Record for DPlane {
    open spec fn spec_size() -> nat {
        20
    }

    open spec fn spec_read(s: Seq<u8>, at: int) -> Self {
        DPlane {
            normal_bits: [le_u32(s, at), le_u32(s, at + 4), le_u32(s, at + 8)],
            dist_bits: le_u32(s, at + 12),
            kind: le_i32(s, at + 16),
        }
    }

    fn size() -> (r: usize) {
        20
    }

    fn read(bytes: &[u8], at: usize) -> (r: Self) {
        let _len = bytes.len();
        DPlane {
            normal_bits: [read_u32(bytes, at), read_u32(bytes, at + 4), read_u32(bytes, at + 8)],
            dist_bits: read_u32(bytes, at + 12),
            kind: read_i32(bytes, at + 16),
        }
    }
}

/// `dvertex_t`: one world position, as raw `f32` bits.
#[derive(Clone, Copy, Debug, PartialEq, Eq)]
pub struct DVertex {
    pub point_bits: [u32; 3],
}

impl Record for DVertex {
    open spec fn spec_size() -> nat {
        12
    }

    open spec fn spec_read(s: Seq<u8>, at: int) -> Self {
        DVertex { point_bits: [le_u32(s, at), le_u32(s, at + 4), le_u32(s, at + 8)] }
    }

    fn size() -> (r: usize) {
        12
    }

    fn read(bytes: &[u8], at: usize) -> (r: Self) {
        let _len = bytes.len();
        DVertex { point_bits: [read_u32(bytes, at), read_u32(bytes, at + 4), read_u32(bytes, at + 8)] }
    }
}

/// `CDispVert`: the offset direction, distance and blend alpha of one
/// displacement vertex, as raw `f32` bits.
#[derive(Clone, Copy, Debug, PartialEq, Eq)]
pub struct DispVert {
    pub vector_bits: [u32; 3],
    pub dist_bits: u32,
    pub alpha_bits: u32,
}

impl Record for DispVert {
    open spec fn spec_size() -> nat {
        20
    }

    open spec fn spec_read(s: Seq<u8>, at: int) -> Self {
        DispVert {
            vector_bits: [le_u32(s, at), le_u32(s, at + 4), le_u32(s, at + 8)],
            dist_bits: le_u32(s, at + 12),
            alpha_bits: le_u32(s, at + 16),
        }
    }

    fn size() -> (r: usize) {
        20
    }

    fn read(bytes: &[u8], at: usize) -> (r: Self) {
        let _len = bytes.len();
        DispVert {
            vector_bits: [read_u32(bytes, at), read_u32(bytes, at + 4), read_u32(bytes, at + 8)],
            dist_bits: read_u32(bytes, at + 12),
            alpha_bits: read_u32(bytes, at + 16),
        }
    }
}

/// `dedge_t`. Edge 0 is never used: negative surfedges encode reversal.
#[derive(Clone, Copy, Debug, PartialEq, Eq)]
pub struct DEdge {
    pub v: [u16; 2],
}

impl Record for DEdge {
    open spec fn spec_size() -> nat {
        4
    }

    open spec fn spec_read(s: Seq<u8>, at: int) -> Self {
        DEdge {
            v: [le_u16(s, at), le_u16(s, at + 2)],
        }
    }

    fn size() -> (r: usize) {
        4
    }

    fn read(bytes: &[u8], at: usize) -> (r: Self) {
        let _len = bytes.len();
        DEdge {
            v: [read_u16(bytes, at), read_u16(bytes, at + 2)],
        }
    }
}

/// `dnode_t`.
#[derive(Clone, Copy, Debug, PartialEq, Eq)]
pub struct DNode {
    pub planenum: i32,
    /// Negative values are `-(leaf + 1)`, not node indices.
    pub children: [i32; 2],
    pub mins: [i16; 3],
    pub maxs: [i16; 3],
    pub firstface: u16,
    pub numfaces: u16,
    /// Area index if every leaf below shares one, else -1.
    pub area: i16,
    pub _pad: i16,
}

impl Record for DNode {
    open spec fn spec_size() -> nat {
        32
    }

    open spec fn spec_read(s: Seq<u8>, at: int) -> Self {
        DNode {
            planenum: le_i32(s, at),
            children: [le_i32(s, at + 4), le_i32(s, at + 8)],
            mins: [le_i16(s, at + 12), le_i16(s, at + 14), le_i16(s, at + 16)],
            maxs: [le_i16(s, at + 18), le_i16(s, at + 20), le_i16(s, at + 22)],
            firstface: le_u16(s, at + 24),
            numfaces: le_u16(s, at + 26),
            area: le_i16(s, at + 28),
            _pad: le_i16(s, at + 30),
        }
    }

    fn size() -> (r: usize) {
        32
    }

    fn read(bytes: &[u8], at: usize) -> (r: Self) {
        let _len = bytes.len();
        DNode {
            planenum: read_i32(bytes, at),
            children: [read_i32(bytes, at + 4), read_i32(bytes, at + 8)],
            mins: [read_i16(bytes, at + 12), read_i16(bytes, at + 14), read_i16(bytes, at + 16)],
            maxs: [read_i16(bytes, at + 18), read_i16(bytes, at + 20), read_i16(bytes, at + 22)],
            firstface: read_u16(bytes, at + 24),
            numfaces: read_u16(bytes, at + 26),
            area: read_i16(bytes, at + 28),
            _pad: read_i16(bytes, at + 30),
        }
    }
}

/// `dleaf_t`, lump version 1: the layout every TF2 map uses.
///
/// Version 0 is 56 bytes because it carries an inline `CompressedLightCube`;
/// see [`DLeafV0`].
#[derive(Clone, Copy, Debug, PartialEq, Eq)]
pub struct DLeaf {
    pub contents: i32,
    pub cluster: i16,
    /// Bitfield: `area:9`, `flags:7`. Use [`DLeaf::area`] / [`DLeaf::flags`].
    pub area_flags: u16,
    pub mins: [i16; 3],
    pub maxs: [i16; 3],
    pub firstleafface: u16,
    pub numleaffaces: u16,
    pub firstleafbrush: u16,
    pub numleafbrushes: u16,
    /// -1 when the leaf is not in water.
    pub leaf_water_data_id: i16,
    pub _pad: i16,
}

impl Record for DLeaf {
    open spec fn spec_size() -> nat {
        32
    }

    open spec fn spec_read(s: Seq<u8>, at: int) -> Self {
        DLeaf {
            contents: le_i32(s, at),
            cluster: le_i16(s, at + 4),
            area_flags: le_u16(s, at + 6),
            mins: [le_i16(s, at + 8), le_i16(s, at + 10), le_i16(s, at + 12)],
            maxs: [le_i16(s, at + 14), le_i16(s, at + 16), le_i16(s, at + 18)],
            firstleafface: le_u16(s, at + 20),
            numleaffaces: le_u16(s, at + 22),
            firstleafbrush: le_u16(s, at + 24),
            numleafbrushes: le_u16(s, at + 26),
            leaf_water_data_id: le_i16(s, at + 28),
            _pad: le_i16(s, at + 30),
        }
    }

    fn size() -> (r: usize) {
        32
    }

    fn read(bytes: &[u8], at: usize) -> (r: Self) {
        let _len = bytes.len();
        DLeaf {
            contents: read_i32(bytes, at),
            cluster: read_i16(bytes, at + 4),
            area_flags: read_u16(bytes, at + 6),
            mins: [read_i16(bytes, at + 8), read_i16(bytes, at + 10), read_i16(bytes, at + 12)],
            maxs: [read_i16(bytes, at + 14), read_i16(bytes, at + 16), read_i16(bytes, at + 18)],
            firstleafface: read_u16(bytes, at + 20),
            numleaffaces: read_u16(bytes, at + 22),
            firstleafbrush: read_u16(bytes, at + 24),
            numleafbrushes: read_u16(bytes, at + 26),
            leaf_water_data_id: read_i16(bytes, at + 28),
            _pad: read_i16(bytes, at + 30),
        }
    }
}

/// `dleaf_t` at lump version 0: [`DLeaf`]'s fields plus an inline 24-byte
/// `CompressedLightCube`.
///
/// The light cube follows `leafWaterDataID` immediately, at byte 30, because
/// `ColorRGBExp32` has alignment 1; the two pad bytes land at the end.
#[derive(Clone, Copy, Debug, PartialEq, Eq)]
pub struct DLeafV0 {
    pub contents: i32,
    pub cluster: i16,
    /// Bitfield: `area:9`, `flags:7`. Use [`DLeafV0::area`] / [`DLeafV0::flags`].
    pub area_flags: u16,
    pub mins: [i16; 3],
    pub maxs: [i16; 3],
    pub firstleafface: u16,
    pub numleaffaces: u16,
    pub firstleafbrush: u16,
    pub numleafbrushes: u16,
    /// -1 when the leaf is not in water.
    pub leaf_water_data_id: i16,
    /// `CompressedLightCube`: six samples, one per axis direction. Starts at
    /// byte 30.
    pub ambient_lighting: [ColorRgbExp32; 6],
    /// Trailing padding to the struct's 4-byte alignment.
    pub _pad: [u8; 2],
}

impl Record for DLeafV0 {
    open spec fn spec_size() -> nat {
        56
    }

    open spec fn spec_read(s: Seq<u8>, at: int) -> Self {
        DLeafV0 {
            contents: le_i32(s, at),
            cluster: le_i16(s, at + 4),
            area_flags: le_u16(s, at + 6),
            mins: [le_i16(s, at + 8), le_i16(s, at + 10), le_i16(s, at + 12)],
            maxs: [le_i16(s, at + 14), le_i16(s, at + 16), le_i16(s, at + 18)],
            firstleafface: le_u16(s, at + 20),
            numleaffaces: le_u16(s, at + 22),
            firstleafbrush: le_u16(s, at + 24),
            numleafbrushes: le_u16(s, at + 26),
            leaf_water_data_id: le_i16(s, at + 28),
            ambient_lighting: [ColorRgbExp32::spec_read(s, at + 30), ColorRgbExp32::spec_read(s, at + 34), ColorRgbExp32::spec_read(s, at + 38), ColorRgbExp32::spec_read(s, at + 42), ColorRgbExp32::spec_read(s, at + 46), ColorRgbExp32::spec_read(s, at + 50)],
            _pad: [le_u8(s, at + 54), le_u8(s, at + 55)],
        }
    }

    fn size() -> (r: usize) {
        56
    }

    fn read(bytes: &[u8], at: usize) -> (r: Self) {
        let _len = bytes.len();
        DLeafV0 {
            contents: read_i32(bytes, at),
            cluster: read_i16(bytes, at + 4),
            area_flags: read_u16(bytes, at + 6),
            mins: [read_i16(bytes, at + 8), read_i16(bytes, at + 10), read_i16(bytes, at + 12)],
            maxs: [read_i16(bytes, at + 14), read_i16(bytes, at + 16), read_i16(bytes, at + 18)],
            firstleafface: read_u16(bytes, at + 20),
            numleaffaces: read_u16(bytes, at + 22),
            firstleafbrush: read_u16(bytes, at + 24),
            numleafbrushes: read_u16(bytes, at + 26),
            leaf_water_data_id: read_i16(bytes, at + 28),
            ambient_lighting: [ColorRgbExp32::read(bytes, at + 30), ColorRgbExp32::read(bytes, at + 34), ColorRgbExp32::read(bytes, at + 38), ColorRgbExp32::read(bytes, at + 42), ColorRgbExp32::read(bytes, at + 46), ColorRgbExp32::read(bytes, at + 50)],
            _pad: [read_u8(bytes, at + 54), read_u8(bytes, at + 55)],
        }
    }
}

/// `dbrushside_t`.
#[derive(Clone, Copy, Debug, PartialEq, Eq)]
pub struct DBrushSide {
    pub planenum: u16,
    pub texinfo: i16,
    pub dispinfo: i16,
    pub bevel: i16,
}

impl Record for DBrushSide {
    open spec fn spec_size() -> nat {
        8
    }

    open spec fn spec_read(s: Seq<u8>, at: int) -> Self {
        DBrushSide {
            planenum: le_u16(s, at),
            texinfo: le_i16(s, at + 2),
            dispinfo: le_i16(s, at + 4),
            bevel: le_i16(s, at + 6),
        }
    }

    fn size() -> (r: usize) {
        8
    }

    fn read(bytes: &[u8], at: usize) -> (r: Self) {
        let _len = bytes.len();
        DBrushSide {
            planenum: read_u16(bytes, at),
            texinfo: read_i16(bytes, at + 2),
            dispinfo: read_i16(bytes, at + 4),
            bevel: read_i16(bytes, at + 6),
        }
    }
}

/// `dbrush_t`.
#[derive(Clone, Copy, Debug, PartialEq, Eq)]
pub struct DBrush {
    pub firstside: i32,
    pub numsides: i32,
    /// `CONTENTS_*` flags, see [`crate::flags`].
    pub contents: i32,
}

impl Record for DBrush {
    open spec fn spec_size() -> nat {
        12
    }

    open spec fn spec_read(s: Seq<u8>, at: int) -> Self {
        DBrush {
            firstside: le_i32(s, at),
            numsides: le_i32(s, at + 4),
            contents: le_i32(s, at + 8),
        }
    }

    fn size() -> (r: usize) {
        12
    }

    fn read(bytes: &[u8], at: usize) -> (r: Self) {
        let _len = bytes.len();
        DBrush {
            firstside: read_i32(bytes, at),
            numsides: read_i32(bytes, at + 4),
            contents: read_i32(bytes, at + 8),
        }
    }
}

/// `CDispSubNeighbor`.
#[derive(Clone, Copy, Debug, PartialEq, Eq)]
pub struct DispSubNeighbor {
    /// Index into DISPINFO, or `0xFFFF` for no neighbour.
    pub neighbor: u16,
    pub neighbor_orientation: u8,
    pub span: u8,
    pub neighbor_span: u8,
    pub _pad: u8,
}

impl Record for DispSubNeighbor {
    open spec fn spec_size() -> nat {
        6
    }

    open spec fn spec_read(s: Seq<u8>, at: int) -> Self {
        DispSubNeighbor {
            neighbor: le_u16(s, at),
            neighbor_orientation: le_u8(s, at + 2),
            span: le_u8(s, at + 3),
            neighbor_span: le_u8(s, at + 4),
            _pad: le_u8(s, at + 5),
        }
    }

    fn size() -> (r: usize) {
        6
    }

    fn read(bytes: &[u8], at: usize) -> (r: Self) {
        let _len = bytes.len();
        DispSubNeighbor {
            neighbor: read_u16(bytes, at),
            neighbor_orientation: read_u8(bytes, at + 2),
            span: read_u8(bytes, at + 3),
            neighbor_span: read_u8(bytes, at + 4),
            _pad: read_u8(bytes, at + 5),
        }
    }
}

/// `CDispNeighbor`: one displacement edge, up to two neighbours.
#[derive(Clone, Copy, Debug, PartialEq, Eq)]
pub struct DispNeighbor {
    pub sub_neighbors: [DispSubNeighbor; 2],
}

impl Record for DispNeighbor {
    open spec fn spec_size() -> nat {
        12
    }

    open spec fn spec_read(s: Seq<u8>, at: int) -> Self {
        DispNeighbor {
            sub_neighbors: [DispSubNeighbor::spec_read(s, at), DispSubNeighbor::spec_read(s, at + 6)],
        }
    }

    fn size() -> (r: usize) {
        12
    }

    fn read(bytes: &[u8], at: usize) -> (r: Self) {
        let _len = bytes.len();
        DispNeighbor {
            sub_neighbors: [DispSubNeighbor::read(bytes, at), DispSubNeighbor::read(bytes, at + 6)],
        }
    }
}

/// `CDispCornerNeighbors`.
#[derive(Clone, Copy, Debug, PartialEq, Eq)]
pub struct DispCornerNeighbors {
    pub neighbors: [u16; 4],
    pub num_neighbors: u8,
    pub _pad: u8,
}

impl Record for DispCornerNeighbors {
    open spec fn spec_size() -> nat {
        10
    }

    open spec fn spec_read(s: Seq<u8>, at: int) -> Self {
        DispCornerNeighbors {
            neighbors: [le_u16(s, at), le_u16(s, at + 2), le_u16(s, at + 4), le_u16(s, at + 6)],
            num_neighbors: le_u8(s, at + 8),
            _pad: le_u8(s, at + 9),
        }
    }

    fn size() -> (r: usize) {
        10
    }

    fn read(bytes: &[u8], at: usize) -> (r: Self) {
        let _len = bytes.len();
        DispCornerNeighbors {
            neighbors: [read_u16(bytes, at), read_u16(bytes, at + 2), read_u16(bytes, at + 4), read_u16(bytes, at + 6)],
            num_neighbors: read_u8(bytes, at + 8),
            _pad: read_u8(bytes, at + 9),
        }
    }
}

/// `CDispTri`: `DISPTRI_*` tag bits per displacement triangle.
#[derive(Clone, Copy, Debug, PartialEq, Eq)]
pub struct DispTri {
    pub tags: u16,
}

impl Record for DispTri {
    open spec fn spec_size() -> nat {
        2
    }

    open spec fn spec_read(s: Seq<u8>, at: int) -> Self {
        DispTri {
            tags: le_u16(s, at),
        }
    }

    fn size() -> (r: usize) {
        2
    }

    fn read(bytes: &[u8], at: usize) -> (r: Self) {
        let _len = bytes.len();
        DispTri {
            tags: read_u16(bytes, at),
        }
    }
}

/// `ColorRGBExp32`: one lightmap luxel. The RGB bytes are linear, scaled by
/// `2^exponent`.
#[derive(Clone, Copy, Debug, PartialEq, Eq)]
pub struct ColorRgbExp32 {
    pub r: u8,
    pub g: u8,
    pub b: u8,
    pub exponent: i8,
}

impl Record for ColorRgbExp32 {
    open spec fn spec_size() -> nat {
        4
    }

    open spec fn spec_read(s: Seq<u8>, at: int) -> Self {
        ColorRgbExp32 {
            r: le_u8(s, at),
            g: le_u8(s, at + 1),
            b: le_u8(s, at + 2),
            exponent: le_i8(s, at + 3),
        }
    }

    fn size() -> (r: usize) {
        4
    }

    fn read(bytes: &[u8], at: usize) -> (r: Self) {
        let _len = bytes.len();
        ColorRgbExp32 {
            r: read_u8(bytes, at),
            g: read_u8(bytes, at + 1),
            b: read_u8(bytes, at + 2),
            exponent: read_i8(bytes, at + 3),
        }
    }
}

/// `dcubemapsample_t`.
#[derive(Clone, Copy, Debug, PartialEq, Eq)]
pub struct DCubemapSample {
    pub origin: [i32; 3],
    pub size: u8,
    pub _pad: [u8; 3],
}

impl Record for DCubemapSample {
    open spec fn spec_size() -> nat {
        16
    }

    open spec fn spec_read(s: Seq<u8>, at: int) -> Self {
        DCubemapSample {
            origin: [le_i32(s, at), le_i32(s, at + 4), le_i32(s, at + 8)],
            size: le_u8(s, at + 12),
            _pad: [le_u8(s, at + 13), le_u8(s, at + 14), le_u8(s, at + 15)],
        }
    }

    fn size() -> (r: usize) {
        16
    }

    fn read(bytes: &[u8], at: usize) -> (r: Self) {
        let _len = bytes.len();
        DCubemapSample {
            origin: [read_i32(bytes, at), read_i32(bytes, at + 4), read_i32(bytes, at + 8)],
            size: read_u8(bytes, at + 12),
            _pad: [read_u8(bytes, at + 13), read_u8(bytes, at + 14), read_u8(bytes, at + 15)],
        }
    }
}

/// `dgamelump_t`. The GAME_LUMP body is an `i32` count followed by these.
#[derive(Clone, Copy, Debug, PartialEq, Eq)]
pub struct DGameLump {
    /// Four-CC, e.g. `sprp` for static props.
    pub id: i32,
    /// `GAMELUMPFLAG_COMPRESSED` is bit 0.
    pub flags: u16,
    pub version: u16,
    pub fileofs: i32,
    pub filelen: i32,
}

impl Record for DGameLump {
    open spec fn spec_size() -> nat {
        16
    }

    open spec fn spec_read(s: Seq<u8>, at: int) -> Self {
        DGameLump {
            id: le_i32(s, at),
            flags: le_u16(s, at + 4),
            version: le_u16(s, at + 6),
            fileofs: le_i32(s, at + 8),
            filelen: le_i32(s, at + 12),
        }
    }

    fn size() -> (r: usize) {
        16
    }

    fn read(bytes: &[u8], at: usize) -> (r: Self) {
        let _len = bytes.len();
        DGameLump {
            id: read_i32(bytes, at),
            flags: read_u16(bytes, at + 4),
            version: read_u16(bytes, at + 6),
            fileofs: read_i32(bytes, at + 8),
            filelen: read_i32(bytes, at + 12),
        }
    }
}

/// `dface_t`. `area_bits` holds the raw IEEE-754 bits of the face's `f32`
/// area.
#[derive(Clone, Copy, Debug, PartialEq, Eq)]
pub struct DFace {
    pub planenum: u16,
    /// Non-zero when the face points opposite its plane's normal.
    pub side: u8,
    pub on_node: u8,
    /// Index into SURFEDGES, not EDGES.
    pub firstedge: i32,
    pub numedges: i16,
    /// Index into TEXINFO, or -1.
    pub texinfo: i16,
    /// Index into DISPINFO, or -1 for an ordinary brush face.
    pub dispinfo: i16,
    pub surface_fog_volume_id: i16,
    /// Light styles; `styles[0] == 255` means the face has no lightmap.
    pub styles: [u8; 4],
    /// Byte offset into the LIGHTING lump, or -1.
    pub lightofs: i32,
    pub area_bits: u32,
    pub lightmap_texture_mins_in_luxels: [i32; 2],
    /// Luxel extent; the sample grid is this plus one on each axis.
    pub lightmap_texture_size_in_luxels: [i32; 2],
    pub orig_face: i32,
    /// Top bit is a "dynamic shadows disabled" flag; use [`DFace::num_prims`].
    pub num_prims: u16,
    pub first_prim_id: u16,
    pub smoothing_groups: u32,
}

impl Record for DFace {
    open spec fn spec_size() -> nat {
        56
    }

    open spec fn spec_read(s: Seq<u8>, at: int) -> Self {
        DFace {
            planenum: le_u16(s, at),
            side: le_u8(s, at + 2),
            on_node: le_u8(s, at + 3),
            firstedge: le_i32(s, at + 4),
            numedges: le_i16(s, at + 8),
            texinfo: le_i16(s, at + 10),
            dispinfo: le_i16(s, at + 12),
            surface_fog_volume_id: le_i16(s, at + 14),
            styles: [le_u8(s, at + 16), le_u8(s, at + 17), le_u8(s, at + 18), le_u8(s, at + 19)],
            lightofs: le_i32(s, at + 20),
            area_bits: le_u32(s, at + 24),
            lightmap_texture_mins_in_luxels: [le_i32(s, at + 28), le_i32(s, at + 32)],
            lightmap_texture_size_in_luxels: [le_i32(s, at + 36), le_i32(s, at + 40)],
            orig_face: le_i32(s, at + 44),
            num_prims: le_u16(s, at + 48),
            first_prim_id: le_u16(s, at + 50),
            smoothing_groups: le_u32(s, at + 52),
        }
    }

    fn size() -> (r: usize) {
        56
    }

    fn read(bytes: &[u8], at: usize) -> (r: Self) {
        let _len = bytes.len();
        DFace {
            planenum: read_u16(bytes, at),
            side: read_u8(bytes, at + 2),
            on_node: read_u8(bytes, at + 3),
            firstedge: read_i32(bytes, at + 4),
            numedges: read_i16(bytes, at + 8),
            texinfo: read_i16(bytes, at + 10),
            dispinfo: read_i16(bytes, at + 12),
            surface_fog_volume_id: read_i16(bytes, at + 14),
            styles: [read_u8(bytes, at + 16), read_u8(bytes, at + 17), read_u8(bytes, at + 18), read_u8(bytes, at + 19)],
            lightofs: read_i32(bytes, at + 20),
            area_bits: read_u32(bytes, at + 24),
            lightmap_texture_mins_in_luxels: [read_i32(bytes, at + 28), read_i32(bytes, at + 32)],
            lightmap_texture_size_in_luxels: [read_i32(bytes, at + 36), read_i32(bytes, at + 40)],
            orig_face: read_i32(bytes, at + 44),
            num_prims: read_u16(bytes, at + 48),
            first_prim_id: read_u16(bytes, at + 50),
            smoothing_groups: read_u32(bytes, at + 52),
        }
    }
}

/// `texinfo_t`. The texture and lightmap axes are kept as the raw IEEE-754
/// bits of their `f32` components, `[s|t][x y z offset]`.
#[derive(Clone, Copy, Debug, PartialEq, Eq)]
pub struct TexInfo {
    pub texture_vecs_bits: [[u32; 4]; 2],
    pub lightmap_vecs_bits: [[u32; 4]; 2],
    /// `SURF_*` flags, see [`crate::flags`].
    pub flags: i32,
    /// Index into the TEXDATA lump.
    pub texdata: i32,
}

impl Record for TexInfo {
    open spec fn spec_size() -> nat {
        72
    }

    open spec fn spec_read(s: Seq<u8>, at: int) -> Self {
        TexInfo {
            texture_vecs_bits: [[le_u32(s, at), le_u32(s, at + 4), le_u32(s, at + 8), le_u32(s, at + 12)], [le_u32(s, at + 16), le_u32(s, at + 20), le_u32(s, at + 24), le_u32(s, at + 28)]],
            lightmap_vecs_bits: [[le_u32(s, at + 32), le_u32(s, at + 36), le_u32(s, at + 40), le_u32(s, at + 44)], [le_u32(s, at + 48), le_u32(s, at + 52), le_u32(s, at + 56), le_u32(s, at + 60)]],
            flags: le_i32(s, at + 64),
            texdata: le_i32(s, at + 68),
        }
    }

    fn size() -> (r: usize) {
        72
    }

    fn read(bytes: &[u8], at: usize) -> (r: Self) {
        let _len = bytes.len();
        TexInfo {
            texture_vecs_bits: [[read_u32(bytes, at), read_u32(bytes, at + 4), read_u32(bytes, at + 8), read_u32(bytes, at + 12)], [read_u32(bytes, at + 16), read_u32(bytes, at + 20), read_u32(bytes, at + 24), read_u32(bytes, at + 28)]],
            lightmap_vecs_bits: [[read_u32(bytes, at + 32), read_u32(bytes, at + 36), read_u32(bytes, at + 40), read_u32(bytes, at + 44)], [read_u32(bytes, at + 48), read_u32(bytes, at + 52), read_u32(bytes, at + 56), read_u32(bytes, at + 60)]],
            flags: read_i32(bytes, at + 64),
            texdata: read_i32(bytes, at + 68),
        }
    }
}

/// `dtexdata_t`. `reflectivity_bits` holds the raw bits of the `f32` vector.
#[derive(Clone, Copy, Debug, PartialEq, Eq)]
pub struct DTexData {
    pub reflectivity_bits: [u32; 3],
    /// Index into the TEXDATA_STRING_TABLE lump.
    pub name_string_table_id: i32,
    /// Source image dimensions, the divisor for the texture axes.
    pub width: i32,
    pub height: i32,
    pub view_width: i32,
    pub view_height: i32,
}

impl Record for DTexData {
    open spec fn spec_size() -> nat {
        32
    }

    open spec fn spec_read(s: Seq<u8>, at: int) -> Self {
        DTexData {
            reflectivity_bits: [le_u32(s, at), le_u32(s, at + 4), le_u32(s, at + 8)],
            name_string_table_id: le_i32(s, at + 12),
            width: le_i32(s, at + 16),
            height: le_i32(s, at + 20),
            view_width: le_i32(s, at + 24),
            view_height: le_i32(s, at + 28),
        }
    }

    fn size() -> (r: usize) {
        32
    }

    fn read(bytes: &[u8], at: usize) -> (r: Self) {
        let _len = bytes.len();
        DTexData {
            reflectivity_bits: [read_u32(bytes, at), read_u32(bytes, at + 4), read_u32(bytes, at + 8)],
            name_string_table_id: read_i32(bytes, at + 12),
            width: read_i32(bytes, at + 16),
            height: read_i32(bytes, at + 20),
            view_width: read_i32(bytes, at + 24),
            view_height: read_i32(bytes, at + 28),
        }
    }
}

/// `dmodel_t`. Model 0 is worldspawn; 1.. are brush entities. The bounds
/// and origin are kept as the raw bits of their `f32` components.
#[derive(Clone, Copy, Debug, PartialEq, Eq)]
pub struct DModel {
    pub mins_bits: [u32; 3],
    pub maxs_bits: [u32; 3],
    pub origin_bits: [u32; 3],
    pub headnode: i32,
    pub firstface: i32,
    pub numfaces: i32,
}

impl Record for DModel {
    open spec fn spec_size() -> nat {
        48
    }

    open spec fn spec_read(s: Seq<u8>, at: int) -> Self {
        DModel {
            mins_bits: [le_u32(s, at), le_u32(s, at + 4), le_u32(s, at + 8)],
            maxs_bits: [le_u32(s, at + 12), le_u32(s, at + 16), le_u32(s, at + 20)],
            origin_bits: [le_u32(s, at + 24), le_u32(s, at + 28), le_u32(s, at + 32)],
            headnode: le_i32(s, at + 36),
            firstface: le_i32(s, at + 40),
            numfaces: le_i32(s, at + 44),
        }
    }

    fn size() -> (r: usize) {
        48
    }

    fn read(bytes: &[u8], at: usize) -> (r: Self) {
        let _len = bytes.len();
        DModel {
            mins_bits: [read_u32(bytes, at), read_u32(bytes, at + 4), read_u32(bytes, at + 8)],
            maxs_bits: [read_u32(bytes, at + 12), read_u32(bytes, at + 16), read_u32(bytes, at + 20)],
            origin_bits: [read_u32(bytes, at + 24), read_u32(bytes, at + 28), read_u32(bytes, at + 32)],
            headnode: read_i32(bytes, at + 36),
            firstface: read_i32(bytes, at + 40),
            numfaces: read_i32(bytes, at + 44),
        }
    }
}

/// `ddispinfo_t`. `start_position_bits` and `smoothing_angle_bits` hold raw
/// `f32` bits.
#[derive(Clone, Copy, Debug, PartialEq, Eq)]
pub struct DDispInfo {
    /// Orients the grid: the parent face corner nearest this point is (0,0).
    pub start_position_bits: [u32; 3],
    /// Index into DISP_VERTS.
    pub disp_vert_start: i32,
    /// Index into DISP_TRIS.
    pub disp_tri_start: i32,
    /// 2..=4; the vertex grid is `(1 << power) + 1` per side.
    pub power: i32,
    pub min_tess: i32,
    pub smoothing_angle_bits: u32,
    /// `CONTENTS_*` flags.
    pub contents: i32,
    /// The face this displacement is built on.
    pub map_face: u16,
    pub _pad: u16,
    pub lightmap_alpha_start: i32,
    pub lightmap_sample_position_start: i32,
    /// Indexed by `NEIGHBOREDGE_*`.
    pub edge_neighbors: [DispNeighbor; 4],
    /// Indexed by `CORNER_*`.
    pub corner_neighbors: [DispCornerNeighbors; 4],
    pub allowed_verts: [u32; 10],
}

impl Record for DDispInfo {
    open spec fn spec_size() -> nat {
        176
    }

    open spec fn spec_read(s: Seq<u8>, at: int) -> Self {
        DDispInfo {
            start_position_bits: [le_u32(s, at), le_u32(s, at + 4), le_u32(s, at + 8)],
            disp_vert_start: le_i32(s, at + 12),
            disp_tri_start: le_i32(s, at + 16),
            power: le_i32(s, at + 20),
            min_tess: le_i32(s, at + 24),
            smoothing_angle_bits: le_u32(s, at + 28),
            contents: le_i32(s, at + 32),
            map_face: le_u16(s, at + 36),
            _pad: le_u16(s, at + 38),
            lightmap_alpha_start: le_i32(s, at + 40),
            lightmap_sample_position_start: le_i32(s, at + 44),
            edge_neighbors: [DispNeighbor::spec_read(s, at + 48), DispNeighbor::spec_read(s, at + 60), DispNeighbor::spec_read(s, at + 72), DispNeighbor::spec_read(s, at + 84)],
            corner_neighbors: [DispCornerNeighbors::spec_read(s, at + 96), DispCornerNeighbors::spec_read(s, at + 106), DispCornerNeighbors::spec_read(s, at + 116), DispCornerNeighbors::spec_read(s, at + 126)],
            allowed_verts: [le_u32(s, at + 136), le_u32(s, at + 140), le_u32(s, at + 144), le_u32(s, at + 148), le_u32(s, at + 152), le_u32(s, at + 156), le_u32(s, at + 160), le_u32(s, at + 164), le_u32(s, at + 168), le_u32(s, at + 172)],
        }
    }

    fn size() -> (r: usize) {
        176
    }

    fn read(bytes: &[u8], at: usize) -> (r: Self) {
        let _len = bytes.len();
        DDispInfo {
            start_position_bits: [read_u32(bytes, at), read_u32(bytes, at + 4), read_u32(bytes, at + 8)],
            disp_vert_start: read_i32(bytes, at + 12),
            disp_tri_start: read_i32(bytes, at + 16),
            power: read_i32(bytes, at + 20),
            min_tess: read_i32(bytes, at + 24),
            smoothing_angle_bits: read_u32(bytes, at + 28),
            contents: read_i32(bytes, at + 32),
            map_face: read_u16(bytes, at + 36),
            _pad: read_u16(bytes, at + 38),
            lightmap_alpha_start: read_i32(bytes, at + 40),
            lightmap_sample_position_start: read_i32(bytes, at + 44),
            edge_neighbors: [DispNeighbor::read(bytes, at + 48), DispNeighbor::read(bytes, at + 60), DispNeighbor::read(bytes, at + 72), DispNeighbor::read(bytes, at + 84)],
            corner_neighbors: [DispCornerNeighbors::read(bytes, at + 96), DispCornerNeighbors::read(bytes, at + 106), DispCornerNeighbors::read(bytes, at + 116), DispCornerNeighbors::read(bytes, at + 126)],
            allowed_verts: [read_u32(bytes, at + 136), read_u32(bytes, at + 140), read_u32(bytes, at + 144), read_u32(bytes, at + 148), read_u32(bytes, at + 152), read_u32(bytes, at + 156), read_u32(bytes, at + 160), read_u32(bytes, at + 164), read_u32(bytes, at + 168), read_u32(bytes, at + 172)],
        }
    }
}

/// `dheader_t`.
#[derive(Clone, Copy, Debug, PartialEq, Eq)]
pub struct Header {
    /// Little-endian `"VBSP"`.
    pub ident: i32,
    pub version: i32,
    pub lumps: [Lump; HEADER_LUMPS],
    pub map_revision: i32,
}

impl Header {
    /// Decode the header at the start of `bytes`.
    pub fn read(bytes: &[u8]) -> (r: Self)
        requires
            bytes@.len() >= HEADER_SIZE,
        ensures
            r.ident == le_i32(bytes@, 0),
            r.version == le_i32(bytes@, 4),
            r.map_revision == le_i32(bytes@, 1032),
            forall|i: int| 0 <= i < HEADER_LUMPS ==> #[trigger] r.lumps@[i] == Lump::spec_read(bytes@, 8 + 16 * i),
    {
        let zero = Lump { fileofs: 0, filelen: 0, version: 0, uncompressed_size: 0 };
        let mut lumps = [zero; HEADER_LUMPS];
        let mut i: usize = 0;
        while i < HEADER_LUMPS
            invariant
                i <= HEADER_LUMPS,
                bytes@.len() >= HEADER_SIZE,
                lumps@.len() == HEADER_LUMPS,
                forall|j: int| 0 <= j < i ==> #[trigger] lumps@[j] == Lump::spec_read(bytes@, 8 + 16 * j),
            decreases HEADER_LUMPS - i,
        {
            lumps[i] = Lump::read(bytes, 8 + 16 * i);
            i = i + 1;
        }
        Header { ident: read_i32(bytes, 0), version: read_i32(bytes, 4), lumps, map_revision: read_i32(bytes, 1032) }
    }
}

impl DFace {
    /// The packed primitive count word, shadow flag included.
    pub open spec fn spec_num_prims(&self) -> u16 {
        self.num_prims
    }

    /// Non-polygon primitive count, with the shadow flag masked off.
    pub fn num_prims(&self) -> (r: u16)
        ensures
            r == self.spec_num_prims() % 0x8000,
    {
        let r = self.num_prims & 0x7FFF;
        {
            let w = self.num_prims;
            assert(w & 0x7FFF == w % 0x8000) by (bit_vector);
        }
        r
    }

    /// Mirrors `dface_t::AreDynamicShadowsEnabled`: the top bit is clear.
    pub fn dynamic_shadows_enabled(&self) -> (r: bool)
        ensures
            r == (self.spec_num_prims() < 0x8000),
    {
        let r = self.num_prims & 0x8000 == 0;
        {
            let w = self.num_prims;
            assert((w & 0x8000 == 0) == (w < 0x8000)) by (bit_vector);
        }
        r
    }

    /// Lightmap sample grid width in luxels.
    pub fn lightmap_width(&self) -> (r: i32)
        requires
            self.lightmap_texture_size_in_luxels[0] < i32::MAX,
        ensures
            r == self.lightmap_texture_size_in_luxels[0] + 1,
    {
        self.lightmap_texture_size_in_luxels[0] + 1
    }

    /// Lightmap sample grid height in luxels.
    pub fn lightmap_height(&self) -> (r: i32)
        requires
            self.lightmap_texture_size_in_luxels[1] < i32::MAX,
        ensures
            r == self.lightmap_texture_size_in_luxels[1] + 1,
    {
        self.lightmap_texture_size_in_luxels[1] + 1
    }
}

/// The area index packed in the low nine bits of a leaf's `area:9, flags:7`
/// word.
pub open spec fn leaf_area(area_flags: u16) -> u16 {
    area_flags % 512
}

/// The flags packed in the high seven bits of a leaf's `area:9, flags:7` word.
pub open spec fn leaf_flags(area_flags: u16) -> u16 {
    area_flags / 512
}

impl DLeaf {
    /// The packed `area:9, flags:7` word.
    pub open spec fn spec_area_flags(&self) -> u16 {
        self.area_flags
    }

    pub fn area(&self) -> (r: u16)
        ensures
            r == leaf_area(self.spec_area_flags()),
    {
        let r = self.area_flags & 0x01FF;
        {
            let w = self.area_flags;
            assert(w & 0x01FF == w % 512) by (bit_vector);
        }
        r
    }

    pub fn flags(&self) -> (r: u16)
        ensures
            r == leaf_flags(self.spec_area_flags()),
    {
        let r = self.area_flags >> 9;
        {
            let w = self.area_flags;
            assert(w >> 9 == w / 512) by (bit_vector);
        }
        r
    }
}

impl DLeafV0 {
    /// The packed `area:9, flags:7` word.
    pub open spec fn spec_area_flags(&self) -> u16 {
        self.area_flags
    }

    /// The fields this layout shares with [`DLeaf`], for code that does not
    /// care which lump version it is reading.
    pub fn leaf(&self) -> (r: DLeaf)
        ensures
            r.contents == self.contents,
            r.cluster == self.cluster,
            r.spec_area_flags() == self.spec_area_flags(),
            r.mins == self.mins,
            r.maxs == self.maxs,
            r.firstleafface == self.firstleafface,
            r.numleaffaces == self.numleaffaces,
            r.firstleafbrush == self.firstleafbrush,
            r.numleafbrushes == self.numleafbrushes,
            r.leaf_water_data_id == self.leaf_water_data_id,
            r._pad == 0,
    {
        DLeaf {
            contents: self.contents,
            cluster: self.cluster,
            area_flags: self.area_flags,
            mins: self.mins,
            maxs: self.maxs,
            firstleafface: self.firstleafface,
            numleaffaces: self.numleaffaces,
            firstleafbrush: self.firstleafbrush,
            numleafbrushes: self.numleafbrushes,
            leaf_water_data_id: self.leaf_water_data_id,
            _pad: 0,
        }
    }

    pub fn area(&self) -> (r: u16)
        ensures
            r == leaf_area(self.spec_area_flags()),
    {
        let r = self.area_flags & 0x01FF;
        {
            let w = self.area_flags;
            assert(w & 0x01FF == w % 512) by (bit_vector);
        }
        r
    }

    pub fn flags(&self) -> (r: u16)
        ensures
            r == leaf_flags(self.spec_area_flags()),
    {
        let r = self.area_flags >> 9;
        {
            let w = self.area_flags;
            assert(w >> 9 == w / 512) by (bit_vector);
        }
        r
    }
}

/// The `area:9, flags:7` split loses nothing: the area is below 512, the
/// flags below 128, and together they rebuild the packed word.
pub proof fn lemma_leaf_area_flags_split(area_flags: u16)
    ensures
        leaf_area(area_flags) < 512,
        leaf_flags(area_flags) < 128,
        leaf_area(area_flags) + 512 * leaf_flags(area_flags) == area_flags,
{
}

/// Vertices per displacement grid side for `power`: `(1 << power) + 1`.
pub open spec fn disp_side_len(power: int) -> int {
    vstd::arithmetic::power2::pow2(power as nat) as int + 1
}

/// `1 << k` for small `k`.
fn pow2_usize(k: u32) -> (r: usize)
    requires
        k <= 30,
    ensures
        r == vstd::arithmetic::power2::pow2(k as nat),
        r <= 0x4000_0000,
{
    let mut p: usize = 1;
    let mut i: u32 = 0;
    proof {
        vstd::arithmetic::power2::lemma2_to64();
    }
    while i < k
        invariant
            i <= k <= 30,
            p == vstd::arithmetic::power2::pow2(i as nat),
            p <= 0x4000_0000,
            vstd::arithmetic::power2::pow2(30) == 0x4000_0000,
        decreases k - i,
    {
        proof {
            vstd::arithmetic::power2::lemma_pow2_unfold((i + 1) as nat);
            if i + 1 < 30 {
                vstd::arithmetic::power2::lemma_pow2_strictly_increases((i + 1) as nat, 30);
            }
        }
        p = p * 2;
        i = i + 1;
    }
    p
}

impl DDispInfo {
    /// Vertices per grid side: `(1 << power) + 1`, so 5, 9 or 17.
    pub fn side_len(&self) -> (r: usize)
        requires
            0 <= self.power <= 30,
        ensures
            r == disp_side_len(self.power as int),
    {
        pow2_usize(self.power as u32) + 1
    }

    /// `NUM_DISP_POWER_VERTS(power)`: 25, 81 or 289.
    pub fn num_verts(&self) -> (r: usize)
        requires
            0 <= self.power <= 15,
        ensures
            r == disp_side_len(self.power as int) * disp_side_len(self.power as int),
    {
        let s = self.side_len();
        proof {
            vstd::arithmetic::power2::lemma2_to64();
            if self.power < 15 {
                vstd::arithmetic::power2::lemma_pow2_strictly_increases(self.power as nat, 15);
            }
            assert(s * s <= 0x8001 * 0x8001) by (nonlinear_arith)
                requires s <= 0x8001;
        }
        s * s
    }

    /// `NUM_DISP_POWER_TRIS(power)`: 32, 128 or 512.
    pub fn num_tris(&self) -> (r: usize)
        requires
            0 <= self.power <= 15,
        ensures
            r == (disp_side_len(self.power as int) - 1) * (disp_side_len(self.power as int) - 1) * 2,
    {
        let s = pow2_usize(self.power as u32);
        proof {
            vstd::arithmetic::power2::lemma2_to64();
            if self.power < 15 {
                vstd::arithmetic::power2::lemma_pow2_strictly_increases(self.power as nat, 15);
            }
            assert(s * s * 2 <= 0x8000 * 0x8000 * 2) by (nonlinear_arith)
                requires s <= 0x8000;
        }
        s * s * 2
    }
}

} // verus!
