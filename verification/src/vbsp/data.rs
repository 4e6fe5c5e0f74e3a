//! The VBSP reader's lump directory, header and small packed fields.

use vstd::prelude::*;

use crate::le::{le_i16, le_i32, le_u16, le_u32, read_i16, read_i32, read_u16, read_u32};
use crate::raw::Record;
use crate::vbsp::lump_type::LumpType;

verus! {

/// A directory entry, in the field order every engine branch but L4D2 uses.
#[derive(Clone, Copy, Debug, Default, PartialEq, Eq)]
pub struct LumpEntry {
    pub offset: u32,
    pub length: u32,
    pub version: u32,
    pub ident: u32,
}

impl LumpEntry {
    pub open spec fn spec_read(s: Seq<u8>, at: int) -> LumpEntry {
        LumpEntry { offset: le_u32(s, at), length: le_u32(s, at + 4), version: le_u32(s, at + 8), ident: le_u32(s, at + 12) }
    }

    /// Decode the 16-byte entry at `at`.
    pub fn read(bytes: &[u8], at: usize) -> (r: LumpEntry)
        requires
            at + 16 <= bytes@.len(),
        ensures
            r == Self::spec_read(bytes@, at as int),
    {
        let _len = bytes.len();
        LumpEntry {
            offset: read_u32(bytes, at),
            length: read_u32(bytes, at + 4),
            version: read_u32(bytes, at + 8),
            ident: read_u32(bytes, at + 12),
        }
    }

    /// The entry as L4D2 stores it, `{version, offset, length, ident}`, after
    /// it was read in the standard order.
    pub open spec fn spec_fixup_l4d2(self) -> LumpEntry {
        LumpEntry { offset: self.length, length: self.version, version: self.offset, ident: self.ident }
    }

    /// Handle L4D2, which uses `{version, offset, length, ident}` instead.
    pub fn fixup_l4d2(&mut self)
        ensures
            *final(self) == old(self).spec_fixup_l4d2(),
    {
        *self = LumpEntry { offset: self.length, length: self.version, version: self.offset, ident: self.ident };
    }
}

/// Reading the L4D2 order three times over brings the fields back: the fixup
/// only rotates `offset`, `length` and `version`, and keeps `ident`.
pub proof fn lemma_fixup_rotates(e: LumpEntry)
    ensures
        e.spec_fixup_l4d2().spec_fixup_l4d2().spec_fixup_l4d2() == e,
        e.spec_fixup_l4d2().ident == e.ident,
{
}

/// The 64-entry lump directory.
#[derive(Clone, Debug)]
pub struct Directories {
    pub entries: [LumpEntry; 64],
}

/// Whether any entry's first field is not a plausible file offset: L4D2
/// stores the lump version there, a small integer.
pub open spec fn l4d2_version_heuristic(entries: Seq<LumpEntry>) -> Option<bool> {
    if exists|i: int| 0 <= i < entries.len() && #[trigger] entries[i].offset > 20 {
        Some(false)
    } else if exists|i: int| 0 <= i < entries.len() && #[trigger] entries[i].offset != 0 && entries[i].offset % 4 != 0 {
        Some(true)
    } else {
        None
    }
}

/// Whether the directory seems to use the L4D2 lump order.
///
/// A value over 20 in the first field of any entry is a real offset, so the
/// order is standard. Failing that, a small non-zero value that is not
/// 4-aligned is a version read into the wrong field. Failing that too, a
/// "length" larger than the file is really an offset.
pub open spec fn spec_is_l4d2_lump_order(entries: Seq<LumpEntry>, file_size: int) -> bool {
    match l4d2_version_heuristic(entries) {
        Some(b) => b,
        None => exists|i: int| 0 <= i < entries.len() && #[trigger] entries[i].length > file_size,
    }
}

impl Directories {
    pub open spec fn spec_read(s: Seq<u8>, at: int) -> Seq<LumpEntry> {
        Seq::new(64, |i: int| LumpEntry::spec_read(s, at + 16 * i))
    }

    /// Decode the directory at `at`.
    pub fn read(bytes: &[u8], at: usize) -> (r: Directories)
        requires
            at + 1024 <= bytes@.len(),
        ensures
            r.entries@ == Self::spec_read(bytes@, at as int),
    {
        let _len = bytes.len();
        let mut entries = [LumpEntry { offset: 0, length: 0, version: 0, ident: 0 }; 64];
        let mut i: usize = 0;
        while i < 64
            invariant
                i <= 64,
                at + 1024 <= bytes@.len() <= usize::MAX,
                entries@.len() == 64,
                forall|j: int| 0 <= j < i ==> #[trigger] entries@[j] == LumpEntry::spec_read(bytes@, at + 16 * j),
            decreases 64 - i,
        {
            entries[i] = LumpEntry::read(bytes, at + 16 * i);
            i = i + 1;
        }
        assert(entries@ =~= Self::spec_read(bytes@, at as int));
        Directories { entries }
    }

    /// Checks if the lump directory seems to use the L4D2 lump header order.
    /// Call it on a directory read in the standard order.
    pub fn is_l4d2_lump_order(&self, file_size: usize) -> (r: bool)
        ensures
            r == spec_is_l4d2_lump_order(self.entries@, file_size as int),
    {
        let mut maybe_l4d2 = false;
        let mut i: usize = 0;
        while i < 64
            invariant
                i <= 64,
                self.entries@.len() == 64,
                forall|j: int| 0 <= j < i ==> #[trigger] self.entries@[j].offset <= 20,
                maybe_l4d2 == exists|j: int| 0 <= j < i && #[trigger] self.entries@[j].offset != 0
                    && self.entries@[j].offset % 4 != 0,
            decreases 64 - i,
        {
            let lump = self.entries[i];
            if lump.offset > 20 {
                return false;
            }
            if lump.offset != 0 && lump.offset % 4 != 0 {
                maybe_l4d2 = true;
            }
            i = i + 1;
        }
        if maybe_l4d2 {
            return true;
        }
        assert(l4d2_version_heuristic(self.entries@) is None);
        let mut k: usize = 0;
        while k < 64
            invariant
                k <= 64,
                self.entries@.len() == 64,
                forall|j: int| 0 <= j < k ==> #[trigger] self.entries@[j].length <= file_size,
                l4d2_version_heuristic(self.entries@) is None,
            decreases 64 - k,
        {
            if self.entries[k].length as usize > file_size {
                assert(self.entries@[k as int].length > file_size);
                return true;
            }
            k = k + 1;
        }
        false
    }

    /// Corrects every entry read in the standard order that is really in
    /// L4D2 order.
    pub fn fixup_lumps(&mut self)
        ensures
            final(self).entries@.len() == 64,
            forall|i: int| 0 <= i < 64 ==> #[trigger] final(self).entries@[i] == old(self).entries@[i].spec_fixup_l4d2(),
    {
        let mut i: usize = 0;
        while i < 64
            invariant
                i <= 64,
                self.entries@.len() == 64,
                forall|j: int| 0 <= j < i ==> #[trigger] self.entries@[j] == old(self).entries@[j].spec_fixup_l4d2(),
                forall|j: int| i <= j < 64 ==> #[trigger] self.entries@[j] == old(self).entries@[j],
            decreases 64 - i,
        {
            let mut e = self.entries[i];
            e.fixup_l4d2();
            self.entries[i] = e;
            i = i + 1;
        }
    }

    /// The entry for one lump.
    pub fn get(&self, lump: LumpType) -> (r: LumpEntry)
        ensures
            r == self.entries@[lump.spec_index()],
    {
        self.entries[lump.index()]
    }
}

/// `BSP` format versions this reader understands.
#[derive(Debug, Clone, Copy, PartialEq, Eq)]
pub enum BspVersion {
    Version19,
    Version20,
    Version21,
    /// Portal Revolution.
    Version25,
}

impl BspVersion {
    pub open spec fn spec_from_u32(v: u32) -> Option<BspVersion> {
        if v == 19 {
            Some(BspVersion::Version19)
        } else if v == 20 {
            Some(BspVersion::Version20)
        } else if v == 21 {
            Some(BspVersion::Version21)
        } else if v == 25 {
            Some(BspVersion::Version25)
        } else {
            None
        }
    }

    pub fn from_u32(v: u32) -> (r: Option<BspVersion>)
        ensures
            r == Self::spec_from_u32(v),
    {
        match v {
            19 => Some(BspVersion::Version19),
            20 => Some(BspVersion::Version20),
            21 => Some(BspVersion::Version21),
            25 => Some(BspVersion::Version25),
            _ => None,
        }
    }
}

/// The file header after the `"VBSP"` magic.
#[derive(Debug, Clone, Copy, PartialEq, Eq)]
pub struct Header {
    pub version: BspVersion,
}

/// The leaf lump's format version.
#[derive(Default, Debug, Clone, Copy, PartialEq, Eq)]
pub struct LeafArgs {
    pub version: u32,
}

/// A lump's type, length and format version, as handed to its parser.
#[derive(Clone, Copy, Debug, PartialEq, Eq)]
pub struct LumpArgs {
    pub type_: LumpType,
    pub length: usize,
    pub version: u32,
}

/// A leaf's `area:17, flags:15` word (v2 leaves), also built from the
/// `area:9, flags:7` word of older leaves.
#[derive(Default, Debug, Copy, Clone, PartialEq, Eq)]
pub struct PackedAreaAndFlags(pub i32);

/// The area of a packed `area:17, flags:15` word: its top 17 bits.
pub open spec fn packed_area(v: i32) -> int {
    if v >= 0 {
        v / 0x8000
    } else {
        -((-(v as int) - 1) / 0x8000) - 1
    }
}

impl PackedAreaAndFlags {
    /// The area: the word's top 17 bits, sign-extended.
    pub fn area(&self) -> (r: i32)
        ensures
            r == packed_area(self.0),
            r * 0x8000 + self.flags_spec() == self.0,
    {
        let v = self.0;
        let r = (v & (0xFFFF_8000u32 as i32)) >> 15;
        assert((v & (0xFFFF_8000u32 as i32)) >> 15 == v >> 15) by (bit_vector);
        assert(v >> 15 == if v >= 0 { v / 0x8000 } else { -((-(v as int) - 1) / 0x8000) - 1 }) by (bit_vector);
        assert((v >> 15) * 0x8000 + (v & 0x7FFF) == v) by (bit_vector);
        r
    }

    /// The flags: the word's low 15 bits.
    pub open spec fn flags_spec(&self) -> int {
        (self.0 & 0x7FFF) as int
    }

    pub fn flags(&self) -> (r: i32)
        ensures
            r == self.flags_spec(),
            0 <= r < 0x8000,
    {
        let v = self.0;
        let r = v & (!(0xFFFF_8000u32 as i32));
        assert(v & (!(0xFFFF_8000u32 as i32)) == v & 0x7FFF) by (bit_vector);
        assert(0 <= v & 0x7FFF < 0x8000) by (bit_vector);
        r
    }

    /// Widen a 16-bit `area:9, flags:7` word, keeping its sign-extended area
    /// and its flags.
    pub fn from_i16(value: i16) -> (r: Self)
        ensures
            r.0 == (value >> 7) as i32 * 0x8000 + (value & 0x7F) as i32,
            packed_area(r.0) == (value >> 7) as int,
            r.flags_spec() == (value & 0x7F) as int,
    {
        let area = (value & (0xFF80u16 as i16)) >> 7;
        let flags = value & (!(0xFF80u16 as i16));
        assert((value & (0xFF80u16 as i16)) >> 7 == value >> 7) by (bit_vector);
        assert(value & (!(0xFF80u16 as i16)) == value & 0x7F) by (bit_vector);
        let a32 = area as i32;
        assert(-256 <= value >> 7 < 256) by (bit_vector);
        assert(0 <= value & 0x7F < 128) by (bit_vector);
        let r = (a32 << 15) | flags as i32;
        assert(-256 <= a32 < 256 && 0 <= (flags as i32) < 128 ==> (a32 << 15) | (flags as i32) == a32 * 0x8000
            + (flags as i32)) by (bit_vector);
        let w = a32 * 0x8000 + flags as i32;
        assert(w >> 15 == a32) by (bit_vector)
            requires w == a32 * 0x8000 + (flags as i32), -256 <= a32 < 256, 0 <= flags < 128;
        assert(w >> 15 == if w >= 0 { w / 0x8000 } else { -((-(w as int) - 1) / 0x8000) - 1 }) by (bit_vector);
        assert(w & 0x7FFF == flags as i32) by (bit_vector)
            requires w == a32 * 0x8000 + (flags as i32), -256 <= a32 < 256, 0 <= flags < 128;
        PackedAreaAndFlags(r)
    }
}

/// Which way a surface edge runs along its edge.
#[derive(Debug, Copy, Clone, Eq, PartialEq)]
pub enum EdgeDirection {
    FirstToLast,
    LastToFirst,
}

/// A signed index into the edge lump: negative means the edge is walked
/// backwards.
#[derive(Debug, Clone, Copy, PartialEq, Eq)]
pub struct SurfaceEdge {
    pub edge: i32,
}

impl SurfaceEdge {
    pub fn edge_index(&self) -> (r: u32)
        ensures
            r as int == if self.edge >= 0 { self.edge as int } else { -(self.edge as int) },
    {
        if self.edge >= 0 {
            self.edge as u32
        } else if self.edge == i32::MIN {
            0x8000_0000
        } else {
            (-self.edge) as u32
        }
    }

    pub fn direction(&self) -> (r: EdgeDirection)
        ensures
            r == if self.edge >= 0 { EdgeDirection::FirstToLast } else { EdgeDirection::LastToFirst },
    {
        if self.edge >= 0 {
            EdgeDirection::FirstToLast
        } else {
            EdgeDirection::LastToFirst
        }
    }
}

/// A face's primitive count with its "shadows enabled" flag in the top bit.
#[derive(Debug, Clone, Copy, PartialEq, Eq)]
pub struct PackedPrimitiveCount(pub u32);

impl PackedPrimitiveCount {
    pub fn primitive_count(&self) -> (r: u32)
        ensures
            r == self.0 % 0x8000_0000,
    {
        let v = self.0;
        assert(v & !0x8000_0000u32 == v % 0x8000_0000) by (bit_vector);
        v & !0x8000_0000u32
    }

    pub fn enable_shadows(&self) -> (r: bool)
        ensures
            r == (self.0 >= 0x8000_0000),
    {
        let v = self.0;
        assert((v & 0x8000_0000u32 != 0) == (v >= 0x8000_0000)) by (bit_vector);
        (v & 0x8000_0000u32) != 0
    }

    /// Pack a count below `2^31` with the flag.
    pub fn pack(primitive_count: u32, enable_shadows: bool) -> (r: Self)
        requires
            primitive_count < 0x8000_0000,
        ensures
            r.0 == primitive_count + if enable_shadows { 0x8000_0000u32 } else { 0u32 },
    {
        let flag: u32 = if enable_shadows { 0x8000_0000 } else { 0 };
        assert(primitive_count < 0x8000_0000 ==> primitive_count | 0x8000_0000u32 == primitive_count + 0x8000_0000u32)
            by (bit_vector);
        assert(primitive_count | 0u32 == primitive_count) by (bit_vector);
        PackedPrimitiveCount(primitive_count | flag)
    }
}

/// Packing then unpacking gives the count and flag back.
pub proof fn lemma_pack_roundtrip(count: u32, shadows: bool)
    requires
        count < 0x8000_0000,
    ensures
        ({
            let word = count + if shadows { 0x8000_0000u32 } else { 0u32 };
            word % 0x8000_0000 == count && (word >= 0x8000_0000) == shadows
        }),
{
}

/// `CONTENTS_*` flags of a brush.
#[derive(Debug, Clone, Copy, PartialEq, Eq)]
pub struct BrushFlags(pub u32);

/// The contents that make a brush visible: `SOLID | GRATE | OPAQUE |
/// TESTFOGVOLUME | TRANSLUCENT`.
pub const VISIBLE_BRUSH_CONTENTS: u32 = 0x1000_0189;

/// A brush: a run of brush sides and its contents.
#[derive(Debug, Clone, Copy, PartialEq, Eq)]
pub struct Brush {
    pub brush_side: u32,
    pub num_brush_sides: u32,
    pub flags: BrushFlags,
}

impl Brush {
    /// Whether the brush has any visible contents.
    pub fn is_visible(&self) -> (r: bool)
        ensures
            r == (self.flags.0 & VISIBLE_BRUSH_CONTENTS != 0),
    {
        self.flags.0 & VISIBLE_BRUSH_CONTENTS != 0
    }
}

/// An entry of the LEAFFACES lump: a face index.
#[derive(Debug, Clone, Copy, PartialEq, Eq)]
pub struct LeafFace {
    pub face: u16,
}

/// An entry of the LEAFBRUSHES lump: a brush index.
#[derive(Debug, Clone, Copy, PartialEq, Eq)]
pub struct LeafBrush {
    pub brush: u16,
}

/// An entry of the VERTNORMALINDICES lump.
#[derive(Debug, Clone, Copy, PartialEq, Eq)]
pub struct VertNormalIndex {
    pub index: i16,
}

/// An edge between two vertices.
#[derive(Debug, Clone, Copy, PartialEq, Eq)]
pub struct Edge {
    pub start_index: u16,
    pub end_index: u16,
}

/// One side of a brush.
#[derive(Debug, Clone, Copy, PartialEq, Eq)]
pub struct BrushSide {
    pub plane: u16,
    pub texture_info: i16,
    pub displacement_info: i16,
    pub bevel: i16,
}

/// `SURF_*` flags of a texture info.
#[derive(Debug, Clone, Copy, PartialEq, Eq)]
pub struct TextureFlags(pub u32);

impl TextureFlags {
    /// Value will hold the light strength.
    pub const LIGHT: u32 = 0x1;
    /// Don't draw; skylight and draw the 2D sky, not the 3D skybox.
    pub const SKY2D: u32 = 0x2;
    /// Don't draw, but add the skybox.
    pub const SKY: u32 = 0x4;
    /// Turbulent water warp.
    pub const WARP: u32 = 0x8;
    /// Texture is translucent.
    pub const TRANS: u32 = 0x10;
    /// The surface can't have a portal placed on it.
    pub const NOPORTAL: u32 = 0x20;
    pub const TRIGGER: u32 = 0x40;
    /// Don't bother referencing the texture.
    pub const NODRAW: u32 = 0x80;
    /// Make a primary BSP splitter.
    pub const HINT: u32 = 0x100;
    /// Completely ignore, allowing non-closed brushes.
    pub const SKIP: u32 = 0x200;
    /// Don't calculate light.
    pub const NOLIGHT: u32 = 0x400;
    /// Calculate three lightmaps for the surface for bump mapping.
    pub const BUMPLIGHT: u32 = 0x800;
    /// Don't receive shadows.
    pub const NOSHADOWS: u32 = 0x1000;
    /// Don't receive decals.
    pub const NODECALS: u32 = 0x2000;
    /// Don't subdivide patches on this surface.
    pub const NOCHOP: u32 = 0x4000;
    /// Surface is part of a hitbox.
    pub const HITBOX: u32 = 0x8000;

    /// Whether any of the bits of `mask` is set.
    pub fn intersects(&self, mask: u32) -> (r: bool)
        ensures
            r == (self.0 & mask != 0),
    {
        self.0 & mask != 0
    }
}

/// A node of the NODES lump in its version 0 layout, with 16-bit bounds.
#[derive(Debug, Clone, Copy, PartialEq, Eq)]
pub struct NodeV0 {
    pub plane_index: i32,
    pub children: [i32; 2],
    pub mins: [i16; 3],
    pub maxs: [i16; 3],
    pub first_face: u16,
    pub face_count: u16,
    pub area: i16,
    pub _padding: i16,
}

impl Record for LeafFace {
    open spec fn spec_size() -> nat {
        2
    }

    open spec fn spec_read(s: Seq<u8>, at: int) -> Self {
        LeafFace { face: le_u16(s, at) }
    }

    fn size() -> (r: usize) {
        2
    }

    fn read(bytes: &[u8], at: usize) -> (r: Self) {
        let _len = bytes.len();
        LeafFace { face: read_u16(bytes, at) }
    }
}

impl Record for LeafBrush {
    open spec fn spec_size() -> nat {
        2
    }

    open spec fn spec_read(s: Seq<u8>, at: int) -> Self {
        LeafBrush { brush: le_u16(s, at) }
    }

    fn size() -> (r: usize) {
        2
    }

    fn read(bytes: &[u8], at: usize) -> (r: Self) {
        let _len = bytes.len();
        LeafBrush { brush: read_u16(bytes, at) }
    }
}

impl Record for VertNormalIndex {
    open spec fn spec_size() -> nat {
        2
    }

    open spec fn spec_read(s: Seq<u8>, at: int) -> Self {
        VertNormalIndex { index: le_i16(s, at) }
    }

    fn size() -> (r: usize) {
        2
    }

    fn read(bytes: &[u8], at: usize) -> (r: Self) {
        let _len = bytes.len();
        VertNormalIndex { index: read_i16(bytes, at) }
    }
}

impl Record for Edge {
    open spec fn spec_size() -> nat {
        4
    }

    open spec fn spec_read(s: Seq<u8>, at: int) -> Self {
        Edge { start_index: le_u16(s, at), end_index: le_u16(s, at + 2) }
    }

    fn size() -> (r: usize) {
        4
    }

    fn read(bytes: &[u8], at: usize) -> (r: Self) {
        let _len = bytes.len();
        Edge { start_index: read_u16(bytes, at), end_index: read_u16(bytes, at + 2) }
    }
}

impl Record for SurfaceEdge {
    open spec fn spec_size() -> nat {
        4
    }

    open spec fn spec_read(s: Seq<u8>, at: int) -> Self {
        SurfaceEdge { edge: le_i32(s, at) }
    }

    fn size() -> (r: usize) {
        4
    }

    fn read(bytes: &[u8], at: usize) -> (r: Self) {
        let _len = bytes.len();
        SurfaceEdge { edge: read_i32(bytes, at) }
    }
}

impl Record for BrushSide {
    open spec fn spec_size() -> nat {
        8
    }

    open spec fn spec_read(s: Seq<u8>, at: int) -> Self {
        BrushSide { plane: le_u16(s, at), texture_info: le_i16(s, at + 2), displacement_info: le_i16(s, at + 4), bevel: le_i16(s, at + 6) }
    }

    fn size() -> (r: usize) {
        8
    }

    fn read(bytes: &[u8], at: usize) -> (r: Self) {
        let _len = bytes.len();
        BrushSide { plane: read_u16(bytes, at), texture_info: read_i16(bytes, at + 2), displacement_info: read_i16(bytes, at + 4), bevel: read_i16(bytes, at + 6) }
    }
}

impl Record for TextureFlags {
    open spec fn spec_size() -> nat {
        4
    }

    open spec fn spec_read(s: Seq<u8>, at: int) -> Self {
        TextureFlags(le_u32(s, at))
    }

    fn size() -> (r: usize) {
        4
    }

    fn read(bytes: &[u8], at: usize) -> (r: Self) {
        let _len = bytes.len();
        TextureFlags(read_u32(bytes, at))
    }
}

impl Record for NodeV0 {
    open spec fn spec_size() -> nat {
        32
    }

    open spec fn spec_read(s: Seq<u8>, at: int) -> Self {
        NodeV0 { plane_index: le_i32(s, at), children: [le_i32(s, at + 4), le_i32(s, at + 8)], mins: [le_i16(s, at + 12), le_i16(s, at + 14), le_i16(s, at + 16)], maxs: [le_i16(s, at + 18), le_i16(s, at + 20), le_i16(s, at + 22)], first_face: le_u16(s, at + 24), face_count: le_u16(s, at + 26), area: le_i16(s, at + 28), _padding: le_i16(s, at + 30) }
    }

    fn size() -> (r: usize) {
        32
    }

    fn read(bytes: &[u8], at: usize) -> (r: Self) {
        let _len = bytes.len();
        NodeV0 { plane_index: read_i32(bytes, at), children: [read_i32(bytes, at + 4), read_i32(bytes, at + 8)], mins: [read_i16(bytes, at + 12), read_i16(bytes, at + 14), read_i16(bytes, at + 16)], maxs: [read_i16(bytes, at + 18), read_i16(bytes, at + 20), read_i16(bytes, at + 22)], first_face: read_u16(bytes, at + 24), face_count: read_u16(bytes, at + 26), area: read_i16(bytes, at + 28), _padding: read_i16(bytes, at + 30) }
    }
}

impl Record for Brush {
    open spec fn spec_size() -> nat {
        12
    }

    open spec fn spec_read(s: Seq<u8>, at: int) -> Self {
        Brush { brush_side: le_u32(s, at), num_brush_sides: le_u32(s, at + 4), flags: BrushFlags(le_u32(s, at + 8)) }
    }

    fn size() -> (r: usize) {
        12
    }

    fn read(bytes: &[u8], at: usize) -> (r: Self) {
        let _len = bytes.len();
        Brush { brush_side: read_u32(bytes, at), num_brush_sides: read_u32(bytes, at + 4), flags: BrushFlags(read_u32(bytes, at + 8)) }
    }
}

} // verus!
