//! The LEAVES lump of the `VBSP` reader, in its three on-disk versions.

use vstd::prelude::*;

use crate::le::{le_i16, le_i32, le_u16, le_u32, read_i16, read_i32, read_u16, read_u32};
use crate::raw::Record;
use crate::vbsp::bspfile::{BspError, UnsupportedLumpVersion};
use crate::vbsp::data::{LeafArgs, LumpArgs, PackedAreaAndFlags};
use crate::vbsp::lighting::CompressedLightCube;

verus! {

/// Version 0 leaf: 16-bit bounds and an ambient light cube. The cube is
/// aligned to the record's 4-byte alignment, after two bytes of padding.
#[derive(Debug, Clone, Copy, PartialEq, Eq)]
pub struct LeafV0 {
    pub contents: i32,
    pub cluster: i16,
    /// `area:9, flags:7`.
    pub area_and_flags: i16,
    pub mins: [i16; 3],
    pub maxs: [i16; 3],
    pub first_leaf_face: u16,
    pub leaf_face_count: u16,
    pub first_leaf_brush: u16,
    pub leaf_brush_count: u16,
    pub leaf_water_data_id: i16,
    pub cube: CompressedLightCube,
}

impl Record for LeafV0 {
    open spec fn spec_size() -> nat {
        56
    }

    open spec fn spec_read(s: Seq<u8>, at: int) -> Self {
        LeafV0 {
            contents: le_i32(s, at),
            cluster: le_i16(s, at + 4),
            area_and_flags: le_i16(s, at + 6),
            mins: [le_i16(s, at + 8), le_i16(s, at + 10), le_i16(s, at + 12)],
            maxs: [le_i16(s, at + 14), le_i16(s, at + 16), le_i16(s, at + 18)],
            first_leaf_face: le_u16(s, at + 20),
            leaf_face_count: le_u16(s, at + 22),
            first_leaf_brush: le_u16(s, at + 24),
            leaf_brush_count: le_u16(s, at + 26),
            leaf_water_data_id: le_i16(s, at + 28),
            cube: CompressedLightCube::spec_read(s, at + 32),
        }
    }

    fn size() -> (r: usize) {
        56
    }

    fn read(bytes: &[u8], at: usize) -> (r: Self) {
        let _len = bytes.len();
        LeafV0 {
            contents: read_i32(bytes, at),
            cluster: read_i16(bytes, at + 4),
            area_and_flags: read_i16(bytes, at + 6),
            mins: [read_i16(bytes, at + 8), read_i16(bytes, at + 10), read_i16(bytes, at + 12)],
            maxs: [read_i16(bytes, at + 14), read_i16(bytes, at + 16), read_i16(bytes, at + 18)],
            first_leaf_face: read_u16(bytes, at + 20),
            leaf_face_count: read_u16(bytes, at + 22),
            first_leaf_brush: read_u16(bytes, at + 24),
            leaf_brush_count: read_u16(bytes, at + 26),
            leaf_water_data_id: read_i16(bytes, at + 28),
            cube: CompressedLightCube::read(bytes, at + 32),
        }
    }
}

/// Version 1 leaf: version 0 without the light cube.
#[derive(Debug, Clone, Copy, PartialEq, Eq)]
pub struct LeafV1 {
    pub contents: i32,
    pub cluster: i16,
    /// `area:9, flags:7`.
    pub area_and_flags: i16,
    pub mins: [i16; 3],
    pub maxs: [i16; 3],
    pub first_leaf_face: u16,
    pub leaf_face_count: u16,
    pub first_leaf_brush: u16,
    pub leaf_brush_count: u16,
    pub leaf_water_data_id: i16,
}

impl Record for LeafV1 {
    open spec fn spec_size() -> nat {
        32
    }

    open spec fn spec_read(s: Seq<u8>, at: int) -> Self {
        LeafV1 {
            contents: le_i32(s, at),
            cluster: le_i16(s, at + 4),
            area_and_flags: le_i16(s, at + 6),
            mins: [le_i16(s, at + 8), le_i16(s, at + 10), le_i16(s, at + 12)],
            maxs: [le_i16(s, at + 14), le_i16(s, at + 16), le_i16(s, at + 18)],
            first_leaf_face: le_u16(s, at + 20),
            leaf_face_count: le_u16(s, at + 22),
            first_leaf_brush: le_u16(s, at + 24),
            leaf_brush_count: le_u16(s, at + 26),
            leaf_water_data_id: le_i16(s, at + 28),
        }
    }

    fn size() -> (r: usize) {
        32
    }

    fn read(bytes: &[u8], at: usize) -> (r: Self) {
        let _len = bytes.len();
        LeafV1 {
            contents: read_i32(bytes, at),
            cluster: read_i16(bytes, at + 4),
            area_and_flags: read_i16(bytes, at + 6),
            mins: [read_i16(bytes, at + 8), read_i16(bytes, at + 10), read_i16(bytes, at + 12)],
            maxs: [read_i16(bytes, at + 14), read_i16(bytes, at + 16), read_i16(bytes, at + 18)],
            first_leaf_face: read_u16(bytes, at + 20),
            leaf_face_count: read_u16(bytes, at + 22),
            first_leaf_brush: read_u16(bytes, at + 24),
            leaf_brush_count: read_u16(bytes, at + 26),
            leaf_water_data_id: read_i16(bytes, at + 28),
        }
    }
}

/// Version 2 leaf: 32-bit fields, `f32` bounds (kept as their bits), and an
/// `area:17, flags:15` word. Its light cube lives in another lump.
#[derive(Debug, Clone, Copy, PartialEq, Eq)]
pub struct LeafV2 {
    pub contents: i32,
    pub cluster: i32,
    pub area_and_flags: i32,
    pub mins_bits: [u32; 3],
    pub maxs_bits: [u32; 3],
    pub first_leaf_face: u32,
    pub leaf_face_count: u32,
    pub first_leaf_brush: u32,
    pub leaf_brush_count: u32,
    pub leaf_water_data_id: i32,
}

impl Record for LeafV2 {
    open spec fn spec_size() -> nat {
        56
    }

    open spec fn spec_read(s: Seq<u8>, at: int) -> Self {
        LeafV2 {
            contents: le_i32(s, at),
            cluster: le_i32(s, at + 4),
            area_and_flags: le_i32(s, at + 8),
            mins_bits: [le_u32(s, at + 12), le_u32(s, at + 16), le_u32(s, at + 20)],
            maxs_bits: [le_u32(s, at + 24), le_u32(s, at + 28), le_u32(s, at + 32)],
            first_leaf_face: le_u32(s, at + 36),
            leaf_face_count: le_u32(s, at + 40),
            first_leaf_brush: le_u32(s, at + 44),
            leaf_brush_count: le_u32(s, at + 48),
            leaf_water_data_id: le_i32(s, at + 52),
        }
    }

    fn size() -> (r: usize) {
        56
    }

    fn read(bytes: &[u8], at: usize) -> (r: Self) {
        let _len = bytes.len();
        LeafV2 {
            contents: read_i32(bytes, at),
            cluster: read_i32(bytes, at + 4),
            area_and_flags: read_i32(bytes, at + 8),
            mins_bits: [read_u32(bytes, at + 12), read_u32(bytes, at + 16), read_u32(bytes, at + 20)],
            maxs_bits: [read_u32(bytes, at + 24), read_u32(bytes, at + 28), read_u32(bytes, at + 32)],
            first_leaf_face: read_u32(bytes, at + 36),
            leaf_face_count: read_u32(bytes, at + 40),
            first_leaf_brush: read_u32(bytes, at + 44),
            leaf_brush_count: read_u32(bytes, at + 48),
            leaf_water_data_id: read_i32(bytes, at + 52),
        }
    }
}

/// A leaf's bounding box as stored: whole units for versions 0 and 1, `f32`
/// bits for version 2.
#[derive(Debug, Clone, Copy, PartialEq, Eq)]
pub enum LeafBounds {
    Short { mins: [i16; 3], maxs: [i16; 3] },
    Float { mins_bits: [u32; 3], maxs_bits: [u32; 3] },
}

/// A leaf of any version, widened to the newest layout.
#[derive(Debug, Clone, Copy, PartialEq, Eq)]
pub struct Leaf {
    pub contents: i32,
    pub cluster: i32,
    pub area_and_flags: PackedAreaAndFlags,
    pub bounds: LeafBounds,
    pub first_leaf_face: u32,
    pub leaf_face_count: u32,
    pub first_leaf_brush: u32,
    pub leaf_brush_count: u32,
    pub leaf_water_data_id: i32,
    /// The ambient cube, stored in the leaf by version 0 only.
    pub cube: Option<CompressedLightCube>,
}

/// The `area:17, flags:15` word a 16-bit `area:9, flags:7` word widens to.
pub open spec fn widened_area_and_flags(v: i16) -> i32 {
    ((v >> 7) as i32 * 0x8000 + (v & 0x7F) as i32) as i32
}

pub open spec fn spec_from_v0(l: LeafV0) -> Leaf {
    Leaf {
        contents: l.contents,
        cluster: l.cluster as i32,
        area_and_flags: PackedAreaAndFlags(widened_area_and_flags(l.area_and_flags)),
        bounds: LeafBounds::Short { mins: l.mins, maxs: l.maxs },
        first_leaf_face: l.first_leaf_face as u32,
        leaf_face_count: l.leaf_face_count as u32,
        first_leaf_brush: l.first_leaf_brush as u32,
        leaf_brush_count: l.leaf_brush_count as u32,
        leaf_water_data_id: l.leaf_water_data_id as i32,
        cube: Some(l.cube),
    }
}

pub open spec fn spec_from_v1(l: LeafV1) -> Leaf {
    Leaf {
        contents: l.contents,
        cluster: l.cluster as i32,
        area_and_flags: PackedAreaAndFlags(widened_area_and_flags(l.area_and_flags)),
        bounds: LeafBounds::Short { mins: l.mins, maxs: l.maxs },
        first_leaf_face: l.first_leaf_face as u32,
        leaf_face_count: l.leaf_face_count as u32,
        first_leaf_brush: l.first_leaf_brush as u32,
        leaf_brush_count: l.leaf_brush_count as u32,
        leaf_water_data_id: l.leaf_water_data_id as i32,
        cube: None,
    }
}

pub open spec fn spec_from_v2(l: LeafV2) -> Leaf {
    Leaf {
        contents: l.contents,
        cluster: l.cluster,
        area_and_flags: PackedAreaAndFlags(l.area_and_flags),
        bounds: LeafBounds::Float { mins_bits: l.mins_bits, maxs_bits: l.maxs_bits },
        first_leaf_face: l.first_leaf_face,
        leaf_face_count: l.leaf_face_count,
        first_leaf_brush: l.first_leaf_brush,
        leaf_brush_count: l.leaf_brush_count,
        leaf_water_data_id: l.leaf_water_data_id,
        cube: None,
    }
}

/// Record size of a leaf of `version`, if the version is known.
pub open spec fn leaf_size(version: u32) -> Option<nat> {
    if version == 0 {
        Some(56)
    } else if version == 1 {
        Some(32)
    } else if version == 2 {
        Some(56)
    } else {
        None
    }
}

/// The leaf of `version` whose record starts at `at`.
pub open spec fn spec_leaf(version: u32, s: Seq<u8>, at: int) -> Leaf {
    if version == 0 {
        spec_from_v0(LeafV0::spec_read(s, at))
    } else if version == 1 {
        spec_from_v1(LeafV1::spec_read(s, at))
    } else {
        spec_from_v2(LeafV2::spec_read(s, at))
    }
}

impl Leaf {
    pub fn from_v0(l: LeafV0) -> (r: Leaf)
        ensures
            r == spec_from_v0(l),
    {
        Leaf {
            contents: l.contents,
            cluster: l.cluster as i32,
            area_and_flags: PackedAreaAndFlags::from_i16(l.area_and_flags),
            bounds: LeafBounds::Short { mins: l.mins, maxs: l.maxs },
            first_leaf_face: l.first_leaf_face as u32,
            leaf_face_count: l.leaf_face_count as u32,
            first_leaf_brush: l.first_leaf_brush as u32,
            leaf_brush_count: l.leaf_brush_count as u32,
            leaf_water_data_id: l.leaf_water_data_id as i32,
            cube: Some(l.cube),
        }
    }

    pub fn from_v1(l: LeafV1) -> (r: Leaf)
        ensures
            r == spec_from_v1(l),
    {
        Leaf {
            contents: l.contents,
            cluster: l.cluster as i32,
            area_and_flags: PackedAreaAndFlags::from_i16(l.area_and_flags),
            bounds: LeafBounds::Short { mins: l.mins, maxs: l.maxs },
            first_leaf_face: l.first_leaf_face as u32,
            leaf_face_count: l.leaf_face_count as u32,
            first_leaf_brush: l.first_leaf_brush as u32,
            leaf_brush_count: l.leaf_brush_count as u32,
            leaf_water_data_id: l.leaf_water_data_id as i32,
            cube: None,
        }
    }

    pub fn from_v2(l: LeafV2) -> (r: Leaf)
        ensures
            r == spec_from_v2(l),
    {
        Leaf {
            contents: l.contents,
            cluster: l.cluster,
            area_and_flags: PackedAreaAndFlags(l.area_and_flags),
            bounds: LeafBounds::Float { mins_bits: l.mins_bits, maxs_bits: l.maxs_bits },
            first_leaf_face: l.first_leaf_face,
            leaf_face_count: l.leaf_face_count,
            first_leaf_brush: l.first_leaf_brush,
            leaf_brush_count: l.leaf_brush_count,
            leaf_water_data_id: l.leaf_water_data_id,
            cube: None,
        }
    }

    /// Decode the leaf of `args.version` at `at`; an unknown version is an
    /// error.
    pub fn read(bytes: &[u8], at: usize, args: LeafArgs) -> (r: Result<Leaf, BspError>)
        requires
            leaf_size(args.version) matches Some(n) ==> at + n <= bytes@.len(),
        ensures
            leaf_size(args.version) is None ==> (r matches Err(BspError::LumpVersion(u)) && u == (
            UnsupportedLumpVersion { lump_type: "leaves", version: args.version as u16 })),
            leaf_size(args.version) is Some ==> r == Ok::<Leaf, BspError>(spec_leaf(args.version, bytes@, at as int)),
    {
        if args.version == 0 {
            Ok(Leaf::from_v0(LeafV0::read(bytes, at)))
        } else if args.version == 1 {
            Ok(Leaf::from_v1(LeafV1::read(bytes, at)))
        } else if args.version == 2 {
            Ok(Leaf::from_v2(LeafV2::read(bytes, at)))
        } else {
            Err(BspError::LumpVersion(UnsupportedLumpVersion { lump_type: "leaves", version: args.version as u16 }))
        }
    }
}

/// Every leaf of a LEAVES lump.
#[derive(Debug, Clone)]
pub struct Leaves {
    leaves: Vec<Leaf>,
}

impl View for Leaves {
    type V = Seq<Leaf>;

    closed spec fn view(&self) -> Seq<Leaf> {
        self.leaves@
    }
}

impl Leaves {
    pub fn new(leaves: Vec<Leaf>) -> (r: Leaves)
        ensures
            r@ == leaves@,
    {
        Leaves { leaves }
    }

    pub fn into_inner(self) -> (r: Vec<Leaf>)
        ensures
            r@ == self@,
    {
        self.leaves
    }

    pub fn len(&self) -> (r: usize)
        ensures
            r == self@.len(),
    {
        self.leaves.len()
    }

    pub fn is_empty(&self) -> (r: bool)
        ensures
            r == (self@.len() == 0),
    {
        self.leaves.len() == 0
    }

    /// Leaf `i`, if there is one.
    pub fn get(&self, i: usize) -> (r: Option<&Leaf>)
        ensures
            i < self@.len() ==> r == Some(&self@[i as int]),
            i >= self@.len() ==> r is None,
    {
        if i < self.leaves.len() {
            Some(&self.leaves[i])
        } else {
            None
        }
    }

    /// Decode the first `args.length` bytes of `bytes` as leaves of
    /// `args.version`. An unknown version, or a length that is not a whole
    /// number of records, is an error.
    pub fn read(bytes: &[u8], args: LumpArgs) -> (r: Result<Leaves, BspError>)
        requires
            args.length <= bytes@.len(),
        ensures
            leaf_size(args.version) is None ==> (r matches Err(BspError::LumpVersion(u)) && u == (
            UnsupportedLumpVersion { lump_type: "leaves", version: args.version as u16 })),
            leaf_size(args.version) matches Some(n) ==> {
                if (args.length as nat) % n != 0 {
                    r matches Err(BspError::InvalidLumpSize { lump, element_size, lump_size }) && lump == args.type_
                        && element_size == n && lump_size == args.length
                } else {
                    r matches Ok(leaves) && leaves@.len() == (args.length as nat) / n && forall|i: int|
                        0 <= i < leaves@.len() ==> #[trigger] leaves@[i] == spec_leaf(args.version, bytes@, i * n)
                }
            },
    {
        let item_size: usize = if args.version == 0 {
            56
        } else if args.version == 1 {
            32
        } else if args.version == 2 {
            56
        } else {
            return Err(
                BspError::LumpVersion(UnsupportedLumpVersion { lump_type: "leaves", version: args.version as u16 }),
            );
        };
        if args.length % item_size != 0 {
            return Err(BspError::InvalidLumpSize { lump: args.type_, element_size: item_size, lump_size: args.length });
        }
        let count = args.length / item_size;
        let mut leaves: Vec<Leaf> = Vec::new();
        let mut k: usize = 0;
        while k < count
            invariant
                leaf_size(args.version) == Some(item_size as nat),
                count * item_size == args.length,
                args.length <= bytes@.len(),
                k <= count,
                leaves@.len() == k,
                forall|i: int| 0 <= i < k ==> #[trigger] leaves@[i] == spec_leaf(args.version, bytes@, i * item_size),
            decreases count - k,
        {
            assert(k * item_size + item_size <= count * item_size) by (nonlinear_arith)
                requires k < count;
            let leaf = Leaf::read(bytes, k * item_size, LeafArgs { version: args.version });
            match leaf {
                Ok(l) => {
                    leaves.push(l);
                },
                Err(e) => {
                    return Err(e);
                },
            }
            k = k + 1;
        }
        Ok(Leaves { leaves })
    }
}

} // verus!
