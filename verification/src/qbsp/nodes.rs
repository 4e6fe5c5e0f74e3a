//! The node tree of the Quake-family formats: node references, leaf
//! contents and the small records around them.

use vstd::prelude::*;

use crate::le::{le_i16, le_i32, le_u32};
use crate::qbsp::reader::{can_read, out_of_bounds, BspByteReader};
use crate::qbsp::values::{IBspValue, UBspValue};
use crate::qbsp::{BspFormat, BspParseError};

verus! {

/// A reference to a node or a leaf. Stored signed: negative values name the
/// leaf `-1 - value` (so `-1` is leaf 0, which means out of bounds).
#[derive(Debug, Clone, Copy, PartialEq, Eq)]
pub enum BspNodeRef<T> {
    Node(T),
    Leaf(T),
}

impl<T: Copy> BspNodeRef<T> {
    /// The node index, if this refers to a node.
    pub fn node(&self) -> (r: Option<T>)
        ensures
            r == match *self {
                BspNodeRef::Node(i) => Some(i),
                BspNodeRef::Leaf(_) => None::<T>,
            },
    {
        match *self {
            BspNodeRef::Node(i) => Some(i),
            BspNodeRef::Leaf(_) => None,
        }
    }

    /// The leaf index, if this refers to a leaf. `Some(0)` means out of
    /// bounds.
    pub fn leaf(&self) -> (r: Option<T>)
        ensures
            r == match *self {
                BspNodeRef::Leaf(i) => Some(i),
                BspNodeRef::Node(_) => None::<T>,
            },
    {
        match *self {
            BspNodeRef::Leaf(i) => Some(i),
            BspNodeRef::Node(_) => None,
        }
    }
}

/// The reference a signed 32-bit value stands for.
pub open spec fn spec_node_ref_32(value: i32) -> BspNodeRef<u32> {
    if value < 0 {
        BspNodeRef::Leaf((-1 - value) as u32)
    } else {
        BspNodeRef::Node(value as u32)
    }
}

/// The reference a signed 16-bit value stands for.
pub open spec fn spec_node_ref_16(value: i16) -> BspNodeRef<u16> {
    if value < 0 {
        BspNodeRef::Leaf((-1 - value) as u16)
    } else {
        BspNodeRef::Node(value as u16)
    }
}

impl BspNodeRef<u32> {
    /// Decode a 32-bit reference: negative values are leaves, `-1 - value`.
    pub fn from_i32(value: i32) -> (r: Self)
        ensures
            r == spec_node_ref_32(value),
    {
        if value < 0 {
            BspNodeRef::Leaf((-1 - value as i64) as u32)
        } else {
            BspNodeRef::Node(value as u32)
        }
    }

    /// Widen a 16-bit reference.
    pub fn from_u16_ref(value: BspNodeRef<u16>) -> (r: Self)
        ensures
            r == match value {
                BspNodeRef::Node(i) => BspNodeRef::Node(i as u32),
                BspNodeRef::Leaf(i) => BspNodeRef::Leaf(i as u32),
            },
    {
        match value {
            BspNodeRef::Node(v) => BspNodeRef::Node(v as u32),
            BspNodeRef::Leaf(v) => BspNodeRef::Leaf(v as u32),
        }
    }
}

impl BspNodeRef<u16> {
    /// Decode a 16-bit reference: negative values are leaves, `-1 - value`.
    pub fn from_i16(value: i16) -> (r: Self)
        ensures
            r == spec_node_ref_16(value),
    {
        if value < 0 {
            BspNodeRef::Leaf((-1 - value as i32) as u16)
        } else {
            BspNodeRef::Node(value as u16)
        }
    }
}

/// Decoding a reference and encoding it back gives the stored value: leaf
/// `l` is stored as `-1 - l` and node `n` as `n`.
pub proof fn lemma_node_ref_32_roundtrip(value: i32)
    ensures
        match spec_node_ref_32(value) {
            BspNodeRef::Leaf(l) => value < 0 && value == -1 - l,
            BspNodeRef::Node(n) => value >= 0 && value == n,
        },
{
}

/// The 16-bit form decodes like the 32-bit one.
pub proof fn lemma_node_ref_widths_agree(value: i16)
    ensures
        spec_node_ref_32(value as i32) == match spec_node_ref_16(value) {
            BspNodeRef::Node(i) => BspNodeRef::Node(i as u32),
            BspNodeRef::Leaf(i) => BspNodeRef::Leaf(i as u32),
        },
{
}

/// A child reference of a node: 16-bit for BSP29 and BSP30, 32-bit
/// otherwise.
#[derive(Debug, Clone, Copy, PartialEq, Eq)]
pub struct BspNodeSubRef(pub BspNodeRef<u32>);

/// Whether node references are stored in 16 bits.
pub open spec fn short_node_refs(f: BspFormat) -> bool {
    f is BSP29 || f is BSP30
}

impl BspNodeSubRef {
    /// Read a reference in the reader's format.
    pub fn parse(reader: &mut BspByteReader) -> (r: Result<BspNodeSubRef, BspParseError>)
        requires
            old(reader).cursor() + 4 <= usize::MAX,
        ensures
            final(reader).data() == old(reader).data(),
            final(reader).context() == old(reader).context(),
            ({
                let short = short_node_refs(old(reader).context().format);
                let n: int = if short { 2 } else { 4 };
                let d = old(reader).data();
                let c = old(reader).cursor();
                &&& can_read(*old(reader), n) ==> final(reader).cursor() == c + n && r == Ok::<
                    BspNodeSubRef,
                    BspParseError,
                >(BspNodeSubRef(spec_node_ref_32(if short { le_i16(d, c) as i32 } else { le_i32(d, c) })))
                &&& !can_read(*old(reader), n) ==> (r matches Err(e) && out_of_bounds(*old(reader), n, e))
            }),
    {
        match reader.format() {
            BspFormat::BSP29 | BspFormat::BSP30 => {
                let v = reader.read_i16()?;
                proof {
                    lemma_node_ref_widths_agree(v);
                }
                Ok(BspNodeSubRef(BspNodeRef::from_u16_ref(BspNodeRef::from_i16(v))))
            },
            _ => {
                let v = reader.read_i32()?;
                Ok(BspNodeSubRef(BspNodeRef::from_i32(v)))
            },
        }
    }
}

/// Quake 1 leaf contents, stored as negative numbers.
#[derive(Debug, Clone, Copy, PartialEq, Eq, Default)]
pub enum Bsp29LeafContents {
    /// Ordinary leaf (air).
    #[default]
    Empty,
    Solid,
    Water,
    Slime,
    Lava,
    Sky,
    Clip,
    Current0,
    Current90,
    Current180,
    Current270,
    CurrentUp,
    CurrentDown,
}

/// The contents a stored value stands for: `-1` to `-6` and `-8` to `-14`
/// (`-7`, origin, is removed when compiling).
pub open spec fn spec_bsp29_contents(v: i32) -> Option<Bsp29LeafContents> {
    if v == -1 {
        Some(Bsp29LeafContents::Empty)
    } else if v == -2 {
        Some(Bsp29LeafContents::Solid)
    } else if v == -3 {
        Some(Bsp29LeafContents::Water)
    } else if v == -4 {
        Some(Bsp29LeafContents::Slime)
    } else if v == -5 {
        Some(Bsp29LeafContents::Lava)
    } else if v == -6 {
        Some(Bsp29LeafContents::Sky)
    } else if v == -8 {
        Some(Bsp29LeafContents::Clip)
    } else if v == -9 {
        Some(Bsp29LeafContents::Current0)
    } else if v == -10 {
        Some(Bsp29LeafContents::Current90)
    } else if v == -11 {
        Some(Bsp29LeafContents::Current180)
    } else if v == -12 {
        Some(Bsp29LeafContents::Current270)
    } else if v == -13 {
        Some(Bsp29LeafContents::CurrentUp)
    } else if v == -14 {
        Some(Bsp29LeafContents::CurrentDown)
    } else {
        None
    }
}

impl Bsp29LeafContents {
    /// The stored value of these contents.
    pub open spec fn spec_value(self) -> i32 {
        match self {
            Bsp29LeafContents::Empty => -1i32,
            Bsp29LeafContents::Solid => -2i32,
            Bsp29LeafContents::Water => -3i32,
            Bsp29LeafContents::Slime => -4i32,
            Bsp29LeafContents::Lava => -5i32,
            Bsp29LeafContents::Sky => -6i32,
            Bsp29LeafContents::Clip => -8i32,
            Bsp29LeafContents::Current0 => -9i32,
            Bsp29LeafContents::Current90 => -10i32,
            Bsp29LeafContents::Current180 => -11i32,
            Bsp29LeafContents::Current270 => -12i32,
            Bsp29LeafContents::CurrentUp => -13i32,
            Bsp29LeafContents::CurrentDown => -14i32,
        }
    }

    /// The contents a stored value stands for, or `InvalidVariant`.
    pub fn from_value(v: i32) -> (r: Result<Bsp29LeafContents, BspParseError>)
        ensures
            spec_bsp29_contents(v) matches Some(c) ==> r == Ok::<Bsp29LeafContents, BspParseError>(c),
            spec_bsp29_contents(v) is None ==> (r matches Err(BspParseError::InvalidVariant { value, acceptable: _ })
                && value == v),
    {
        match v {
            -1 => Ok(Bsp29LeafContents::Empty),
            -2 => Ok(Bsp29LeafContents::Solid),
            -3 => Ok(Bsp29LeafContents::Water),
            -4 => Ok(Bsp29LeafContents::Slime),
            -5 => Ok(Bsp29LeafContents::Lava),
            -6 => Ok(Bsp29LeafContents::Sky),
            -8 => Ok(Bsp29LeafContents::Clip),
            -9 => Ok(Bsp29LeafContents::Current0),
            -10 => Ok(Bsp29LeafContents::Current90),
            -11 => Ok(Bsp29LeafContents::Current180),
            -12 => Ok(Bsp29LeafContents::Current270),
            -13 => Ok(Bsp29LeafContents::CurrentUp),
            -14 => Ok(Bsp29LeafContents::CurrentDown),
            _ => Err(
                BspParseError::InvalidVariant {
                    value: v,
                    acceptable: "-1 (Empty), -2 (Solid), -3 (Water), -4 (Slime), -5 (Lava), -6 (Sky), -8 (Clip), -9 to -14 (Current)",
                },
            ),
        }
    }
}

/// Decoding is exactly the inverse of the stored value.
pub proof fn lemma_bsp29_contents_roundtrip(c: Bsp29LeafContents, v: i32)
    ensures
        spec_bsp29_contents(c.spec_value()) == Some(c),
        spec_bsp29_contents(v) matches Some(d) ==> d.spec_value() == v,
{
}

/// [`Bsp29LeafContents`] stored as an `i16`.
#[derive(Debug, Clone, Copy, PartialEq, Eq, Default)]
pub struct ShortBsp29LeafContents(pub Bsp29LeafContents);

/// Leaf contents bit flags (Quake 2 and GoldSrc store these directly).
#[derive(Debug, Clone, Copy, PartialEq, Eq)]
pub struct BspLeafContentFlags(pub u32);

impl BspLeafContentFlags {
    pub const SOLID: u32 = 0x1;
    pub const WINDOW: u32 = 0x2;
    pub const AUX: u32 = 0x4;
    pub const LAVA: u32 = 0x8;
    pub const SLIME: u32 = 0x10;
    pub const WATER: u32 = 0x20;
    pub const MIST: u32 = 0x40;
    pub const AREA_PORTAL: u32 = 0x8000;
    pub const PLAYER_CLIP: u32 = 0x1_0000;
    pub const MONSTER_CLIP: u32 = 0x2_0000;
    pub const CURRENT_0: u32 = 0x4_0000;
    pub const CURRENT_90: u32 = 0x8_0000;
    pub const CURRENT_180: u32 = 0x10_0000;
    pub const CURRENT_270: u32 = 0x20_0000;
    pub const CURRENT_UP: u32 = 0x40_0000;
    pub const CURRENT_DOWN: u32 = 0x80_0000;
    pub const ORIGIN: u32 = 0x100_0000;
    pub const MONSTER: u32 = 0x200_0000;
    pub const DEAD_MONSTER: u32 = 0x400_0000;
    pub const DETAIL: u32 = 0x800_0000;
    pub const TRANSLUCENT: u32 = 0x1000_0000;
    pub const LADDER: u32 = 0x2000_0000;
    pub const UNUSED1: u32 = 0x4000_0000;
    pub const UNUSED2: u32 = 0x8000_0000;
    /// Every defined flag.
    pub const ALL: u32 = 0xFFFF_807F;

    /// The defined flags of `bits`; undefined bits are dropped.
    pub fn from_bits_truncate(bits: u32) -> (r: Self)
        ensures
            r.0 == bits & Self::ALL,
    {
        BspLeafContentFlags(bits & Self::ALL)
    }

    /// The flags Quake 1 contents map to: sky and clip trace as solid,
    /// empty is no flag.
    pub open spec fn spec_from_bsp29(c: Bsp29LeafContents) -> u32 {
        match c {
            Bsp29LeafContents::Empty => 0,
            Bsp29LeafContents::Solid => Self::SOLID,
            Bsp29LeafContents::Water => Self::WATER,
            Bsp29LeafContents::Slime => Self::SLIME,
            Bsp29LeafContents::Lava => Self::LAVA,
            Bsp29LeafContents::Sky => Self::SOLID,
            Bsp29LeafContents::Clip => Self::SOLID,
            Bsp29LeafContents::Current0 => Self::CURRENT_0,
            Bsp29LeafContents::Current90 => Self::CURRENT_90,
            Bsp29LeafContents::Current180 => Self::CURRENT_180,
            Bsp29LeafContents::Current270 => Self::CURRENT_270,
            Bsp29LeafContents::CurrentUp => Self::CURRENT_UP,
            Bsp29LeafContents::CurrentDown => Self::CURRENT_DOWN,
        }
    }

    pub fn from_bsp29(c: Bsp29LeafContents) -> (r: Self)
        ensures
            r.0 == Self::spec_from_bsp29(c),
    {
        match c {
            Bsp29LeafContents::Empty => BspLeafContentFlags(0),
            Bsp29LeafContents::Solid => BspLeafContentFlags(Self::SOLID),
            Bsp29LeafContents::Water => BspLeafContentFlags(Self::WATER),
            Bsp29LeafContents::Slime => BspLeafContentFlags(Self::SLIME),
            Bsp29LeafContents::Lava => BspLeafContentFlags(Self::LAVA),
            Bsp29LeafContents::Sky => BspLeafContentFlags(Self::SOLID),
            Bsp29LeafContents::Clip => BspLeafContentFlags(Self::SOLID),
            Bsp29LeafContents::Current0 => BspLeafContentFlags(Self::CURRENT_0),
            Bsp29LeafContents::Current90 => BspLeafContentFlags(Self::CURRENT_90),
            Bsp29LeafContents::Current180 => BspLeafContentFlags(Self::CURRENT_180),
            Bsp29LeafContents::Current270 => BspLeafContentFlags(Self::CURRENT_270),
            Bsp29LeafContents::CurrentUp => BspLeafContentFlags(Self::CURRENT_UP),
            Bsp29LeafContents::CurrentDown => BspLeafContentFlags(Self::CURRENT_DOWN),
        }
    }
}

/// A leaf's contents as flags, whatever the format stored.
#[derive(Debug, Copy, Clone, PartialEq, Eq)]
pub struct BspLeafContents(pub BspLeafContentFlags);

impl BspLeafContents {
    /// Read contents in the reader's format: a Quake 1 contents value for
    /// BSP29 and BSP2, flags otherwise.
    pub fn parse(reader: &mut BspByteReader) -> (r: Result<BspLeafContents, BspParseError>)
        requires
            old(reader).cursor() + 4 <= usize::MAX,
        ensures
            final(reader).data() == old(reader).data(),
            final(reader).context() == old(reader).context(),
            r is Ok ==> final(reader).cursor() == old(reader).cursor() + 4,
            ({
                let f = old(reader).context().format;
                let v = le_i32(old(reader).data(), old(reader).cursor());
                &&& !can_read(*old(reader), 4) ==> (r matches Err(e) && out_of_bounds(*old(reader), 4, e))
                &&& can_read(*old(reader), 4) && (f is BSP29 || f is BSP2) ==> match spec_bsp29_contents(v) {
                    Some(c) => r matches Ok(lc) && lc.0.0 == BspLeafContentFlags::spec_from_bsp29(c),
                    None => r matches Err(BspParseError::InvalidVariant { value, acceptable: _ }) && value == v,
                }
                &&& can_read(*old(reader), 4) && !(f is BSP29 || f is BSP2) ==> (r matches Ok(lc) && lc.0.0
                    == le_u32(old(reader).data(), old(reader).cursor()) & BspLeafContentFlags::ALL)
            }),
    {
        match reader.format() {
            BspFormat::BSP29 | BspFormat::BSP2 => {
                let v = reader.read_i32()?;
                let contents = Bsp29LeafContents::from_value(v)?;
                Ok(BspLeafContents(BspLeafContentFlags::from_bsp29(contents)))
            },
            _ => {
                let bits = reader.read_u32()?;
                Ok(BspLeafContents(BspLeafContentFlags::from_bits_truncate(bits)))
            },
        }
    }
}

/// A clip node: a plane and its two children.
#[derive(Debug, Clone, Copy, PartialEq, Eq)]
pub struct BspClipNode {
    pub plane_idx: u32,
    pub front: BspNodeSubRef,
    pub back: BspNodeSubRef,
}

impl BspClipNode {
    pub fn parse(reader: &mut BspByteReader) -> (r: Result<BspClipNode, BspParseError>)
        requires
            old(reader).cursor() + 12 <= usize::MAX,
        ensures
            final(reader).data() == old(reader).data(),
            final(reader).context() == old(reader).context(),
            ({
                let short = short_node_refs(old(reader).context().format);
                let n: int = if short { 8 } else { 12 };
                let d = old(reader).data();
                let c = old(reader).cursor();
                let at = |k: int| if short { le_i16(d, c + 4 + 2 * k) as i32 } else { le_i32(d, c + 4 + 4 * k) };
                &&& can_read(*old(reader), n) ==> final(reader).cursor() == c + n && r == Ok::<BspClipNode, BspParseError>(
                    BspClipNode {
                        plane_idx: le_u32(d, c),
                        front: BspNodeSubRef(spec_node_ref_32(at(0))),
                        back: BspNodeSubRef(spec_node_ref_32(at(1))),
                    },
                )
                &&& !can_read(*old(reader), n) ==> r is Err
            }),
    {
        let plane_idx = reader.read_u32()?;
        let front = BspNodeSubRef::parse(reader)?;
        let back = BspNodeSubRef::parse(reader)?;
        Ok(BspClipNode { plane_idx, front, back })
    }
}

/// A leaf's area: Quake 2 only.
#[derive(Debug, Copy, Clone, PartialEq, Eq)]
pub struct BspAreaIdx(pub Option<u32>);

/// A leaf's run of leaf brushes: Quake 2 only.
#[derive(Debug, Clone, Copy, PartialEq, Eq)]
pub struct BspLeafBrushes {
    pub idx: UBspValue,
    pub num: UBspValue,
}

/// A leaf's ambient sound levels: not in Quake 2.
#[derive(Debug, Clone, Copy, PartialEq, Eq)]
pub struct BspAmbience {
    pub water: u8,
    pub sky: u8,
    pub slime: u8,
    pub lava: u8,
}

/// The orientation of a plane's normal.
#[derive(Debug, Clone, Copy, PartialEq, Eq)]
pub enum BspPlaneType {
    /// Axial plane, in X.
    AxialX,
    AxialY,
    AxialZ,
    /// Non-axial plane, roughly toward X.
    AroundX,
    AroundY,
    AroundZ,
}

impl BspPlaneType {
    pub open spec fn spec_from_u32(v: u32) -> Option<BspPlaneType> {
        if v == 0 {
            Some(BspPlaneType::AxialX)
        } else if v == 1 {
            Some(BspPlaneType::AxialY)
        } else if v == 2 {
            Some(BspPlaneType::AxialZ)
        } else if v == 3 {
            Some(BspPlaneType::AroundX)
        } else if v == 4 {
            Some(BspPlaneType::AroundY)
        } else if v == 5 {
            Some(BspPlaneType::AroundZ)
        } else {
            None
        }
    }

    /// The plane type a stored value stands for, or `InvalidVariant`.
    pub fn from_value(v: u32) -> (r: Result<BspPlaneType, BspParseError>)
        ensures
            Self::spec_from_u32(v) matches Some(t) ==> r == Ok::<BspPlaneType, BspParseError>(t),
            Self::spec_from_u32(v) is None ==> (r matches Err(BspParseError::InvalidVariant { value, acceptable: _ })
                && value == v as i32),
    {
        match v {
            0 => Ok(BspPlaneType::AxialX),
            1 => Ok(BspPlaneType::AxialY),
            2 => Ok(BspPlaneType::AxialZ),
            3 => Ok(BspPlaneType::AroundX),
            4 => Ok(BspPlaneType::AroundY),
            5 => Ok(BspPlaneType::AroundZ),
            _ => Err(
                BspParseError::InvalidVariant {
                    value: v as i32,
                    acceptable: "0 (AxialX), 1 (AxialY), 2 (AxialZ), 3 (AroundX), 4 (AroundY), 5 (AroundZ)",
                },
            ),
        }
    }

    /// The type's stored value: the axis index of an axial plane (0, 1, 2),
    /// or 3 and up otherwise.
    pub fn axis(self) -> (r: usize)
        ensures
            r < 6,
            Self::spec_from_u32(r as u32) == Some(self),
            r < 3 <==> (self is AxialX || self is AxialY || self is AxialZ),
    {
        match self {
            BspPlaneType::AxialX => 0,
            BspPlaneType::AxialY => 1,
            BspPlaneType::AxialZ => 2,
            BspPlaneType::AroundX => 3,
            BspPlaneType::AroundY => 4,
            BspPlaneType::AroundZ => 5,
        }
    }
}

/// A plane: its normal and distance as `f32` bit patterns, and its type.
#[derive(Debug, Clone, Copy, PartialEq, Eq)]
pub struct BspPlane {
    pub normal: [u32; 3],
    pub dist: u32,
    pub ty: BspPlaneType,
}

impl BspPlane {
    /// Read a plane: three `f32` normal components, the `f32` distance and a
    /// `u32` type, 20 bytes in every format.
    pub fn parse(reader: &mut BspByteReader) -> (r: Result<BspPlane, BspParseError>)
        requires
            old(reader).cursor() + 20 <= usize::MAX,
        ensures
            final(reader).data() == old(reader).data(),
            final(reader).context() == old(reader).context(),
            ({
                let d = old(reader).data();
                let c = old(reader).cursor();
                &&& can_read(*old(reader), 20) ==> final(reader).cursor() == c + 20 && match BspPlaneType::spec_from_u32(
                    le_u32(d, c + 16),
                ) {
                    Some(ty) => r == Ok::<BspPlane, BspParseError>(
                        BspPlane {
                            normal: [le_u32(d, c), le_u32(d, c + 4), le_u32(d, c + 8)],
                            dist: le_u32(d, c + 12),
                            ty,
                        },
                    ),
                    None => r matches Err(BspParseError::InvalidVariant { value, acceptable: _ }) && value == le_u32(
                        d,
                        c + 16,
                    ) as i32,
                }
                &&& !can_read(*old(reader), 20) ==> r is Err
            }),
    {
        let x = reader.read_u32()?;
        let y = reader.read_u32()?;
        let z = reader.read_u32()?;
        let dist = reader.read_u32()?;
        let t = reader.read_u32()?;
        let ty = BspPlaneType::from_value(t)?;
        Ok(BspPlane { normal: [x, y, z], dist, ty })
    }
}

/// An axis-aligned box as stored: `u16` corners in the formats with short
/// boxes, `f32` bit patterns in BSP2 and Qbism.
#[derive(Debug, Clone, Copy, PartialEq, Eq)]
pub enum BoundingBox {
    Short { min: [u16; 3], max: [u16; 3] },
    Float { min: [u32; 3], max: [u32; 3] },
}

/// A node of the BSP tree.
#[derive(Debug, Clone, Copy, PartialEq, Eq)]
pub struct BspNode {
    /// Index of the plane that splits the node.
    pub plane_idx: u32,
    pub front: BspNodeSubRef,
    pub back: BspNodeSubRef,
    /// Bounds of the node and all its children.
    pub bound: BoundingBox,
    /// Index of the first face the node contains.
    pub face_idx: UBspValue,
    /// Number of faces the node contains.
    pub face_num: UBspValue,
}

/// Where a leaf's visibility lies: an offset into the visibility lump for
/// the formats before Quake 2, a cluster for Quake 2. Negative means none.
#[derive(Debug, Clone, Copy, PartialEq, Eq)]
pub enum VisDataRef {
    Offset(i32),
    Cluster(i32),
}

/// A leaf of the BSP tree.
#[derive(Debug, Clone, Copy, PartialEq, Eq)]
pub struct BspLeaf {
    pub contents: BspLeafContents,
    pub visdata: VisDataRef,
    pub area: BspAreaIdx,
    pub bound: BoundingBox,
    /// Index of the leaf's first mark surface (leaf face, for Quake 2).
    pub face_idx: UBspValue,
    pub face_num: UBspValue,
    pub ambience: Option<BspAmbience>,
    pub leaf_brushes: Option<BspLeafBrushes>,
}

/// A Quake 2 brush: a run of brush sides and the brush's contents.
#[derive(Debug, Clone, Copy, PartialEq, Eq)]
pub struct BspBrush {
    pub first_side: i32,
    pub num_sides: i32,
    pub contents: i32,
}

/// A side of a Quake 2 brush: its plane and texture info.
#[derive(Debug, Clone, Copy, PartialEq, Eq)]
pub struct BspBrushSide {
    pub plane_idx: UBspValue,
    pub texture_info: IBspValue,
}

} // verus!
