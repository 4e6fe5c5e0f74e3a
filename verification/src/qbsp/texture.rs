//! Textures and surface flags of the Quake-family formats.

use vstd::prelude::*;

use crate::le::{le_i16, le_i32, le_u32};
use crate::qbsp::lighting::{rgb_triples, to_triples};
use crate::qbsp::reader::{can_read, out_of_bounds, BspByteReader};
use crate::qbsp::values::{clear_after_nul, FixedStr};
use crate::qbsp::{BspFormat, BspParseError, BspParseResultDoingJobExt};
use vstd::utf8::valid_utf8;

verus! {

/// A 256-colour id Tech 2 palette.
#[derive(Debug, Clone)]
pub struct Palette {
    pub colors: [[u8; 3]; 256],
}

impl Palette {
    /// A palette from exactly 768 bytes of RGB triples.
    pub fn parse(data: &[u8]) -> (r: Result<Palette, BspParseError>)
        ensures
            data@.len() != 768 ==> (r matches Err(BspParseError::InvalidPaletteLength(n)) && n == data@.len()),
            data@.len() == 768 ==> (r matches Ok(p) && p.colors@ == rgb_triples(data@)),
    {
        if data.len() != 768 {
            return Err(BspParseError::InvalidPaletteLength(data.len()));
        }
        let triples = to_triples(data);
        let mut colors = [[0u8; 3]; 256];
        let mut i: usize = 0;
        while i < 256
            invariant
                i <= 256,
                triples@.len() == 256,
                colors@.len() == 256,
                forall|k: int| 0 <= k < i ==> #[trigger] colors@[k] == triples@[k],
            decreases 256 - i,
        {
            colors[i] = triples[i];
            i = i + 1;
        }
        assert(colors@ =~= triples@);
        Ok(Palette { colors })
    }

    /// A palette stored as an `i16` colour count, which must be 256, and
    /// then the colours.
    pub fn parse_counted(reader: &mut BspByteReader) -> (r: Result<Palette, BspParseError>)
        requires
            old(reader).cursor() + 770 <= usize::MAX,
        ensures
            final(reader).data() == old(reader).data(),
            final(reader).context() == old(reader).context(),
            ({
                let d = old(reader).data();
                let c = old(reader).cursor();
                &&& !can_read(*old(reader), 2) ==> (r matches Err(e) && out_of_bounds(*old(reader), 2, e))
                &&& can_read(*old(reader), 2) && le_i16(d, c) != 256 ==> (r matches Err(
                    BspParseError::InvalidPaletteLength(n),
                ) && n == le_i16(d, c) as usize)
                &&& can_read(*old(reader), 2) && le_i16(d, c) == 256 && !can_read(*old(reader), 770) ==> r is Err
                &&& can_read(*old(reader), 770) && le_i16(d, c) == 256 ==> (r matches Ok(p) && p.colors@ == rgb_triples(
                    d.subrange(c + 2, c + 770),
                )) && final(reader).cursor() == c + 770
            }),
    {
        proof {
            reader.lemma_cursor_nonneg();
        }
        let num_colors = reader.read_i16()?;
        if num_colors != 256 {
            return Err(BspParseError::InvalidPaletteLength(num_colors as usize));
        }
        let colors = reader.read_bytes(768)?;
        Palette::parse(colors)
    }
}

/// Quake 1 texture flags.
#[derive(Debug, Clone, Copy, PartialEq, Eq, Default, Hash)]
pub enum BspTexFlags {
    /// Normal lightmapped surface.
    #[default]
    Normal,
    /// No lighting or 256 subdivision.
    Special,
    /// Texture cannot be found.
    Missing,
}

impl BspTexFlags {
    pub open spec fn spec_from_u32(v: u32) -> Option<BspTexFlags> {
        if v == 0 {
            Some(BspTexFlags::Normal)
        } else if v == 1 {
            Some(BspTexFlags::Special)
        } else if v == 2 {
            Some(BspTexFlags::Missing)
        } else {
            None
        }
    }

    /// The flags a stored value stands for, or `InvalidVariant`.
    pub fn from_value(v: u32) -> (r: Result<BspTexFlags, BspParseError>)
        ensures
            Self::spec_from_u32(v) matches Some(t) ==> r == Ok::<BspTexFlags, BspParseError>(t),
            Self::spec_from_u32(v) is None ==> (r matches Err(BspParseError::InvalidVariant { value, acceptable: _ })
                && value == v as i32),
    {
        match v {
            0 => Ok(BspTexFlags::Normal),
            1 => Ok(BspTexFlags::Special),
            2 => Ok(BspTexFlags::Missing),
            _ => Err(BspParseError::InvalidVariant { value: v as i32, acceptable: "0 (Normal), 1 (Special), 2 (Missing)" }),
        }
    }
}

/// Quake 2 and GoldSrc surface flags.
#[derive(Debug, Copy, Clone, PartialEq, Eq)]
pub struct BspSurfaceFlags(pub u32);

impl BspSurfaceFlags {
    pub const NO_DAMAGE: u32 = 0x1;
    pub const SLICK: u32 = 0x2;
    pub const SKY: u32 = 0x4;
    pub const WARP: u32 = 0x8;
    pub const NO_IMPACT: u32 = 0x10;
    pub const NO_MARKS: u32 = 0x20;
    pub const FLESH: u32 = 0x40;
    pub const NO_DRAW: u32 = 0x80;
    pub const HINT: u32 = 0x100;
    pub const SKIP: u32 = 0x200;
    pub const NO_LIGHTMAP: u32 = 0x400;
    pub const POINT_LIGHT: u32 = 0x800;
    pub const METAL_STEPS: u32 = 0x1000;
    pub const NO_STEPS: u32 = 0x2000;
    pub const NON_SOLID: u32 = 0x4000;
    pub const LIGHT_FILTER: u32 = 0x8000;
    pub const ALPHA_SHADOW: u32 = 0x1_0000;
    pub const NO_DLIGHT: u32 = 0x2_0000;
    pub const UNUSED1: u32 = 0x4_0000;
    pub const UNUSED2: u32 = 0x8_0000;
    /// Every defined flag.
    pub const ALL: u32 = 0xF_FFFF;

    /// The defined flags of `bits`; undefined bits are dropped.
    pub fn from_bits_truncate(bits: u32) -> (r: Self)
        ensures
            r.0 == bits & Self::ALL,
    {
        BspSurfaceFlags(bits & Self::ALL)
    }
}

/// Texture flags for Quake 1 formats, surface flags for the others.
#[derive(Debug, Clone, Copy, PartialEq, Eq)]
pub struct BspTexInfoFlags {
    /// `None` for GoldSrc and Quake 2, where the texture name tells.
    pub texture_flags: Option<BspTexFlags>,
    /// Always empty for BSP29 and BSP2.
    pub surface_flags: BspSurfaceFlags,
}

impl BspTexInfoFlags {
    /// Read the flags in the reader's format.
    pub fn parse(reader: &mut BspByteReader) -> (r: Result<BspTexInfoFlags, BspParseError>)
        requires
            old(reader).cursor() + 4 <= usize::MAX,
        ensures
            final(reader).data() == old(reader).data(),
            final(reader).context() == old(reader).context(),
            r is Ok ==> final(reader).cursor() == old(reader).cursor() + 4,
            ({
                let f = old(reader).context().format;
                let v = le_u32(old(reader).data(), old(reader).cursor());
                &&& !can_read(*old(reader), 4) ==> (r matches Err(e) && out_of_bounds(*old(reader), 4, e))
                &&& can_read(*old(reader), 4) && (f is BSP29 || f is BSP2) ==> match BspTexFlags::spec_from_u32(v) {
                    Some(t) => r == Ok::<BspTexInfoFlags, BspParseError>(
                        BspTexInfoFlags { texture_flags: Some(t), surface_flags: BspSurfaceFlags(0) },
                    ),
                    None => r matches Err(BspParseError::InvalidVariant { value, acceptable: _ }) && value == v as i32,
                }
                &&& can_read(*old(reader), 4) && !(f is BSP29 || f is BSP2) ==> r == Ok::<BspTexInfoFlags, BspParseError>(
                    BspTexInfoFlags { texture_flags: None, surface_flags: BspSurfaceFlags(v & BspSurfaceFlags::ALL) },
                )
            }),
    {
        match reader.format() {
            BspFormat::BSP29 | BspFormat::BSP2 => {
                let v = reader.read_u32()?;
                let t = BspTexFlags::from_value(v)?;
                Ok(BspTexInfoFlags { texture_flags: Some(t), surface_flags: BspSurfaceFlags(0) })
            },
            _ => {
                let v = reader.read_u32()?;
                Ok(BspTexInfoFlags { texture_flags: None, surface_flags: BspSurfaceFlags::from_bits_truncate(v) })
            },
        }
    }
}

/// A texinfo's index into the embedded textures; not in Quake 2.
#[derive(Debug, Copy, Clone, PartialEq, Eq)]
pub struct TextureIdxField(pub Option<u32>);

/// Texture data Quake 2 stores on the texinfo itself.
#[derive(Debug, Clone, PartialEq, Eq)]
pub struct BspTexQ2Info {
    /// Brightness: 255 is normal, more is emissive.
    pub value: u32,
    pub name: FixedStr<32>,
    /// The next frame of an animated texture.
    pub next: i32,
}

impl BspTexQ2Info {
    /// Brightness of a texture displayed as in Quake 1.
    pub const UNIT_TEXTURE_BRIGHTNESS: u32 = 255;

    /// Read the value, a 32-byte name and the next frame.
    pub fn parse(reader: &mut BspByteReader) -> (r: Result<BspTexQ2Info, BspParseError>)
        requires
            old(reader).cursor() + 40 <= usize::MAX,
        ensures
            final(reader).data() == old(reader).data(),
            final(reader).context() == old(reader).context(),
            ({
                let d = old(reader).data();
                let c = old(reader).cursor();
                let raw = d.subrange(c + 4, c + 36);
                &&& can_read(*old(reader), 40) ==> (r is Ok <==> valid_utf8(clear_after_nul(raw)))
                &&& can_read(*old(reader), 40) ==> (r matches Ok(q) ==> q.value == le_u32(d, c) && q.name.wf()
                    && q.name.bytes() == clear_after_nul(raw) && q.next == le_i32(d, c + 36) && final(reader).cursor()
                    == c + 40)
                &&& !can_read(*old(reader), 40) ==> r is Err
            }),
    {
        proof {
            reader.lemma_cursor_nonneg();
        }
        let value = reader.read_u32()?;
        let name = FixedStr::<32>::parse(reader)?;
        let next = reader.read_i32()?;
        Ok(BspTexQ2Info { value, name, next })
    }

    /// How much brighter than normal an emissive texture is, in 255ths, less
    /// one: `None` unless `value` exceeds 255.
    pub fn emissive_steps(&self) -> (r: Option<u32>)
        ensures
            self.value <= 255 ==> r is None,
            self.value > 255 ==> r == Some((self.value - 255) as u32),
    {
        match self.value.checked_sub(Self::UNIT_TEXTURE_BRIGHTNESS + 1) {
            Some(b) => Some(b + 1),
            None => None,
        }
    }
}

/// Texture info data only Quake 2 has.
#[derive(Debug, Clone, PartialEq, Eq)]
pub struct Q2InfoField(pub Option<BspTexQ2Info>);

/// A GoldSrc per-texture palette; other formats have none.
#[derive(Debug, Clone)]
pub struct Wad3Palette(pub Option<Palette>);

impl Wad3Palette {
    /// Read a counted palette for BSP30; nothing for other formats.
    pub fn parse(reader: &mut BspByteReader) -> (r: Result<Wad3Palette, BspParseError>)
        requires
            old(reader).cursor() + 770 <= usize::MAX,
        ensures
            final(reader).data() == old(reader).data(),
            final(reader).context() == old(reader).context(),
            !(old(reader).context().format is BSP30) ==> (r matches Ok(p) && p.0 is None) && final(reader).cursor()
                == old(reader).cursor(),
            old(reader).context().format is BSP30 ==> ((r is Ok) <==> (can_read(*old(reader), 770) && le_i16(
                old(reader).data(),
                old(reader).cursor(),
            ) == 256)),
            old(reader).context().format is BSP30 && r is Ok ==> final(reader).cursor() == old(reader).cursor() + 770,
            old(reader).context().format is BSP30 && r is Ok ==> (r matches Ok(p) && p.0 matches Some(pal)
                && pal.colors@ == rgb_triples(
                old(reader).data().subrange(old(reader).cursor() + 2, old(reader).cursor() + 770),
            )),
    {
        match reader.format() {
            BspFormat::BSP30 => {
                let p = Palette::parse_counted(reader)?;
                Ok(Wad3Palette(Some(p)))
            },
            _ => Ok(Wad3Palette(None)),
        }
    }
}

/// The pixel data of an embedded texture, one palette index per pixel, at
/// full, half, quarter and eighth resolution.
#[derive(Clone, Debug)]
pub struct BspTextureData {
    pub full: Option<Vec<u8>>,
    pub half: Option<Vec<u8>>,
    pub quarter: Option<Vec<u8>>,
    pub eighth: Option<Vec<u8>>,
    pub palette: Wad3Palette,
}

/// An embedded texture's header.
#[derive(Debug, Clone)]
pub struct BspTextureHeader {
    pub name: FixedStr<16>,
    pub width: u32,
    pub height: u32,
    /// Offsets of each mip level from the start of the header; 0 for none.
    pub offset_full: u32,
    pub offset_half: u32,
    pub offset_quarter: u32,
    pub offset_eighth: u32,
}

impl BspTextureHeader {
    /// Read a 16-byte name and six `u32`s.
    pub fn parse(reader: &mut BspByteReader) -> (r: Result<BspTextureHeader, BspParseError>)
        requires
            old(reader).cursor() + 40 <= usize::MAX,
        ensures
            final(reader).data() == old(reader).data(),
            final(reader).context() == old(reader).context(),
            ({
                let d = old(reader).data();
                let c = old(reader).cursor();
                let raw = d.subrange(c, c + 16);
                &&& can_read(*old(reader), 40) ==> (r is Ok <==> valid_utf8(clear_after_nul(raw)))
                &&& can_read(*old(reader), 40) ==> (r matches Ok(h) ==> h.name.wf() && h.name.bytes()
                    == clear_after_nul(raw) && h.width == le_u32(d, c + 16) && h.height == le_u32(d, c + 20)
                    && h.offset_full == le_u32(d, c + 24) && h.offset_half == le_u32(d, c + 28) && h.offset_quarter
                    == le_u32(d, c + 32) && h.offset_eighth == le_u32(d, c + 36) && final(reader).cursor() == c + 40)
                &&& !can_read(*old(reader), 40) ==> r is Err
            }),
    {
        proof {
            reader.lemma_cursor_nonneg();
        }
        let name = FixedStr::<16>::parse(reader)?;
        let width = reader.read_u32()?;
        let height = reader.read_u32()?;
        let offset_full = reader.read_u32()?;
        let offset_half = reader.read_u32()?;
        let offset_quarter = reader.read_u32()?;
        let offset_eighth = reader.read_u32()?;
        Ok(BspTextureHeader { name, width, height, offset_full, offset_half, offset_quarter, offset_eighth })
    }
}

/// An embedded texture.
#[derive(Debug, Clone)]
pub struct BspMipTexture {
    pub header: BspTextureHeader,
    pub data: BspTextureData,
}

/// The bytes of one mip level of `len` pixels at `start + offset`, if the
/// level exists (`offset != 0`) and the data holds it.
pub open spec fn mip_level(d: Seq<u8>, start: int, offset: u32, len: int) -> Option<Seq<u8>> {
    if offset == 0 {
        None
    } else {
        Some(d.subrange(start + offset, start + offset + len))
    }
}

/// The bytes of an optional buffer.
pub open spec fn opt_bytes(o: Option<Vec<u8>>) -> Option<Seq<u8>> {
    match o {
        Some(v) => Some(v@),
        None => None,
    }
}

/// Whether a mip level can be read: it is absent, or lies inside the data.
pub open spec fn mip_level_ok(d: Seq<u8>, start: int, offset: u32, len: int) -> bool {
    offset == 0 || start + offset + len <= d.len()
}

/// Read a mip level of `len` bytes at `start + offset`, leaving the reader
/// after it; an absent level (`offset == 0`) reads nothing.
fn read_level(reader: &mut BspByteReader, start: usize, offset: u32, len: u64) -> (r: Result<Option<Vec<u8>>, BspParseError>)
    requires
        start <= old(reader).data().len(),
        old(reader).cursor() <= old(reader).data().len(),
    ensures
        final(reader).data() == old(reader).data(),
        final(reader).context() == old(reader).context(),
        r is Ok ==> final(reader).cursor() <= final(reader).data().len(),
        (r is Ok) == mip_level_ok(old(reader).data(), start as int, offset, len as int),
        r matches Ok(o) ==> match mip_level(old(reader).data(), start as int, offset, len as int) {
            None => o is None && final(reader).cursor() == old(reader).cursor(),
            Some(b) => o matches Some(v) && v@ == b && final(reader).cursor() == start + offset + len,
        },
        r matches Err(e) ==> (e matches BspParseError::DoingJob(_, inner) && *inner is BufferOutOfBounds),
{
    if offset == 0 {
        return Ok(None);
    }
    let size = reader.data_len();
    let pos = start as u128 + offset as u128;
    let end = pos + len as u128;
    if end > size as u128 {
        let from: usize = if pos > size as u128 { size } else { pos as usize };
        let inner = BspParseError::BufferOutOfBounds {
            from,
            to: if end > usize::MAX as u128 { usize::MAX } else { end as usize },
            size,
        };
        return Err(inner).job("Reading mip level");
    }
    *reader = reader.with_pos(pos as usize);
    let bytes = reader.read_bytes(len as usize)?;
    Ok(Some(crate::le::copy_range(bytes, 0, bytes.len())))
}

/// Where the reader stands after a mip level: past the level when it is
/// present, unmoved otherwise.
pub open spec fn after_level(pos: int, start: int, offset: u32, len: int) -> int {
    if offset == 0 {
        pos
    } else {
        start + offset + len
    }
}

/// Pixels in a mip level of a `w × h` texture that divides each side by `k`.
pub open spec fn mip_len(w: u32, h: u32, k: int) -> int {
    (w as int / k) * (h as int / k)
}

/// Where the reader stands after the four mip levels of the texture whose
/// header starts at `c`.
pub open spec fn after_levels(d: Seq<u8>, c: int) -> int {
    let (w, h) = (le_u32(d, c + 16), le_u32(d, c + 20));
    let p1 = after_level(c + 40, c, le_u32(d, c + 24), mip_len(w, h, 1));
    let p2 = after_level(p1, c, le_u32(d, c + 28), mip_len(w, h, 2));
    let p3 = after_level(p2, c, le_u32(d, c + 32), mip_len(w, h, 4));
    after_level(p3, c, le_u32(d, c + 36), mip_len(w, h, 8))
}

/// Whether the texture whose header starts at `c` has no pixel data: a zero
/// side, or no mip offsets.
pub open spec fn mip_texture_empty(d: Seq<u8>, c: int) -> bool {
    le_u32(d, c + 16) == 0 || le_u32(d, c + 20) == 0 || (le_u32(d, c + 24) == 0 && le_u32(d, c + 28) == 0
        && le_u32(d, c + 32) == 0 && le_u32(d, c + 36) == 0)
}

/// Whether the texture whose header starts at `c` parses: a whole header
/// with a UTF-8 name, then (when it has data) every present level inside
/// the data and, for GoldSrc, a 256-colour palette after the last level.
pub open spec fn mip_texture_ok(d: Seq<u8>, c: int, format: BspFormat) -> bool {
    let (w, h) = (le_u32(d, c + 16), le_u32(d, c + 20));
    &&& c + 40 <= d.len()
    &&& valid_utf8(clear_after_nul(d.subrange(c, c + 16)))
    &&& !mip_texture_empty(d, c) ==> {
        &&& mip_level_ok(d, c, le_u32(d, c + 24), mip_len(w, h, 1))
        &&& mip_level_ok(d, c, le_u32(d, c + 28), mip_len(w, h, 2))
        &&& mip_level_ok(d, c, le_u32(d, c + 32), mip_len(w, h, 4))
        &&& mip_level_ok(d, c, le_u32(d, c + 36), mip_len(w, h, 8))
        &&& format is BSP30 ==> after_levels(d, c) + 770 <= d.len() && le_i16(d, after_levels(d, c)) == 256
    }
}

/// Whether `t` is the texture whose header starts at `c`: its header fields,
/// and the bytes of each mip level present and of a GoldSrc palette after
/// the last level read. A texture with a zero side, or with no mip offsets,
/// has no data.
pub open spec fn mip_texture_at(d: Seq<u8>, c: int, format: BspFormat, t: BspMipTexture) -> bool {
    let h = t.header;
    let after = after_levels(d, c);
    &&& h.name.bytes() == clear_after_nul(d.subrange(c, c + 16))
    &&& h.width == le_u32(d, c + 16) && h.height == le_u32(d, c + 20)
    &&& h.offset_full == le_u32(d, c + 24) && h.offset_half == le_u32(d, c + 28)
    &&& h.offset_quarter == le_u32(d, c + 32) && h.offset_eighth == le_u32(d, c + 36)
    &&& if mip_texture_empty(d, c) {
        t.data.full is None && t.data.half is None && t.data.quarter is None && t.data.eighth is None
            && t.data.palette.0 is None
    } else {
        &&& opt_bytes(t.data.full) == mip_level(d, c, h.offset_full, BspMipTexture::level_len(h, 1))
        &&& opt_bytes(t.data.half) == mip_level(d, c, h.offset_half, BspMipTexture::level_len(h, 2))
        &&& opt_bytes(t.data.quarter) == mip_level(d, c, h.offset_quarter, BspMipTexture::level_len(h, 4))
        &&& opt_bytes(t.data.eighth) == mip_level(d, c, h.offset_eighth, BspMipTexture::level_len(h, 8))
        &&& (t.data.palette.0 is Some) == (format is BSP30)
        &&& t.data.palette.0 matches Some(pal) ==> pal.colors@ == rgb_triples(d.subrange(after + 2, after + 770))
    }
}

impl BspMipTexture {
    /// Pixels in a mip level that divides each side by `k`.
    pub open spec fn level_len(h: BspTextureHeader, k: int) -> int {
        (h.width as int / k) * (h.height as int / k)
    }

    /// Read an embedded texture at the reader's position. A texture with a
    /// zero side, or with no mip offsets, has no data; otherwise each present
    /// level is read at its offset from the header, and a GoldSrc palette
    /// follows the last level read.
    pub fn parse(reader: &mut BspByteReader) -> (r: Result<BspMipTexture, BspParseError>)
        requires
            old(reader).cursor() + 40 <= usize::MAX,
            old(reader).data().len() + 770 <= usize::MAX,
        ensures
            final(reader).data() == old(reader).data(),
            final(reader).context() == old(reader).context(),
            (r is Ok) == mip_texture_ok(old(reader).data(), old(reader).cursor(), old(reader).context().format),
            r is Ok ==> final(reader).cursor() == if mip_texture_empty(old(reader).data(), old(reader).cursor()) {
                old(reader).cursor() + 40
            } else if old(reader).context().format is BSP30 {
                after_levels(old(reader).data(), old(reader).cursor()) + 770
            } else {
                after_levels(old(reader).data(), old(reader).cursor())
            },
            r matches Ok(t) ==> mip_texture_at(old(reader).data(), old(reader).cursor(), old(reader).context().format, t),
    {
        proof {
            reader.lemma_cursor_nonneg();
        }
        let start = reader.pos();
        let header = BspTextureHeader::parse(reader)?;
        let empty = BspTextureData { full: None, half: None, quarter: None, eighth: None, palette: Wad3Palette(None) };
        if header.width == 0 || header.height == 0 {
            return Ok(BspMipTexture { header, data: empty });
        }
        if header.offset_full == 0 && header.offset_half == 0 && header.offset_quarter == 0 && header.offset_eighth == 0 {
            return Ok(BspMipTexture { header, data: empty });
        }
        let w = header.width as u64;
        let h = header.height as u64;
        proof {
            assert(w * h <= 0xFFFF_FFFFu64 * 0xFFFF_FFFFu64) by (nonlinear_arith)
                requires
                    w <= 0xFFFF_FFFF,
                    h <= 0xFFFF_FFFF,
            ;
            assert((w / 2) * (h / 2) <= w * h) by (nonlinear_arith);
            assert((w / 4) * (h / 4) <= w * h) by (nonlinear_arith);
            assert((w / 8) * (h / 8) <= w * h) by (nonlinear_arith);
        }
        let full = read_level(reader, start, header.offset_full, w * h)?;
        let half = read_level(reader, start, header.offset_half, (w / 2) * (h / 2))?;
        let quarter = read_level(reader, start, header.offset_quarter, (w / 4) * (h / 4))?;
        let eighth = read_level(reader, start, header.offset_eighth, (w / 8) * (h / 8))?;
        proof {
            reader.lemma_cursor_nonneg();
            assert(reader.cursor() == after_levels(old(reader).data(), start as int));
        }
        let palette = Wad3Palette::parse(reader)?;
        Ok(BspMipTexture { header, data: BspTextureData { full, half, quarter, eighth, palette } })
    }
}


/// The `i`-th texture offset of a texture lump whose count starts at `c`.
pub open spec fn mip_lump_offset(d: Seq<u8>, c: int, i: int) -> i32 {
    le_i32(d, c + 4 + 4 * i)
}

/// Whether a texture lump whose count starts at `c` parses: the count and
/// every offset lie inside the data, and every texture at a non-negative
/// offset parses.
pub open spec fn mip_lump_ok(d: Seq<u8>, c: int, format: BspFormat) -> bool {
    &&& c + 4 <= d.len()
    &&& c + 4 + 4 * le_u32(d, c) <= d.len()
    &&& forall|i: int|
        0 <= i < le_u32(d, c) ==> #[trigger] mip_lump_offset(d, c, i) < 0 || mip_texture_ok(
            d,
            mip_lump_offset(d, c, i) as int,
            format,
        )
}

/// Whether `e` is the `i`-th entry of the texture lump whose count starts at
/// `c`: none for a negative offset, else the texture at that offset.
pub open spec fn mip_lump_entry(d: Seq<u8>, c: int, format: BspFormat, i: int, e: Option<BspMipTexture>) -> bool {
    if mip_lump_offset(d, c, i) < 0 {
        e is None
    } else {
        e matches Some(t) && mip_texture_at(d, mip_lump_offset(d, c, i) as int, format, t)
    }
}

/// Read a texture lump at the reader's position: a `u32` count, then that
/// many `i32` offsets, each the position of a texture in the data or
/// negative for none.
pub fn read_mip_texture_lump(reader: &mut BspByteReader) -> (r: Result<Vec<Option<BspMipTexture>>, BspParseError>)
    requires
        old(reader).cursor() + 4 <= usize::MAX,
        old(reader).data().len() + 770 <= usize::MAX,
    ensures
        final(reader).data() == old(reader).data(),
        final(reader).context() == old(reader).context(),
        (r is Ok) == mip_lump_ok(old(reader).data(), old(reader).cursor(), old(reader).context().format),
        r is Ok ==> final(reader).cursor() == old(reader).cursor() + 4 + 4 * le_u32(
            old(reader).data(),
            old(reader).cursor(),
        ),
        r matches Ok(v) ==> v@.len() == le_u32(old(reader).data(), old(reader).cursor()) && forall|i: int|
            0 <= i < v@.len() ==> mip_lump_entry(
                old(reader).data(),
                old(reader).cursor(),
                old(reader).context().format,
                i,
                #[trigger] v@[i],
            ),
{
    proof {
        reader.lemma_cursor_nonneg();
    }
    let ghost d = reader.data();
    let ghost c = reader.cursor();
    let ghost ctx = reader.context();
    let count = reader.read_u32()?;
    let mut textures: Vec<Option<BspMipTexture>> = Vec::new();
    let mut i: u32 = 0;
    while i < count
        invariant
            reader.data() == d,
            reader.context() == ctx,
            d == old(reader).data(),
            c == old(reader).cursor(),
            ctx == old(reader).context(),
            c >= 0,
            c + 4 <= d.len(),
            d.len() + 770 <= usize::MAX,
            count == le_u32(d, c),
            i <= count,
            reader.cursor() == c + 4 + 4 * i,
            c + 4 + 4 * i <= d.len(),
            textures@.len() == i,
            forall|k: int| 0 <= k < i ==> mip_lump_entry(d, c, ctx.format, k, #[trigger] textures@[k]),
            forall|k: int|
                0 <= k < i ==> #[trigger] mip_lump_offset(d, c, k) < 0 || mip_texture_ok(
                    d,
                    mip_lump_offset(d, c, k) as int,
                    ctx.format,
                ),
        decreases count - i,
    {
        let offset = match reader.read_i32() {
            Ok(v) => v,
            Err(e) => {
                assert(c + 4 + 4 * le_u32(d, c) > d.len());
                return Err(e);
            },
        };
        assert(offset == mip_lump_offset(d, c, i as int));
        if offset < 0 {
            textures.push(None);
        } else {
            let mut at = reader.with_pos(offset as usize);
            let t = match BspMipTexture::parse(&mut at) {
                Ok(t) => t,
                Err(e) => {
                    assert(!(mip_lump_offset(d, c, i as int) < 0 || mip_texture_ok(
                        d,
                        mip_lump_offset(d, c, i as int) as int,
                        ctx.format,
                    )));
                    return Err(e);
                },
            };
            textures.push(Some(t));
        }
        i = i + 1;
    }
    Ok(textures)
}

/// How a texture is laid on a face: the U and V axes and offsets, as `f32`
/// bit patterns.
#[derive(Debug, Clone, Copy, PartialEq, Eq)]
pub struct PlanarTextureProjection {
    pub u_axis: [u32; 3],
    pub u_offset: u32,
    pub v_axis: [u32; 3],
    pub v_offset: u32,
}

/// A texture info: the projection, the texture, its flags, and Quake 2's
/// extra data.
#[derive(Debug, Clone, PartialEq, Eq)]
pub struct BspTexInfo {
    pub projection: PlanarTextureProjection,
    pub texture_idx: TextureIdxField,
    pub flags: BspTexInfoFlags,
    pub extra_info: Q2InfoField,
}

/// Each present mip level of a parsed texture holds exactly its pixels: the
/// level that divides the sides by `k` (1, 2, 4, 8) has `(width / k) *
/// (height / k)` bytes, read at its offset from the header; a level whose
/// offset is zero is absent.
pub proof fn lemma_mip_levels_sized(d: Seq<u8>, c: int, format: BspFormat, t: BspMipTexture)
    requires
        0 <= c,
        mip_texture_ok(d, c, format),
        mip_texture_at(d, c, format, t),
    ensures
        ({
            let (w, h) = (t.header.width as int, t.header.height as int);
            &&& t.data.full matches Some(v) ==> v@.len() == w * h && v@ == d.subrange(
                c + t.header.offset_full,
                c + t.header.offset_full + w * h,
            )
            &&& t.data.half matches Some(v) ==> v@.len() == (w / 2) * (h / 2) && v@ == d.subrange(
                c + t.header.offset_half,
                c + t.header.offset_half + (w / 2) * (h / 2),
            )
            &&& t.data.quarter matches Some(v) ==> v@.len() == (w / 4) * (h / 4) && v@ == d.subrange(
                c + t.header.offset_quarter,
                c + t.header.offset_quarter + (w / 4) * (h / 4),
            )
            &&& t.data.eighth matches Some(v) ==> v@.len() == (w / 8) * (h / 8) && v@ == d.subrange(
                c + t.header.offset_eighth,
                c + t.header.offset_eighth + (w / 8) * (h / 8),
            )
            &&& t.data.eighth is Some ==> t.header.offset_eighth != 0
            &&& t.data.full is Some ==> t.header.offset_full != 0
            &&& t.header.width == le_u32(d, c + 16) && t.header.height == le_u32(d, c + 20)
            &&& t.header.offset_full == le_u32(d, c + 24) && t.header.offset_half == le_u32(d, c + 28)
            &&& t.header.offset_quarter == le_u32(d, c + 32) && t.header.offset_eighth == le_u32(d, c + 36)
            &&& t.header.name.bytes() == clear_after_nul(d.subrange(c, c + 16))
        }),
{
    let (w, h) = (t.header.width as int, t.header.height as int);
    assert(w / 1 == w && h / 1 == h);
    assert(0 <= (w / 2) * (h / 2)) by (nonlinear_arith)
        requires
            w >= 0,
            h >= 0,
    ;
    assert(0 <= (w / 4) * (h / 4)) by (nonlinear_arith)
        requires
            w >= 0,
            h >= 0,
    ;
    assert(0 <= (w / 8) * (h / 8)) by (nonlinear_arith)
        requires
            w >= 0,
            h >= 0,
    ;
    assert(0 <= w * h) by (nonlinear_arith)
        requires
            w >= 0,
            h >= 0,
    ;
}

} // verus!
