//! Lightmap data of the Quake-family formats: grayscale in Quake 1, RGB in
//! GoldSrc and Quake 2 and in `.lit` files.

use vstd::prelude::*;

use crate::qbsp::reader::{can_read, out_of_bounds, BspByteReader};
use crate::qbsp::{magic_at, BspFormat, BspParseContext, BspParseError};

verus! {

/// Lighting data stored in a BSP file or a neighbouring `.lit` file.
#[derive(Clone, Debug)]
pub enum BspLighting {
    Grayscale(Vec<u8>),
    Colored(Vec<[u8; 3]>),
}

/// `bytes` read as RGB triples.
pub open spec fn rgb_triples(bytes: Seq<u8>) -> Seq<[u8; 3]> {
    Seq::new(bytes.len() / 3, |i: int| [bytes[3 * i], bytes[3 * i + 1], bytes[3 * i + 2]])
}

/// Split `bytes`, a multiple of 3 long, into RGB triples.
pub fn to_triples(bytes: &[u8]) -> (r: Vec<[u8; 3]>)
    requires
        bytes@.len() % 3 == 0,
    ensures
        r@ == rgb_triples(bytes@),
{
    let n = bytes.len() / 3;
    let mut out: Vec<[u8; 3]> = Vec::new();
    let mut i: usize = 0;
    let mut j: usize = 0;
    while i < n
        invariant
            n == bytes@.len() / 3,
            bytes@.len() % 3 == 0,
            i <= n,
            j == 3 * i,
            j <= bytes@.len(),
            out@.len() == i,
            forall|k: int| 0 <= k < i ==> #[trigger] out@[k] == rgb_triples(bytes@)[k],
        decreases n - i,
    {
        out.push([bytes[j], bytes[j + 1], bytes[j + 2]]);
        i = i + 1;
        j = j + 3;
    }
    assert(out@ =~= rgb_triples(bytes@));
    out
}

impl BspLighting {
    /// The number of pixels.
    pub open spec fn spec_len(&self) -> int {
        match self {
            BspLighting::Grayscale(v) => v@.len() as int,
            BspLighting::Colored(v) => v@.len() as int,
        }
    }

    /// Pixel `i` as an RGB colour: a grayscale value repeated three times.
    pub open spec fn spec_get(&self, i: int) -> Option<[u8; 3]> {
        if 0 <= i < self.spec_len() {
            match self {
                BspLighting::Grayscale(v) => Some([v@[i], v@[i], v@[i]]),
                BspLighting::Colored(v) => Some(v@[i]),
            }
        } else {
            None
        }
    }

    /// Pixel `i` as an RGB colour, if there is one.
    pub fn get(&self, i: usize) -> (r: Option<[u8; 3]>)
        ensures
            r == self.spec_get(i as int),
    {
        match self {
            BspLighting::Grayscale(v) => {
                if i < v.len() {
                    let g = v[i];
                    Some([g, g, g])
                } else {
                    None
                }
            },
            BspLighting::Colored(v) => {
                if i < v.len() {
                    Some(v[i])
                } else {
                    None
                }
            },
        }
    }

    /// The total number of pixels.
    pub fn len(&self) -> (r: usize)
        ensures
            r == self.spec_len(),
    {
        match self {
            BspLighting::Grayscale(v) => v.len(),
            BspLighting::Colored(v) => v.len(),
        }
    }

    /// The number of bytes: one per grayscale pixel, three per RGB one.
    pub open spec fn spec_bytes(&self) -> int {
        if self is Grayscale {
            self.spec_len()
        } else {
            3 * self.spec_len()
        }
    }

    /// The total number of bytes: one per grayscale pixel, three per RGB one.
    /// The count must fit in `usize`.
    pub fn bytes(&self) -> (r: usize)
        requires
            self.spec_bytes() <= usize::MAX,
        ensures
            r == self.spec_bytes(),
    {
        match self {
            BspLighting::Grayscale(v) => v.len(),
            BspLighting::Colored(v) => v.len() * 3,
        }
    }

    /// Lighting holds no bytes exactly when it holds no pixels.
    pub proof fn lemma_bytes_zero_iff_empty(&self)
        ensures
            (self.spec_bytes() == 0) == (self.spec_len() == 0),
            self.spec_bytes() >= self.spec_len() >= 0,
    {
    }

    /// Whether there are no pixels.
    pub fn is_empty(&self) -> (r: bool)
        ensures
            r == (self.spec_len() == 0),
    {
        self.len() == 0
    }

    /// The rest of the reader as lighting: grayscale bytes for Quake 1, RGB
    /// triples otherwise, which must then come out even.
    pub fn parse(reader: &mut BspByteReader) -> (r: Result<BspLighting, BspParseError>)
        requires
            old(reader).cursor() <= old(reader).data().len(),
        ensures
            final(reader).data() == old(reader).data(),
            final(reader).context() == old(reader).context(),
            r is Ok ==> final(reader).cursor() == old(reader).data().len(),
            ({
                let rest = old(reader).data().subrange(old(reader).cursor(), old(reader).data().len() as int);
                if old(reader).context().format is BSP2 || old(reader).context().format is BSP29 {
                    r matches Ok(BspLighting::Grayscale(v)) && v@ == rest
                } else if rest.len() % 3 != 0 {
                    r matches Err(BspParseError::ColorDataSizeNotDevisableBy3(n)) && n == rest.len()
                } else {
                    r matches Ok(BspLighting::Colored(v)) && v@ == rgb_triples(rest)
                }
            }),
    {
        match reader.format() {
            BspFormat::BSP2 | BspFormat::BSP29 => {
                let rest = reader.read_rest();
                Ok(BspLighting::Grayscale(crate::le::copy_range(rest, 0, rest.len())))
            },
            _ => {
                let ghost before = *reader;
                assert(before.cursor() <= before.data().len());
                proof {
                    before.lemma_cursor_nonneg();
                }
                let total = reader.len();
                assert(total == before.data().len() - before.cursor());
                let rest = reader.read_rest();
                assert(rest@ == before.data().subrange(before.cursor(), before.data().len() as int));
                assert(rest@.len() == total);
                if total % 3 != 0 {
                    return Err(BspParseError::ColorDataSizeNotDevisableBy3(total));
                }
                Ok(BspLighting::Colored(to_triples(rest)))
            },
        }
    }
}

/// `"QLIT"`.
pub open spec fn magic_qlit() -> Seq<u8> {
    seq![0x51u8, 0x4C, 0x49, 0x54]
}

/// Colored lighting from a `.lit` file: `"QLIT"`, a version, then RGB
/// triples. With `ignore_header` the whole input is triples.
pub fn read_lit(data: &[u8], ctx: &BspParseContext, ignore_header: bool) -> (r: Result<Vec<[u8; 3]>, BspParseError>)
    ensures
        ({
            let start: int = if ignore_header { 0 } else { 8 };
            let body = data@.subrange(start, data@.len() as int);
            if !ignore_header && data@.len() < 4 {
                r matches Err(BspParseError::BufferOutOfBounds { from, to, size }) && from == 0 && to == 4 && size
                    == data@.len()
            } else if !ignore_header && !magic_at(data@, 0, magic_qlit()) {
                r matches Err(BspParseError::WrongMagicNumber { found, expected: _ }) && found@ == data@.subrange(0, 4)
            } else if !ignore_header && data@.len() < 8 {
                r matches Err(BspParseError::BufferOutOfBounds { from, to, size }) && from == 4 && to == 8 && size
                    == data@.len()
            } else if body.len() % 3 != 0 {
                r matches Err(BspParseError::ColorDataSizeNotDevisableBy3(n)) && n == body.len()
            } else {
                r matches Ok(v) && v@ == rgb_triples(body)
            }
        }),
{
    let _n = data.len();
    let mut reader = BspByteReader::new(data, ctx);
    if !ignore_header {
        let magic = reader.read_magic()?;
        if !(magic[0] == 0x51 && magic[1] == 0x4C && magic[2] == 0x49 && magic[3] == 0x54) {
            assert(magic@ != magic_qlit());
            return Err(BspParseError::WrongMagicNumber { found: magic, expected: "QLIT" });
        }
        assert(magic@ =~= magic_qlit());
        let _version = reader.read_i32()?;
    }
    let len = reader.len();
    if len % 3 != 0 {
        return Err(BspParseError::ColorDataSizeNotDevisableBy3(len));
    }
    let rest = reader.read_rest();
    Ok(to_triples(rest))
}

/// An offset into the lightmap, in pixels.
#[derive(Debug, Clone, Copy, PartialEq, Eq)]
pub struct LightmapOffset {
    pub pixels: i32,
}

/// An offset stored as a number of pixels (Quake 1).
#[derive(Debug, Clone, Copy, PartialEq, Eq)]
pub struct PixelLightmapOffset {
    pub pixel_offset: i32,
}

/// An offset stored as a number of bytes (GoldSrc and Quake 2, always RGB).
#[derive(Debug, Clone, Copy, PartialEq, Eq)]
pub struct ByteLightmapOffset {
    pub byte_offset: i32,
}

impl LightmapOffset {
    pub fn from_pixels(o: PixelLightmapOffset) -> (r: Self)
        ensures
            r.pixels == o.pixel_offset,
    {
        LightmapOffset { pixels: o.pixel_offset }
    }

    /// A byte offset into RGB data, in pixels: a third of it, rounded toward
    /// zero.
    pub fn from_bytes(o: ByteLightmapOffset) -> (r: Self)
        ensures
            r.pixels == if o.byte_offset >= 0 {
                o.byte_offset / 3
            } else {
                -((-o.byte_offset) / 3)
            },
    {
        LightmapOffset { pixels: o.byte_offset / 3 }
    }

    /// Read an offset in the reader's format: pixels for Quake 1, bytes
    /// (converted to pixels) otherwise.
    pub fn parse(reader: &mut BspByteReader) -> (r: Result<LightmapOffset, BspParseError>)
        requires
            old(reader).cursor() + 4 <= usize::MAX,
        ensures
            final(reader).data() == old(reader).data(),
            final(reader).context() == old(reader).context(),
            can_read(*old(reader), 4) ==> final(reader).cursor() == old(reader).cursor() + 4 && ({
                let v = crate::le::le_i32(old(reader).data(), old(reader).cursor());
                let f = old(reader).context().format;
                r matches Ok(o) && if f is BSP2 || f is BSP29 {
                    o.pixels == v
                } else {
                    o.pixels == v / 3 || (v < 0 && o.pixels == -((-v) / 3))
                }
            }),
            !can_read(*old(reader), 4) ==> (r matches Err(e) && out_of_bounds(*old(reader), 4, e)),
    {
        let v = reader.read_i32()?;
        match reader.format() {
            BspFormat::BSP2 | BspFormat::BSP29 => Ok(LightmapOffset::from_pixels(PixelLightmapOffset { pixel_offset: v })),
            _ => Ok(LightmapOffset::from_bytes(ByteLightmapOffset { byte_offset: v })),
        }
    }
}

/// How a lightmap appears: 255 is no lightmap, 0 unanimated, the rest
/// animated styles.
#[derive(Debug, Clone, Copy, PartialEq, Eq, Hash)]
pub struct LightmapStyle(pub u8);

impl LightmapStyle {
    /// Unanimated lightmap.
    pub const NORMAL: u8 = 0;
    /// No lightmap.
    pub const NONE: u8 = 255;

    /// The style's description: `0 (normal)`, `255 (no lightmap)`, or its
    /// number.
    pub fn describe(&self) -> (r: Option<&'static str>)
        ensures
            self.0 == 0 ==> r == Some("0 (normal)"),
            self.0 == 255 ==> r == Some("255 (no lightmap)"),
            self.0 != 0 && self.0 != 255 ==> r is None,
    {
        match self.0 {
            0 => Some("0 (normal)"),
            255 => Some("255 (no lightmap)"),
            _ => None,
        }
    }
}

/// How a lightmap atlas is built.
#[derive(Debug, Clone, Copy, PartialEq, Eq)]
pub struct ComputeLightmapSettings {
    /// The colour of atlas pixels no lightmap covers.
    pub default_color: [u8; 3],
    /// The colour of the pixel reserved for faces with neither a lightmap
    /// nor the `special` flag.
    pub no_lighting_color: [u8; 3],
    /// The colour of the pixel reserved for faces without a lightmap but
    /// with the `special` flag.
    pub special_lighting_color: [u8; 3],
    pub max_width: u32,
    pub max_height: u32,
    /// Pixels of padding around each island, stretching its edges.
    pub extrusion: u32,
}

impl Default for ComputeLightmapSettings {
    /// Black, black and white; 2048 wide, unbounded height, no padding.
    fn default() -> (r: Self)
        ensures
            r == (ComputeLightmapSettings {
                default_color: [0, 0, 0],
                no_lighting_color: [0, 0, 0],
                special_lighting_color: [255, 255, 255],
                max_width: 2048,
                max_height: u32::MAX,
                extrusion: 0,
            }),
    {
        ComputeLightmapSettings {
            default_color: [0, 0, 0],
            no_lighting_color: [0, 0, 0],
            special_lighting_color: [255, 255, 255],
            max_width: 2048,
            max_height: u32::MAX,
            extrusion: 0,
        }
    }
}

} // verus!
