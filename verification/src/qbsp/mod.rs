//! Readers for the Quake-family BSP formats: BSP29, BSP2, BSP30 (GoldSrc),
//! BSP38 (Quake 2) and its Qbism extension.

pub mod bspx;
pub mod data;
pub mod lighting;
pub mod lumps;
pub mod models;
pub mod nodes;
pub mod query;
pub mod reader;
pub mod texture;
pub mod util;
pub mod values;

use vstd::prelude::*;

use crate::le::le_u32;
use crate::qbsp::reader::{can_read, out_of_bounds, BspByteReader};
use crate::text::Utf8Failure;

verus! {

/// Points to the chunk of data in the file a lump resides in.
#[derive(Debug, Clone, Copy, PartialEq, Eq)]
pub struct LumpEntry {
    pub offset: u32,
    pub len: u32,
}

/// Why a Quake-family BSP file could not be parsed.
#[derive(Debug)]
pub enum BspParseError {
    InvalidPaletteLength(usize),
    /// The lump reaches past the end of the file.
    LumpOutOfBounds(LumpEntry),
    BufferOutOfBounds { from: usize, to: usize, size: usize },
    /// The bytes at `index` begin an invalid UTF-8 sequence, `sequence`.
    InvalidString { index: usize, sequence: Vec<u8> },
    WrongMagicNumber { found: [u8; 4], expected: &'static str },
    UnsupportedBspVersion { found: u32, expected: &'static str },
    ColorDataSizeNotDevisableBy3(usize),
    InvalidVariant { value: i32, acceptable: &'static str },
    NoBspxDirectory,
    NoBspxLump(String),
    DuplicateBspxLump(String),
    /// What was being done when the inner error occurred.
    DoingJob(String, Box<BspParseError>),
}

/// The error behind any number of [`BspParseError::DoingJob`] layers.
pub open spec fn spec_root(e: BspParseError) -> BspParseError
    decreases e,
{
    match e {
        BspParseError::DoingJob(_, child) => spec_root(*child),
        _ => e,
    }
}

impl BspParseError {
    /// The error behind any [`BspParseError::DoingJob`].
    pub fn root(&self) -> (r: &BspParseError)
        ensures
            *r == spec_root(*self),
            !(*r is DoingJob),
        decreases *self,
    {
        match self {
            BspParseError::DoingJob(_, child) => child.root(),
            _ => self,
        }
    }

    /// The error for bytes `data` that `std::str::from_utf8` rejected with
    /// `err`: where the bad sequence starts, and its bytes (one byte when the
    /// input ended mid-character).
    pub fn map_utf8_error(data: &[u8], err: Utf8Failure) -> (r: BspParseError)
        requires
            err.valid_up_to + match err.error_len {
                Some(l) => l as int,
                None => 1,
            } <= data@.len(),
        ensures
            r matches BspParseError::InvalidString { index, sequence } && index == err.valid_up_to && sequence@
                == data@.subrange(
                err.valid_up_to as int,
                err.valid_up_to + match err.error_len {
                    Some(l) => l as int,
                    None => 1,
                },
            ),
    {
        let _n = data.len();
        let len = match err.error_len {
            Some(l) => l,
            None => 1,
        };
        BspParseError::InvalidString {
            index: err.valid_up_to,
            sequence: crate::le::copy_range(data, err.valid_up_to, err.valid_up_to + len),
        }
    }
}

/// Adds a description of the work in progress to an error.
pub trait BspParseResultDoingJobExt<T>: Sized {
    /// Like `map_err`, wrapping an error in [`BspParseError::DoingJob`].
    fn job(self, job: T) -> Self;
}

impl<'s, V> BspParseResultDoingJobExt<&'s str> for Result<V, BspParseError> {
    fn job(self, job: &'s str) -> (r: Self)
        ensures
            self is Ok ==> r == self,
            self matches Err(e) ==> (r matches Err(BspParseError::DoingJob(s, inner)) && s@ == job@ && *inner
                == e),
    {
        match self {
            Ok(v) => Ok(v),
            Err(err) => Err(BspParseError::DoingJob(job.to_owned(), Box::new(err))),
        }
    }
}

/// The format of a BSP file, given by its magic number.
#[derive(Debug, Clone, Copy, PartialEq, Eq, Default)]
pub enum BspFormat {
    /// Quake 1 with expanded limits.
    #[default]
    BSP2,
    /// Original Quake.
    BSP29,
    /// GoldSrc.
    BSP30,
    /// Quake 2.
    BSP38,
    /// Quake 2 with expanded limits.
    BSP38Qbism,
}

impl BspFormat {
    /// `BSP2`, the format assumed when none is known.
    pub fn default_format() -> (r: Self)
        ensures
            r == BspFormat::BSP2,
    {
        BspFormat::BSP2
    }

    pub open spec fn spec_liquid_prefix(self) -> Option<char> {
        match self {
            BspFormat::BSP2 | BspFormat::BSP29 => Some('*'),
            BspFormat::BSP30 => Some('!'),
            BspFormat::BSP38 | BspFormat::BSP38Qbism => None,
        }
    }

    /// The character that prefixes liquid texture names in the engine that
    /// uses this format: `*` for Quake, `!` for GoldSrc, none for Quake 2.
    pub fn liquid_prefix(self) -> (r: Option<char>)
        ensures
            r == self.spec_liquid_prefix(),
    {
        match self {
            BspFormat::BSP2 | BspFormat::BSP29 => Some('*'),
            BspFormat::BSP30 => Some('!'),
            BspFormat::BSP38 | BspFormat::BSP38Qbism => None,
        }
    }

    pub fn is_quake1(self) -> (r: bool)
        ensures
            r == (self is BSP29 || self is BSP2),
    {
        match self {
            BspFormat::BSP29 | BspFormat::BSP2 => true,
            _ => false,
        }
    }

    pub fn is_goldsrc(self) -> (r: bool)
        ensures
            r == (self is BSP30),
    {
        match self {
            BspFormat::BSP30 => true,
            _ => false,
        }
    }

    pub fn is_quake2(self) -> (r: bool)
        ensures
            r == (self is BSP38 || self is BSP38Qbism),
    {
        match self {
            BspFormat::BSP38 | BspFormat::BSP38Qbism => true,
            _ => false,
        }
    }

    pub open spec fn spec_name(self) -> Seq<char> {
        match self {
            BspFormat::BSP2 => "BSP2"@,
            BspFormat::BSP29 => "BSP29"@,
            BspFormat::BSP30 => "BSP30"@,
            BspFormat::BSP38 => "BSP38"@,
            BspFormat::BSP38Qbism => "BSP38 (Qbism)"@,
        }
    }

    /// The format's display name.
    pub fn name(self) -> (r: &'static str)
        ensures
            r@ == self.spec_name(),
    {
        match self {
            BspFormat::BSP2 => "BSP2",
            BspFormat::BSP29 => "BSP29",
            BspFormat::BSP30 => "BSP30",
            BspFormat::BSP38 => "BSP38",
            BspFormat::BSP38Qbism => "BSP38 (Qbism)",
        }
    }
}

/// Every format is exactly one of Quake 1, GoldSrc and Quake 2.
pub proof fn lemma_format_families_partition(f: BspFormat)
    ensures
        (f is BSP29 || f is BSP2) as int + (f is BSP30) as int + (f is BSP38 || f is BSP38Qbism) as int == 1,
{
}

/// The magic number `m` sits at `at` in `s`.
pub open spec fn magic_at(s: Seq<u8>, at: int, m: Seq<u8>) -> bool {
    s.subrange(at, at + 4) == m
}

pub open spec fn magic_bsp2() -> Seq<u8> {
    seq![0x42u8, 0x53, 0x50, 0x32]
}

pub open spec fn magic_bsp29() -> Seq<u8> {
    seq![0x1Du8, 0, 0, 0]
}

pub open spec fn magic_bsp30() -> Seq<u8> {
    seq![0x1Eu8, 0, 0, 0]
}

pub open spec fn magic_ibsp() -> Seq<u8> {
    seq![0x49u8, 0x42, 0x53, 0x50]
}

pub open spec fn magic_qbsp() -> Seq<u8> {
    seq![0x51u8, 0x42, 0x53, 0x50]
}

impl BspFormat {
    /// Read the format from the magic number at the reader's position.
    /// `IBSP` and `QBSP` are followed by a version, which must be 38.
    pub fn parse(reader: &mut BspByteReader) -> (r: Result<BspFormat, BspParseError>)
        requires
            old(reader).cursor() + 8 <= usize::MAX,
        ensures
            final(reader).data() == old(reader).data(),
            final(reader).context() == old(reader).context(),
            r matches Ok(f) ==> final(reader).cursor() == old(reader).cursor() + if f is BSP38 || f is BSP38Qbism {
                8int
            } else {
                4int
            },
            ({
                let d = old(reader).data();
                let c = old(reader).cursor();
                &&& !can_read(*old(reader), 4) ==> (r matches Err(e) && out_of_bounds(*old(reader), 4, e))
                &&& can_read(*old(reader), 4) ==> {
                    if magic_at(d, c, magic_bsp2()) {
                        r == Ok::<BspFormat, BspParseError>(BspFormat::BSP2)
                    } else if magic_at(d, c, magic_bsp29()) {
                        r == Ok::<BspFormat, BspParseError>(BspFormat::BSP29)
                    } else if magic_at(d, c, magic_bsp30()) {
                        r == Ok::<BspFormat, BspParseError>(BspFormat::BSP30)
                    } else if magic_at(d, c, magic_ibsp()) || magic_at(d, c, magic_qbsp()) {
                        if !can_read(*old(reader), 8) {
                            r matches Err(BspParseError::BufferOutOfBounds { from, to, size }) && from == c + 4 && to
                                == c + 8 && size == d.len()
                        } else if le_u32(d, c + 4) == 38 {
                            r == Ok::<BspFormat, BspParseError>(
                                if magic_at(d, c, magic_ibsp()) {
                                    BspFormat::BSP38
                                } else {
                                    BspFormat::BSP38Qbism
                                },
                            )
                        } else {
                            r matches Err(BspParseError::UnsupportedBspVersion { found, expected: _ }) && found == le_u32(
                                d,
                                c + 4,
                            )
                        }
                    } else {
                        r matches Err(BspParseError::WrongMagicNumber { found, expected: _ }) && found@ == d.subrange(
                            c,
                            c + 4,
                        )
                    }
                }
            }),
    {
        let m = reader.read_magic()?;
        if m[0] == 0x42 && m[1] == 0x53 && m[2] == 0x50 && m[3] == 0x32 {
            assert(m@ =~= magic_bsp2());
            return Ok(BspFormat::BSP2);
        }
        assert(m@ != magic_bsp2());
        if m[0] == 0x1D && m[1] == 0 && m[2] == 0 && m[3] == 0 {
            assert(m@ =~= magic_bsp29());
            return Ok(BspFormat::BSP29);
        }
        assert(m@ != magic_bsp29());
        if m[0] == 0x1E && m[1] == 0 && m[2] == 0 && m[3] == 0 {
            assert(m@ =~= magic_bsp30());
            return Ok(BspFormat::BSP30);
        }
        assert(m@ != magic_bsp30());
        let ibsp = m[0] == 0x49 && m[1] == 0x42 && m[2] == 0x53 && m[3] == 0x50;
        let qbsp = m[0] == 0x51 && m[1] == 0x42 && m[2] == 0x53 && m[3] == 0x50;
        if ibsp {
            assert(m@ =~= magic_ibsp());
        } else {
            assert(m@ != magic_ibsp());
        }
        if qbsp {
            assert(m@ =~= magic_qbsp());
        } else {
            assert(m@ != magic_qbsp());
        }
        if ibsp || qbsp {
            let version = reader.read_u32()?;
            if version == 38 {
                if ibsp {
                    Ok(BspFormat::BSP38)
                } else {
                    Ok(BspFormat::BSP38Qbism)
                }
            } else {
                Err(BspParseError::UnsupportedBspVersion { found: version, expected: "38 (Quake 2)" })
            }
        } else {
            Err(
                BspParseError::WrongMagicNumber {
                    found: m,
                    expected: "BSP2, 0x1D000000 (BSP29), 0x1E000000 (BSP30), IBSP (BSP38), or QBSP (QBISM)",
                },
            )
        }
    }
}

/// The parser's knowledge of the file: its format.
#[derive(Debug, Clone, Copy, PartialEq, Eq, Default)]
pub struct BspParseContext {
    pub format: BspFormat,
}

/// How to treat the BSPX extension lumps of a file. [`data::BspData::parse`]
/// does not read BSPX lumps, so neither switch changes what it returns.
#[derive(Debug, Clone, PartialEq, Eq)]
pub struct BspParseSettings {
    /// Whether an `RGBLIGHTING` BSPX lump is meant to replace the lighting.
    pub use_bspx_rgb_lighting: bool,
    /// Whether BSPX lumps are meant to be decoded rather than kept raw.
    pub parse_bspx_structures: bool,
}

impl Default for BspParseSettings {
    /// Both switches on.
    fn default() -> (r: Self)
        ensures
            r.use_bspx_rgb_lighting && r.parse_bspx_structures,
    {
        BspParseSettings { use_bspx_rgb_lighting: true, parse_bspx_structures: true }
    }
}

/// The bytes to parse: the BSP file, and optionally a `.lit` file of
/// coloured lighting.
pub struct BspParseInput<'a> {
    pub bsp: &'a [u8],
    pub lit: Option<&'a [u8]>,
    pub settings: BspParseSettings,
}

} // verus!
