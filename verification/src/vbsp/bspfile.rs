//! The `VBSP` container: magic, version, lump directory, and lump bodies,
//! which may be LZMA compressed.

use vstd::prelude::*;

use crate::le::{copy_range, le_u32, read_u32};
use crate::lzma::{lzma_decompress_sized, lzma_error, lzma_sized_decode};
use crate::vbsp::data::{spec_is_l4d2_lump_order, BspVersion, Directories, Header, LumpEntry};
use crate::vbsp::lump_type::LumpType;

verus! {

/// Why the bytes could not be decoded as the structure expected there.
#[derive(Debug, Clone, Copy, PartialEq, Eq)]
pub enum DataError {
    /// The data ends before `needed` bytes.
    UnexpectedEof { needed: usize, len: usize },
    /// The header's version is not one this reader knows.
    UnknownVersion(u32),
}

/// A lump stored in a format version this reader does not know.
#[derive(Debug, Clone, Copy)]
pub struct UnsupportedLumpVersion {
    pub lump_type: &'static str,
    pub version: u16,
}

/// Why a `VBSP` file or one of its lumps could not be read.
#[derive(Debug)]
pub enum BspError {
    /// The file does not start with `"VBSP"`; these are its first four bytes.
    UnexpectedHeader([u8; 4]),
    MalformedData(DataError),
    InvalidLumpSize { lump: LumpType, element_size: usize, lump_size: usize },
    LumpOutOfBounds(LumpEntry),
    LumpDecompressError(lzma_rs::error::Error),
    UnexpectedCompressedLumpSize { got: u32, expected: u32 },
    UnexpectedUncompressedLumpSize { got: u32, expected: u32 },
    LumpVersion(UnsupportedLumpVersion),
}

/// `"VBSP"`, the first four bytes of every file.
pub open spec fn has_vbsp_magic(data: Seq<u8>) -> bool {
    data[0] == 0x56 && data[1] == 0x42 && data[2] == 0x53 && data[3] == 0x50
}

/// The lump directory a file holds: read in the standard field order, and
/// rotated into place when a version 21 file looks like it uses L4D2's.
pub open spec fn spec_directory(data: Seq<u8>) -> Seq<LumpEntry> {
    let raw = Directories::spec_read(data, 8);
    if le_u32(data, 4) == 21 && spec_is_l4d2_lump_order(raw, data.len() as int) {
        Seq::new(64, |i: int| raw[i].spec_fixup_l4d2())
    } else {
        raw
    }
}

/// An opened `VBSP` file, borrowing its bytes.
pub struct BspFile<'a> {
    data: &'a [u8],
    directories: Directories,
    header: Header,
}

impl<'a> BspFile<'a> {
    pub closed spec fn bytes(&self) -> Seq<u8> {
        self.data@
    }

    pub closed spec fn entries(&self) -> Seq<LumpEntry> {
        self.directories.entries@
    }

    pub closed spec fn version(&self) -> BspVersion {
        self.header.version
    }

    pub closed spec fn wf(&self) -> bool {
        &&& self.data@.len() >= 1032
        &&& BspVersion::spec_from_u32(le_u32(self.data@, 4)) == Some(self.header.version)
        &&& self.directories.entries@ == spec_directory(self.data@)
    }

    /// Read the header and the lump directory.
    pub fn new(data: &'a [u8]) -> (r: Result<BspFile<'a>, BspError>)
        ensures
            data@.len() < 4 ==> (r matches Err(BspError::MalformedData(DataError::UnexpectedEof { needed, len })) && needed
                == 4 && len == data@.len()),
            data@.len() >= 4 && !has_vbsp_magic(data@) ==> (r matches Err(BspError::UnexpectedHeader(m)) && m@
                == data@.subrange(0, 4)),
            data@.len() >= 4 && has_vbsp_magic(data@) && data@.len() < 8 ==> (r matches Err(
                BspError::MalformedData(DataError::UnexpectedEof { needed, len }),
            ) && needed == 8 && len == data@.len()),
            data@.len() >= 8 && has_vbsp_magic(data@) && BspVersion::spec_from_u32(le_u32(data@, 4)) is None ==> (r matches Err(
                BspError::MalformedData(DataError::UnknownVersion(v)),
            ) && v == le_u32(data@, 4)),
            data@.len() >= 8 && has_vbsp_magic(data@) && BspVersion::spec_from_u32(le_u32(data@, 4)) is Some
                && data@.len() < 1032 ==> (r matches Err(BspError::MalformedData(DataError::UnexpectedEof { needed, len }))
                && needed == 1032 && len == data@.len()),
            r is Ok <==> data@.len() >= 1032 && has_vbsp_magic(data@) && BspVersion::spec_from_u32(le_u32(data@, 4)) is Some,
            r matches Ok(f) ==> f.wf() && f.bytes() == data@,
    {
        let len = data.len();
        if len < 4 {
            return Err(BspError::MalformedData(DataError::UnexpectedEof { needed: 4, len }));
        }
        if data[0] != 0x56 || data[1] != 0x42 || data[2] != 0x53 || data[3] != 0x50 {
            let m = [data[0], data[1], data[2], data[3]];
            assert(m@ =~= data@.subrange(0, 4));
            return Err(BspError::UnexpectedHeader(m));
        }
        if len < 8 {
            return Err(BspError::MalformedData(DataError::UnexpectedEof { needed: 8, len }));
        }
        let raw_version = read_u32(data, 4);
        let version = match BspVersion::from_u32(raw_version) {
            Some(v) => v,
            None => {
                return Err(BspError::MalformedData(DataError::UnknownVersion(raw_version)));
            },
        };
        if len < 1032 {
            return Err(BspError::MalformedData(DataError::UnexpectedEof { needed: 1032, len }));
        }
        let mut directories = Directories::read(data, 8);
        if raw_version == 21 && directories.is_l4d2_lump_order(len) {
            directories.fixup_lumps();
        }
        let f = BspFile { data, directories, header: Header { version } };
        assert(f.directories.entries@ =~= spec_directory(data@));
        Ok(f)
    }

    pub fn header(&self) -> (r: &Header)
        requires
            self.wf(),
        ensures
            r.version == self.version(),
    {
        &self.header
    }

    /// The directory entry of one lump.
    pub fn get_lump_entry(&self, lump: LumpType) -> (r: &LumpEntry)
        requires
            self.wf(),
        ensures
            *r == self.entries()[lump.spec_index()],
    {
        &self.directories.entries[lump.index()]
    }

    /// A lump's body, inflated if it is compressed (`ident != 0`, which then
    /// holds the inflated length).
    pub fn get_lump(&self, lump: &LumpEntry, lump_type: LumpType) -> (r: Result<Vec<u8>, BspError>)
        requires
            self.wf(),
        ensures
            lump.length == 0 ==> (r matches Err(BspError::InvalidLumpSize { lump, element_size, lump_size })
                && lump == lump_type && element_size == 0 && lump_size == 0),
            lump.length != 0 && lump.offset + lump.length > self.bytes().len() ==> (r matches Err(
                BspError::LumpOutOfBounds(e),
            ) && e == *lump),
            lump.length != 0 && lump.offset + lump.length <= self.bytes().len() ==> {
                let raw = self.bytes().subrange(lump.offset as int, lump.offset + lump.length);
                if lump.ident == 0 {
                    r matches Ok(v) && v@ == raw
                } else {
                    spec_inflate_result(raw, lump.ident as int, r)
                }
            },
    {
        if lump.length == 0 {
            return Err(BspError::InvalidLumpSize { lump: lump_type, element_size: 0, lump_size: 0 });
        }
        let start = lump.offset as u64;
        let end = start + lump.length as u64;
        if end > self.data.len() as u64 {
            return Err(BspError::LumpOutOfBounds(*lump));
        }
        let raw = copy_range(self.data, start as usize, end as usize);
        if lump.ident == 0 {
            Ok(raw)
        } else {
            lzma_decompress_with_header(raw.as_slice(), lump.ident as usize)
        }
    }
}

/// The result of inflating a compressed lump body `data` whose directory
/// entry promises `expected` inflated bytes, given the decoder's outcome.
pub open spec fn spec_inflate_result(data: Seq<u8>, expected: int, r: Result<Vec<u8>, BspError>) -> bool {
    if data.len() < 4 {
        r matches Err(BspError::MalformedData(DataError::UnexpectedEof { needed, len })) && needed == 4 && len
            == data.len()
    } else if !(data[0] == 0x4C && data[1] == 0x5A && data[2] == 0x4D && data[3] == 0x41) {
        r matches Err(BspError::LumpDecompressError(_))
    } else if data.len() < 12 {
        r matches Err(BspError::MalformedData(DataError::UnexpectedEof { needed, len })) && len == data.len() && needed
            == if data.len() < 8 {
            8int
        } else {
            12int
        }
    } else if data.len() < le_u32(data, 8) + 12 {
        r matches Err(BspError::UnexpectedCompressedLumpSize { got, expected: want }) && got == data.len() as u32
            && want == le_u32(data, 8)
    } else {
        match lzma_sized_decode(data.subrange(12, data.len() as int), le_u32(data, 4) as u64) {
            None => r matches Err(BspError::LumpDecompressError(_)),
            Some(out) => if out.len() != expected {
                r matches Err(BspError::UnexpectedUncompressedLumpSize { got, expected: want }) && got
                    == out.len() as u32 && want == expected as u32
            } else {
                r matches Ok(v) && v@ == out
            },
        }
    }
}

/// Check what the decoder produced against the length the directory
/// promised.
pub fn finish_sized_inflate(decoded: Result<Vec<u8>, lzma_rs::error::Error>, expected_length: usize) -> (r: Result<
    Vec<u8>,
    BspError,
>)
    ensures
        decoded is Err ==> r matches Err(BspError::LumpDecompressError(_)),
        decoded matches Ok(out) ==> if out@.len() != expected_length {
            r matches Err(BspError::UnexpectedUncompressedLumpSize { got, expected }) && got == out@.len() as u32
                && expected == expected_length as u32
        } else {
            r matches Ok(v) && v@ == out@
        },
{
    match decoded {
        Err(e) => Err(BspError::LumpDecompressError(e)),
        Ok(out) => {
            if out.len() != expected_length {
                Err(
                    BspError::UnexpectedUncompressedLumpSize {
                        got: out.len() as u32,
                        expected: expected_length as u32,
                    },
                )
            } else {
                Ok(out)
            }
        },
    }
}

/// Inflate a compressed lump body: `"LZMA"`, the inflated size, the
/// compressed size, then five property bytes and the payload.
pub fn lzma_decompress_with_header(data: &[u8], expected_length: usize) -> (r: Result<Vec<u8>, BspError>)
    ensures
        spec_inflate_result(data@, expected_length as int, r),
{
    let len = data.len();
    if len < 4 {
        return Err(BspError::MalformedData(DataError::UnexpectedEof { needed: 4, len }));
    }
    if data[0] != 0x4C || data[1] != 0x5A || data[2] != 0x4D || data[3] != 0x41 {
        return Err(BspError::LumpDecompressError(lzma_error("Invalid lzma header")));
    }
    if len < 8 {
        return Err(BspError::MalformedData(DataError::UnexpectedEof { needed: 8, len }));
    }
    if len < 12 {
        return Err(BspError::MalformedData(DataError::UnexpectedEof { needed: 12, len }));
    }
    let actual_size = read_u32(data, 4);
    let lzma_size = read_u32(data, 8);
    if (len as u64) < lzma_size as u64 + 12 {
        return Err(BspError::UnexpectedCompressedLumpSize { got: len as u32, expected: lzma_size });
    }
    let decoded = lzma_decompress_sized(&data[12..len], actual_size as u64);
    finish_sized_inflate(decoded, expected_length)
}

} // verus!
