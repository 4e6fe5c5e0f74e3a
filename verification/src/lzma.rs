//! Valve's LZMA lump wrapper, decoded with `lzma_rs`.
//!
//! A compressed lump body is `lzma_header_t` (`"LZMA"`, `actualSize`,
//! `lzmaSize`, five property bytes) followed by a raw LZMA1 stream with no end
//! marker. Rewriting the header into the standard 13-byte "LZMA alone" order
//! lets a stock decoder read it.

use vstd::prelude::*;

use crate::le::{copy_range, le_u32, read_u32};

verus! {

#[verifier::external_type_specification]
#[verifier::external_body]
pub struct ExLzmaError(lzma_rs::error::Error);

/// What `lzma_rs` decodes from an "LZMA alone" stream: the inflated bytes,
/// or `None` when it reports an error.
pub uninterp spec fn lzma_alone_decode(stream: Seq<u8>) -> Option<Seq<u8>>;

/// `lzma_rs::lzma_decompress` on an in-memory "LZMA alone" stream, collecting
/// the output. Its result is a function of the stream alone; nothing is said
/// here of what that function is.
#[verifier::external_body]
pub(crate) fn lzma_decompress(stream: &[u8]) -> (r: Result<Vec<u8>, lzma_rs::error::Error>)
    ensures
        (r is Ok) == (lzma_alone_decode(stream@) is Some),
        r matches Ok(v) ==> lzma_alone_decode(stream@) == Some(v@),
{
    let mut input = stream;
    let mut out: Vec<u8> = Vec::new();
    match lzma_rs::lzma_decompress(&mut input, &mut out) {
        Ok(()) => Ok(out),
        Err(e) => Err(e),
    }
}

/// What `lzma_rs` decodes from a raw LZMA1 stream (five property bytes, then
/// the payload, no size field) when told the inflated size: the inflated
/// bytes, or `None` when it reports an error.
pub uninterp spec fn lzma_sized_decode(stream: Seq<u8>, unpacked_size: u64) -> Option<Seq<u8>>;

/// `lzma_rs::lzma_decompress_with_options` on an in-memory stream of five
/// property bytes and a payload, with the inflated size supplied
/// (`UnpackedSize::UseProvided`), no memory limit, and incomplete streams
/// refused. Its result is a function of the stream and the size alone;
/// nothing is said here of what that function is.
#[verifier::external_body]
pub(crate) fn lzma_decompress_sized(stream: &[u8], unpacked_size: u64) -> (r: Result<Vec<u8>, lzma_rs::error::Error>)
    ensures
        (r is Ok) == (lzma_sized_decode(stream@, unpacked_size) is Some),
        r matches Ok(v) ==> lzma_sized_decode(stream@, unpacked_size) == Some(v@),
{
    let mut input = stream;
    let mut out: Vec<u8> = Vec::new();
    let options = lzma_rs::decompress::Options {
        unpacked_size: lzma_rs::decompress::UnpackedSize::UseProvided(Some(unpacked_size)),
        memlimit: None,
        allow_incomplete: false,
    };
    match lzma_rs::lzma_decompress_with_options(&mut input, &mut out, &options) {
        Ok(()) => Ok(out),
        Err(e) => Err(e),
    }
}

/// `lzma_rs::error::Error::LzmaError` carrying `message`, the error the
/// decoder itself gives for a stream it cannot read. The value is opaque
/// here: nothing is said of it.
#[verifier::external_body]
pub(crate) fn lzma_error(message: &str) -> lzma_rs::error::Error {
    lzma_rs::error::Error::LzmaError(message.to_string())
}

/// Size of Valve's `lzma_header_t`: magic, `actualSize`, `lzmaSize`, 5 props.
pub const LZMA_HEADER_LEN: usize = 17;

/// Whether a lump body starts with a complete Valve LZMA header.
pub open spec fn has_lzma_header(body: Seq<u8>) -> bool {
    body.len() >= LZMA_HEADER_LEN && body[0] == 0x4C && body[1] == 0x5A && body[2] == 0x4D && body[3] == 0x41
}

/// The header's `actualSize`: the inflated length.
pub open spec fn lzma_actual_size(body: Seq<u8>) -> u32 {
    le_u32(body, 4)
}

/// The header's `lzmaSize`: the compressed payload length.
pub open spec fn lzma_size(body: Seq<u8>) -> u32 {
    le_u32(body, 8)
}

/// Where the payload ends: `lzmaSize` bytes past the header, trusted over the
/// lump length (which can include tail padding), but never past the body.
pub open spec fn lzma_payload_end(body: Seq<u8>) -> int {
    let want = LZMA_HEADER_LEN + lzma_size(body);
    if want <= body.len() {
        want
    } else {
        body.len() as int
    }
}

/// The little-endian bytes of `v` as a `u64`.
pub open spec fn u64_le_bytes(v: u64) -> Seq<u8> {
    seq![
        (v % 0x100) as u8,
        (v / 0x100 % 0x100) as u8,
        (v / 0x1_0000 % 0x100) as u8,
        (v / 0x100_0000 % 0x100) as u8,
        (v / 0x1_0000_0000 % 0x100) as u8,
        (v / 0x100_0000_0000 % 0x100) as u8,
        (v / 0x1_0000_0000_0000 % 0x100) as u8,
        (v / 0x100_0000_0000_0000 % 0x100) as u8,
    ]
}

/// The "LZMA alone" stream for a Valve LZMA lump body: the five property
/// bytes, the inflated size as a `u64`, then the payload.
pub open spec fn lzma_alone_stream(body: Seq<u8>) -> Seq<u8> {
    body.subrange(12, 17) + u64_le_bytes(lzma_actual_size(body) as u64) + body.subrange(
        LZMA_HEADER_LEN as int,
        lzma_payload_end(body),
    )
}

/// Rewrite a Valve LZMA lump body as an "LZMA alone" stream, or `None` if it
/// has no LZMA header.
pub fn alone_stream(body: &[u8]) -> (r: Option<(Vec<u8>, u32)>)
    ensures
        r is Some == has_lzma_header(body@),
        r matches Some((stream, actual)) ==> stream@ == lzma_alone_stream(body@) && actual == lzma_actual_size(body@),
{
    if body.len() < LZMA_HEADER_LEN || body[0] != 0x4C || body[1] != 0x5A || body[2] != 0x4D || body[3] != 0x41 {
        return None;
    }
    let actual_size = read_u32(body, 4);
    let lzma_size = read_u32(body, 8);
    let payload_end = if lzma_size as usize <= body.len() - LZMA_HEADER_LEN {
        LZMA_HEADER_LEN + lzma_size as usize
    } else {
        body.len()
    };
    let mut stream = copy_range(body, 12, 17);
    let v = actual_size as u64;
    stream.push((v % 0x100) as u8);
    stream.push((v / 0x100 % 0x100) as u8);
    stream.push((v / 0x1_0000 % 0x100) as u8);
    stream.push((v / 0x100_0000 % 0x100) as u8);
    stream.push((v / 0x1_0000_0000 % 0x100) as u8);
    stream.push((v / 0x100_0000_0000 % 0x100) as u8);
    stream.push((v / 0x1_0000_0000_0000 % 0x100) as u8);
    stream.push((v / 0x100_0000_0000_0000 % 0x100) as u8);
    let payload = copy_range(body, LZMA_HEADER_LEN, payload_end);
    let mut i: usize = 0;
    let ghost head = stream@;
    while i < payload.len()
        invariant
            i <= payload@.len(),
            stream@ == head + payload@.subrange(0, i as int),
        decreases payload@.len() - i,
    {
        stream.push(payload[i]);
        i = i + 1;
        assert(payload@.subrange(0, i as int) =~= payload@.subrange(0, i - 1) + seq![payload@[i - 1]]);
    }
    assert(payload@.subrange(0, payload@.len() as int) =~= payload@);
    assert(stream@ =~= lzma_alone_stream(body@));
    Some((stream, actual_size))
}

} // verus!
