//! BSPX, the extension lumps some compilers append after a Quake-family
//! file's own lumps: `"BSPX"`, a `u32` count, then that many entries of a
//! 24-byte name, an offset and a length.

use vstd::prelude::*;

use crate::le::{copy_range, le_u32};
use crate::qbsp::lighting::{read_lit, rgb_triples};
use crate::qbsp::lumps::entry_at;
use crate::qbsp::reader::BspByteReader;
use crate::qbsp::values::{clear_after_nul, FixedStr};
use crate::qbsp::{magic_at, BspParseContext, BspParseError, BspParseResultDoingJobExt, LumpEntry};
use crate::text::{string_push_str, trim_nul_chars};
use vstd::utf8::{decode_utf8, valid_utf8};

verus! {

/// `"BSPX"`.
pub open spec fn bspx_magic() -> Seq<u8> {
    seq![0x42u8, 0x53, 0x50, 0x58]
}

/// Whether a BSPX directory starts at `p` in `d`.
pub open spec fn has_bspx(d: Seq<u8>, p: int) -> bool {
    0 <= p && p + 4 <= d.len() && magic_at(d, p, bspx_magic())
}

/// The entry count of the BSPX directory at `p`.
pub open spec fn bspx_count(d: Seq<u8>, p: int) -> int {
    le_u32(d, p + 4) as int
}

/// Where entry `i` of the BSPX directory at `p` starts.
pub open spec fn bspx_entry_pos(p: int, i: int) -> int {
    p + 8 + 32 * i
}

/// The name of entry `i`, cleared past its first zero byte.
pub open spec fn bspx_name(d: Seq<u8>, p: int, i: int) -> Seq<u8> {
    clear_after_nul(d.subrange(bspx_entry_pos(p, i), bspx_entry_pos(p, i) + 24))
}

/// The lump entry `i` points to.
pub open spec fn bspx_lump(d: Seq<u8>, p: int, i: int) -> LumpEntry {
    entry_at(d, bspx_entry_pos(p, i) + 24)
}

/// Whether the BSPX directory at `p` reads: its count and entries lie inside
/// `d`, every name is UTF-8, and no name repeats.
pub open spec fn bspx_dir_ok(d: Seq<u8>, p: int) -> bool {
    &&& p + 8 <= d.len()
    &&& bspx_entry_pos(p, bspx_count(d, p)) <= d.len()
    &&& forall|i: int| 0 <= i < bspx_count(d, p) ==> valid_utf8(#[trigger] bspx_name(d, p, i))
    &&& forall|i: int, j: int|
        0 <= i < j < bspx_count(d, p) ==> #[trigger] bspx_name(d, p, i) != #[trigger] bspx_name(d, p, j)
}

/// One entry of a BSPX directory.
pub struct BspxEntry {
    pub name: FixedStr<24>,
    pub entry: LumpEntry,
}

/// The entries of a BSPX directory, in file order.
pub struct BspxDirectory {
    /// Where the directory starts in the file.
    pub pos: usize,
    pub entries: Vec<BspxEntry>,
}

/// Whether `entries` are the entries of the BSPX directory at `p`.
pub open spec fn bspx_entries_are(d: Seq<u8>, p: int, entries: Seq<BspxEntry>) -> bool {
    &&& entries.len() == bspx_count(d, p)
    &&& forall|i: int|
        0 <= i < entries.len() ==> #[trigger] entries[i].name.bytes() == bspx_name(d, p, i) && entries[i].name.wf()
            && entries[i].entry == bspx_lump(d, p, i)
}

/// Whether `a` and `b` hold the same bytes.
fn same_bytes(a: &[u8], b: &[u8]) -> (r: bool)
    ensures
        r == (a@ == b@),
{
    if a.len() != b.len() {
        return false;
    }
    let mut i: usize = 0;
    while i < a.len()
        invariant
            i <= a@.len() == b@.len(),
            forall|k: int| 0 <= k < i ==> a@[k] == b@[k],
        decreases a@.len() - i,
    {
        if a[i] != b[i] {
            return false;
        }
        i = i + 1;
    }
    assert(a@ =~= b@);
    true
}

/// A lump name as text, without its zero padding.
fn name_string(name: &FixedStr<24>) -> (r: String)
    requires
        valid_utf8(name.bytes()),
    ensures
        r@ == trim_nul_chars(decode_utf8(name.bytes())),
{
    let mut out = String::new();
    string_push_str(&mut out, name.as_str());
    out
}

/// Read the BSPX directory at `at`, or `None` when `"BSPX"` does not start
/// there. Any failure past the magic number is wrapped in "Reading BSPX
/// directory"; a repeated name is a `DuplicateBspxLump` error.
pub fn read_bspx_directory(bsp: &[u8], at: usize, ctx: &BspParseContext) -> (r: Result<
    Option<BspxDirectory>,
    BspParseError,
>)
    requires
        bsp@.len() + 64 <= usize::MAX,
    ensures
        !has_bspx(bsp@, at as int) ==> r matches Ok(None),
        has_bspx(bsp@, at as int) ==> (r is Ok) == bspx_dir_ok(bsp@, at as int),
        has_bspx(bsp@, at as int) ==> (r matches Ok(o) ==> o is Some),
        r matches Ok(Some(dir)) ==> dir.pos == at && bspx_entries_are(bsp@, at as int, dir.entries@),
        r matches Err(e) ==> e is DoingJob,
{
    let ghost d = bsp@;
    let ghost p = at as int;
    if at > bsp.len() || bsp.len() - at < 4 {
        return Ok(None);
    }
    if !(bsp[at] == 0x42 && bsp[at + 1] == 0x53 && bsp[at + 2] == 0x50 && bsp[at + 3] == 0x58) {
        assert(d.subrange(p, p + 4) != bspx_magic()) by {
            if d.subrange(p, p + 4) == bspx_magic() {
                assert(d.subrange(p, p + 4)[0] == d[p]);
                assert(d.subrange(p, p + 4)[1] == d[p + 1]);
                assert(d.subrange(p, p + 4)[2] == d[p + 2]);
                assert(d.subrange(p, p + 4)[3] == d[p + 3]);
            }
        }
        return Ok(None);
    }
    assert(d.subrange(p, p + 4) =~= bspx_magic());
    let mut reader = BspByteReader::new(bsp, ctx).with_pos(at + 4);
    let count = reader.read_u32().job("Reading BSPX directory")?;
    let ghost n = count as int;
    assert(n == bspx_count(d, p));
    let mut entries: Vec<BspxEntry> = Vec::new();
    let mut i: u32 = 0;
    while i < count
        invariant
            d == bsp@,
            p == at as int,
            reader.data() == d,
            reader.context() == *ctx,
            d.len() + 64 <= usize::MAX,
            n == count,
            n == bspx_count(d, p),
            has_bspx(d, p),
            p + 8 <= d.len(),
            i <= count,
            reader.cursor() == bspx_entry_pos(p, i as int),
            reader.cursor() <= d.len(),
            entries@.len() == i,
            forall|k: int|
                0 <= k < i ==> #[trigger] entries@[k].name.bytes() == bspx_name(d, p, k) && entries@[k].name.wf()
                    && entries@[k].entry == bspx_lump(d, p, k),
            forall|k: int| 0 <= k < i ==> valid_utf8(#[trigger] bspx_name(d, p, k)),
            forall|k: int, j: int| 0 <= k < j < i ==> #[trigger] bspx_name(d, p, k) != #[trigger] bspx_name(d, p, j),
        decreases count - i,
    {
        let ghost c = reader.cursor();
        let ghost raw = d.subrange(c, c + 24);
        assert(bspx_name(d, p, i as int) == clear_after_nul(raw));
        let name = FixedStr::<24>::parse(&mut reader).job("Reading BSPX directory")?;
        let offset = reader.read_u32().job("Reading BSPX directory")?;
        let len = reader.read_u32().job("Reading BSPX directory")?;
        assert(LumpEntry { offset, len } == bspx_lump(d, p, i as int));
        let mut j: usize = 0;
        while j < entries.len()
            invariant
                j <= entries@.len() == i,
                d == bsp@,
                p == at as int,
                has_bspx(d, p),
                n == bspx_count(d, p),
                i < n,
                name.bytes() == bspx_name(d, p, i as int),
                valid_utf8(name.bytes()),
                forall|k: int| 0 <= k < i ==> #[trigger] entries@[k].name.bytes() == bspx_name(d, p, k),
                forall|k: int| 0 <= k < j ==> bspx_name(d, p, k) != bspx_name(d, p, i as int),
            decreases entries@.len() - j,
        {
            if same_bytes(entries[j].name.as_bytes(), name.as_bytes()) {
                proof {
                    assert(bspx_name(d, p, j as int) == bspx_name(d, p, i as int));
                }
                return Err::<Option<BspxDirectory>, BspParseError>(
                    BspParseError::DuplicateBspxLump(name_string(&name)),
                ).job("Reading BSPX directory");
            }
            j = j + 1;
        }
        entries.push(BspxEntry { name, entry: LumpEntry { offset, len } });
        i = i + 1;
        proof {
            assert forall|k: int| 0 <= k < i implies #[trigger] entries@[k].name.bytes() == bspx_name(d, p, k)
                && entries@[k].name.wf() && entries@[k].entry == bspx_lump(d, p, k) by {}
        }
    }
    Ok(Some(BspxDirectory { pos: at, entries }))
}

/// `"RGBLIGHTING"` as a 24-byte lump name.
pub open spec fn rgb_lighting_name() -> Seq<u8> {
    seq![0x52u8, 0x47, 0x42, 0x4C, 0x49, 0x47, 0x48, 0x54, 0x49, 0x4E, 0x47] + Seq::new(13, |k: int| 0u8)
}

/// Whether the lumps the BSPX directory at `p` names all lie inside `d`, and
/// an `RGBLIGHTING` lump holds whole RGB triples.
pub open spec fn bspx_data_ok(d: Seq<u8>, p: int) -> bool {
    forall|i: int|
        0 <= i < bspx_count(d, p) ==> !(#[trigger] bspx_lump(d, p, i)).spec_out_of(d.len() as int) && (bspx_name(
            d,
            p,
            i,
        ) == rgb_lighting_name() ==> bspx_lump(d, p, i).len % 3 == 0)
}

/// The bytes of lump entry `e`.
pub open spec fn bspx_bytes(d: Seq<u8>, e: LumpEntry) -> Seq<u8> {
    d.subrange(e.offset as int, e.offset + e.len)
}

/// The colored lighting of the first `k` entries' `RGBLIGHTING` lump, if
/// one of them is.
pub open spec fn bspx_rgb(d: Seq<u8>, p: int, k: int) -> Option<Seq<[u8; 3]>>
    decreases k,
{
    if k <= 0 {
        None
    } else if bspx_name(d, p, k - 1) == rgb_lighting_name() {
        Some(rgb_triples(bspx_bytes(d, bspx_lump(d, p, k - 1))))
    } else {
        bspx_rgb(d, p, k - 1)
    }
}

/// The indices, in order, of the first `k` entries that are not
/// `RGBLIGHTING`.
pub open spec fn bspx_others(d: Seq<u8>, p: int, k: int) -> Seq<int>
    decreases k,
{
    if k <= 0 {
        Seq::empty()
    } else if bspx_name(d, p, k - 1) == rgb_lighting_name() {
        bspx_others(d, p, k - 1)
    } else {
        bspx_others(d, p, k - 1).push(k - 1)
    }
}

/// A BSPX lump kept as bytes.
pub struct BspxLump {
    pub name: FixedStr<24>,
    pub data: Vec<u8>,
}

/// What a file's BSPX lumps hold: the `RGBLIGHTING` lump's colored lighting,
/// and every other lump's bytes.
pub struct BspxData {
    pub rgb_lighting: Option<Vec<[u8; 3]>>,
    pub unparsed: Vec<BspxLump>,
}

/// Whether `lumps` hold, in order, the names and bytes of the entries whose
/// indices are `idx`.
pub open spec fn bspx_lumps_are(d: Seq<u8>, p: int, idx: Seq<int>, lumps: Seq<BspxLump>) -> bool {
    &&& lumps.len() == idx.len()
    &&& forall|m: int|
        0 <= m < lumps.len() ==> #[trigger] lumps[m].name.bytes() == bspx_name(d, p, idx[m]) && lumps[m].data@
            == bspx_bytes(d, bspx_lump(d, p, idx[m]))
}

/// The view of an optional lighting vector.
pub open spec fn opt_triples(v: Option<Vec<[u8; 3]>>) -> Option<Seq<[u8; 3]>> {
    match v {
        Some(v) => Some(v@),
        None => None,
    }
}

impl BspxData {
    /// No BSPX lumps.
    pub fn empty() -> (r: BspxData)
        ensures
            r.rgb_lighting is None,
            r.unparsed@.len() == 0,
    {
        BspxData { rgb_lighting: None, unparsed: Vec::new() }
    }

    /// Read the lumps `dir` names from `bsp`: `RGBLIGHTING` as colored
    /// lighting, the others as bytes.
    pub fn parse(bsp: &[u8], dir: &BspxDirectory, ctx: &BspParseContext) -> (r: Result<BspxData, BspParseError>)
        requires
            bspx_entries_are(bsp@, dir.pos as int, dir.entries@),
        ensures
            ({
                let d = bsp@;
                let p = dir.pos as int;
                let n = dir.entries@.len() as int;
                &&& (r is Ok) == bspx_data_ok(d, p)
                &&& r matches Ok(x) ==> opt_triples(x.rgb_lighting) == bspx_rgb(d, p, n) && bspx_lumps_are(
                    d,
                    p,
                    bspx_others(d, p, n),
                    x.unparsed@,
                )
            }),
    {
        let ghost d = bsp@;
        let ghost p = dir.pos as int;
        let mut rgb: Option<Vec<[u8; 3]>> = None;
        let mut unparsed: Vec<BspxLump> = Vec::new();
        let mut i: usize = 0;
        let want: [u8; 24] = [
            0x52, 0x47, 0x42, 0x4C, 0x49, 0x47, 0x48, 0x54, 0x49, 0x4E, 0x47, 0, 0, 0, 0, 0, 0, 0, 0, 0, 0, 0, 0, 0,
        ];
        assert(want@ =~= rgb_lighting_name());
        while i < dir.entries.len()
            invariant
                bspx_entries_are(d, p, dir.entries@),
                d == bsp@,
                p == dir.pos,
                i <= dir.entries@.len(),
                forall|k: int|
                    0 <= k < i ==> !(#[trigger] bspx_lump(d, p, k)).spec_out_of(d.len() as int) && (bspx_name(
                        d,
                        p,
                        k,
                    ) == rgb_lighting_name() ==> bspx_lump(d, p, k).len % 3 == 0),
                opt_triples(rgb) == bspx_rgb(d, p, i as int),
                bspx_lumps_are(d, p, bspx_others(d, p, i as int), unparsed@),
                want@ == rgb_lighting_name(),
            decreases dir.entries@.len() - i,
        {
            let ent = &dir.entries[i];
            assert(ent.name.bytes() == bspx_name(d, p, i as int));
            assert(ent.entry == bspx_lump(d, p, i as int));
            let bytes = ent.entry.get(bsp)?;
            if same_bytes(ent.name.as_bytes(), want.as_slice()) {
                let body = read_lit(bytes, ctx, true)?;
                assert(bytes@.subrange(0, bytes@.len() as int) =~= bytes@);
                rgb = Some(body);
                assert(bspx_others(d, p, i + 1) == bspx_others(d, p, i as int));
            } else {
                let ghost before = unparsed@;
                unparsed.push(BspxLump { name: ent.name.copy(), data: copy_range(bytes, 0, bytes.len()) });
                proof {
                    let idx = bspx_others(d, p, i + 1);
                    assert(idx == bspx_others(d, p, i as int).push(i as int));
                    assert(idx[before.len() as int] == i);
                    assert(unparsed@[before.len() as int].name.bytes() == bspx_name(d, p, i as int));
                    assert(unparsed@[before.len() as int].data@ == bspx_bytes(d, bspx_lump(d, p, i as int)));
                    assert forall|m: int| 0 <= m < unparsed@.len() implies #[trigger] unparsed@[m].name.bytes()
                        == bspx_name(d, p, idx[m]) && unparsed@[m].data@ == bspx_bytes(d, bspx_lump(d, p, idx[m])) by {
                        if m < before.len() {
                            assert(unparsed@[m] == before[m]);
                            assert(idx[m] == bspx_others(d, p, i as int)[m]);
                            assert(before[m].name.bytes() == bspx_name(d, p, bspx_others(d, p, i as int)[m]));
                            assert(before[m].data@ == bspx_bytes(d, bspx_lump(d, p, bspx_others(d, p, i as int)[m])));
                        }
                    }
                }
            }
            i = i + 1;
        }
        Ok(BspxData { rgb_lighting: rgb, unparsed })
    }
}

} // verus!
