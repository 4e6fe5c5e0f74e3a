//! An opened Source BSP file: header validation and lump access.
//!
//! The file bytes are handed in by the caller; only the header is checked up
//! front, and lump bodies are bounds-checked, inflated and decoded on demand.
//! An absent lump reads as an empty sequence, not an error: plenty of maps
//! have no displacements, no cubemaps or no HDR data.

use vstd::prelude::*;

use crate::le::{copy_range, le_i16, le_i32, le_i8, le_u16, le_u32, le_u8, read_i32};
use crate::lump::LumpId;
use crate::lzma::{alone_stream, has_lzma_header, lzma_actual_size, lzma_alone_decode, lzma_alone_stream, lzma_decompress};
use crate::raw::{
    read_records, spec_records, ColorRgbExp32, DBrush, DBrushSide, DCubemapSample, DDispInfo, DEdge, DFace,
    DGameLump, DLeaf, DLeafV0, DModel, DNode, DPlane, DTexData, DVertex, DispTri, DispVert, Header, Lump, Record,
    TexInfo, HEADER_SIZE,
};
use crate::text::{utf8_or_empty, string_or_empty};

verus! {

/// Little-endian `"VBSP"`.
pub const VBSP_IDENT: i32 = 0x5053_4256;

/// `BSPVERSION` in `bspfile.h`. TF2 ships version 20.
pub const BSP_VERSION: i32 = 20;

/// `MINBSPVERSION`: the oldest version the engine will load.
pub const MIN_BSP_VERSION: i32 = 19;

/// Newest version accepted here. 21 covers Portal 2 / CS:GO era maps.
pub const MAX_BSP_VERSION: i32 = 21;

/// Why a BSP file or one of its lumps could not be read.
#[derive(Debug)]
pub enum BspError {
    /// The file does not start with `"VBSP"`.
    BadIdent { found: i32 },
    UnsupportedVersion { found: i32 },
    TooSmall { len: usize, expected: usize },
    LumpOutOfBounds { lump: LumpId, ofs: i64, end: i64, len: usize },
    MissingLzmaHeader { lump: LumpId },
    Lzma { lump: LumpId, source: lzma_rs::error::Error },
    LzmaSizeMismatch { lump: LumpId, got: usize, want: usize },
    /// The lump is not a whole number of records.
    BadStride { lump: LumpId, len: usize, stride: usize, rem: usize },
    IndexOutOfRange { lump: LumpId, index: i64, len: usize },
    UnterminatedString { lump: LumpId, ofs: usize },
    LightmapAtlasTooLarge { width: u32, height: u32, max: u32 },
}

/// The errors that reading a lump body can give.
pub open spec fn is_lump_error(e: BspError) -> bool {
    ||| e is LumpOutOfBounds
    ||| e is MissingLzmaHeader
    ||| e is Lzma
    ||| e is LzmaSizeMismatch
    ||| e is BadStride
}

/// The directory entry for `id` in file bytes `data`.
pub open spec fn lump_entry(data: Seq<u8>, id: LumpId) -> Lump {
    Lump::spec_read(data, 8 + 16 * id.spec_index())
}

/// Whether a lump's stored bytes lie inside the file.
pub open spec fn in_file(data: Seq<u8>, l: Lump) -> bool {
    l.fileofs >= 0 && l.filelen >= 0 && l.fileofs + l.filelen <= data.len()
}

/// A lump's stored bytes.
pub open spec fn stored_bytes(data: Seq<u8>, l: Lump) -> Seq<u8> {
    data.subrange(l.fileofs as int, l.fileofs + l.filelen)
}

/// Whether a lump's body can be produced: absent, stored plainly, or
/// compressed with a header that decodes to the promised length.
pub open spec fn lump_readable(data: Seq<u8>, id: LumpId) -> bool {
    let l = lump_entry(data, id);
    l.filelen == 0 || (in_file(data, l) && (l.uncompressed_size == 0 || {
        let raw = stored_bytes(data, l);
        has_lzma_header(raw) && (lzma_alone_decode(lzma_alone_stream(raw)) matches Some(out)
            && out.len() == lzma_actual_size(raw))
    }))
}

/// A lump's body: empty when absent, the stored bytes when uncompressed, and
/// the inflated bytes otherwise.
pub open spec fn lump_body(data: Seq<u8>, id: LumpId) -> Seq<u8> {
    let l = lump_entry(data, id);
    if l.filelen == 0 {
        Seq::empty()
    } else if l.uncompressed_size == 0 {
        stored_bytes(data, l)
    } else {
        lzma_alone_decode(lzma_alone_stream(stored_bytes(data, l))).unwrap()
    }
}

/// Whether a lump can be read as whole records of `T`.
pub open spec fn records_readable<T: Record>(data: Seq<u8>, id: LumpId) -> bool {
    lump_readable(data, id) && lump_body(data, id).len() % T::spec_size() == 0
}

/// A lump read as records of `T`.
pub open spec fn lump_records<T: Record>(data: Seq<u8>, id: LumpId) -> Seq<T> {
    spec_records::<T>(lump_body(data, id))
}

/// Whether `e` is the error reading lump `id`'s body gives: the lump lies
/// outside the file, lacks its LZMA header, does not decode, or decodes to
/// the wrong length.
pub open spec fn lump_body_error(data: Seq<u8>, id: LumpId, e: BspError) -> bool {
    let l = lump_entry(data, id);
    l.filelen != 0 && match e {
        BspError::LumpOutOfBounds { lump, ofs, end, len } => lump == id && !in_file(data, l) && ofs == l.fileofs
            && end == l.fileofs + l.filelen && len == data.len(),
        BspError::MissingLzmaHeader { lump } => lump == id && in_file(data, l) && l.uncompressed_size != 0
            && !has_lzma_header(stored_bytes(data, l)),
        BspError::Lzma { lump, .. } => lump == id && lzma_alone_decode(lzma_alone_stream(stored_bytes(data, l))) is None,
        BspError::LzmaSizeMismatch { lump, got, want } => lump == id && (lzma_alone_decode(
            lzma_alone_stream(stored_bytes(data, l)),
        ) matches Some(out) && got == out.len() && want == lzma_actual_size(stored_bytes(data, l)) && got != want),
        _ => false,
    }
}

/// Whether `e` is the error reading lump `id` as records of `T` gives: the
/// body's own error, or a stride error for a body of a broken length.
pub open spec fn records_error<T: Record>(data: Seq<u8>, id: LumpId, e: BspError) -> bool {
    if lump_readable(data, id) {
        e matches BspError::BadStride { lump, len, stride, rem } && lump == id && len == lump_body(data, id).len()
            && stride == T::spec_size() && rem == len % stride && rem != 0
    } else {
        lump_body_error(data, id, e)
    }
}

/// An opened BSP file.
pub struct Bsp {
    data: Vec<u8>,
    header: Header,
}

impl Bsp {
    /// The file's bytes.
    pub closed spec fn bytes(&self) -> Seq<u8> {
        self.data@
    }

    pub closed spec fn wf(&self) -> bool {
        &&& self.data@.len() >= HEADER_SIZE
        &&& self.header.ident == VBSP_IDENT
        &&& MIN_BSP_VERSION <= self.header.version <= MAX_BSP_VERSION
        &&& self.header.version == le_i32(self.data@, 4)
        &&& self.header.map_revision == le_i32(self.data@, 1032)
        &&& forall|i: int| 0 <= i < 64 ==> #[trigger] self.header.lumps@[i] == Lump::spec_read(self.data@, 8 + 16 * i)
    }

    /// Validate a BSP file's header. Lump bodies are decoded on demand.
    pub fn parse(data: Vec<u8>) -> (r: Result<Bsp, BspError>)
        ensures
            data@.len() < HEADER_SIZE ==> (r matches Err(BspError::TooSmall { len, expected })
                && len == data@.len() && expected == HEADER_SIZE),
            data@.len() >= HEADER_SIZE && le_i32(data@, 0) != VBSP_IDENT ==> (r matches Err(
                BspError::BadIdent { found },
            ) && found == le_i32(data@, 0)),
            data@.len() >= HEADER_SIZE && le_i32(data@, 0) == VBSP_IDENT && !(MIN_BSP_VERSION <= le_i32(data@, 4)
                <= MAX_BSP_VERSION) ==> (r matches Err(BspError::UnsupportedVersion { found }) && found == le_i32(
                data@,
                4,
            )),
            r is Ok == (data@.len() >= HEADER_SIZE && le_i32(data@, 0) == VBSP_IDENT && MIN_BSP_VERSION <= le_i32(
                data@,
                4,
            ) <= MAX_BSP_VERSION),
            r matches Ok(b) ==> b.wf() && b.bytes() == data@,
    {
        if data.len() < HEADER_SIZE {
            return Err(BspError::TooSmall { len: data.len(), expected: HEADER_SIZE });
        }
        let header = Header::read(data.as_slice());
        if header.ident != VBSP_IDENT {
            return Err(BspError::BadIdent { found: header.ident });
        }
        if !(MIN_BSP_VERSION <= header.version && header.version <= MAX_BSP_VERSION) {
            return Err(BspError::UnsupportedVersion { found: header.version });
        }
        Ok(Bsp { data, header })
    }

    pub fn header(&self) -> (r: &Header)
        requires
            self.wf(),
        ensures
            r.ident == VBSP_IDENT,
            r.version == le_i32(self.bytes(), 4),
            r.map_revision == le_i32(self.bytes(), 1032),
            forall|i: int| 0 <= i < 64 ==> #[trigger] r.lumps@[i] == Lump::spec_read(self.bytes(), 8 + 16 * i),
    {
        &self.header
    }

    pub fn version(&self) -> (r: i32)
        requires
            self.wf(),
        ensures
            r == le_i32(self.bytes(), 4),
            MIN_BSP_VERSION <= r <= MAX_BSP_VERSION,
    {
        self.header.version
    }

    pub fn map_revision(&self) -> (r: i32)
        requires
            self.wf(),
        ensures
            r == le_i32(self.bytes(), 1032),
    {
        self.header.map_revision
    }

    /// Total file size in bytes.
    pub fn file_len(&self) -> (r: usize)
        ensures
            r == self.bytes().len(),
    {
        self.data.len()
    }

    /// The directory entry for one lump.
    pub fn lump(&self, id: LumpId) -> (r: Lump)
        requires
            self.wf(),
        ensures
            r == lump_entry(self.bytes(), id),
    {
        let i = id.index();
        self.header.lumps[i]
    }

    /// Whether this lump's body is LZMA-compressed on disk.
    pub fn is_compressed(&self, id: LumpId) -> (r: bool)
        requires
            self.wf(),
        ensures
            r == (lump_entry(self.bytes(), id).uncompressed_size != 0),
    {
        self.lump(id).uncompressed_size != 0
    }

    /// Inflated length of a lump, without decoding it.
    pub fn lump_len(&self, id: LumpId) -> (r: usize)
        requires
            self.wf(),
        ensures
            ({
                let l = lump_entry(self.bytes(), id);
                r == if l.uncompressed_size != 0 {
                    if l.uncompressed_size > 0 {
                        l.uncompressed_size as int
                    } else {
                        0
                    }
                } else if l.filelen > 0 {
                    l.filelen as int
                } else {
                    0
                }
            }),
    {
        let l = self.lump(id);
        if l.uncompressed_size != 0 {
            if l.uncompressed_size > 0 {
                l.uncompressed_size as usize
            } else {
                0
            }
        } else if l.filelen > 0 {
            l.filelen as usize
        } else {
            0
        }
    }

    /// The stored bytes of one lump, bounds-checked against the file.
    pub fn file_slice(&self, id: LumpId) -> (r: Result<&[u8], BspError>)
        requires
            self.wf(),
        ensures
            ({
                let l = lump_entry(self.bytes(), id);
                match r {
                    Ok(s) => in_file(self.bytes(), l) && s@ == stored_bytes(self.bytes(), l),
                    Err(BspError::LumpOutOfBounds { lump, ofs, end, len }) => !in_file(self.bytes(), l) && lump == id
                        && ofs == l.fileofs && end == l.fileofs + l.filelen && len == self.bytes().len(),
                    Err(_) => false,
                }
            }),
    {
        let l = self.lump(id);
        let ofs = l.fileofs as i64;
        let len = l.filelen as i64;
        let end = ofs + len;
        if ofs < 0 || len < 0 || end as usize > self.data.len() {
            return Err(BspError::LumpOutOfBounds { lump: id, ofs, end, len: self.data.len() });
        }
        Ok(&self.data.as_slice()[ofs as usize..end as usize])
    }

    /// Lump body, decompressing it if needed.
    pub fn lump_bytes(&self, id: LumpId) -> (r: Result<Vec<u8>, BspError>)
        requires
            self.wf(),
        ensures
            r is Ok == lump_readable(self.bytes(), id),
            r matches Ok(v) ==> v@ == lump_body(self.bytes(), id),
            r matches Err(e) ==> lump_body_error(self.bytes(), id, e),
    {
        let l = self.lump(id);
        if l.filelen == 0 {
            return Ok(Vec::new());
        }
        let raw = self.file_slice(id)?;
        if l.uncompressed_size == 0 {
            return Ok(copy_range(raw, 0, raw.len()));
        }
        let (stream, actual) = match alone_stream(raw) {
            Some(s) => s,
            None => {
                return Err(BspError::MissingLzmaHeader { lump: id });
            },
        };
        finish_inflate(id, lzma_decompress(stream.as_slice()), actual)
    }

    /// Reinterpret a lump as records of `T`. Errors if the length is not a
    /// whole multiple of the record size.
    pub fn lump_slice<T: Record>(&self, id: LumpId) -> (r: Result<Vec<T>, BspError>)
        requires
            self.wf(),
        ensures
            r is Ok == records_readable::<T>(self.bytes(), id),
            r matches Ok(v) ==> v@ == lump_records::<T>(self.bytes(), id),
            r matches Err(e) ==> is_lump_error(e),
            r matches Err(e) ==> records_error::<T>(self.bytes(), id, e),
            r matches Err(BspError::BadStride { lump, len, stride, rem }) ==> lump == id && lump_readable(
                self.bytes(),
                id,
            ) && len == lump_body(self.bytes(), id).len() && stride == T::spec_size() && rem == len % stride
                && rem != 0,
    {
        let bytes = self.lump_bytes(id)?;
        match read_records::<T>(bytes.as_slice()) {
            Ok(v) => Ok(v),
            Err(rem) => Err(BspError::BadStride { lump: id, len: bytes.len(), stride: T::size(), rem }),
        }
    }

    pub fn planes(&self) -> (r: Result<Vec<DPlane>, BspError>)
        requires
            self.wf(),
        ensures
            r is Ok == records_readable::<DPlane>(self.bytes(), LumpId::Planes),
            r matches Err(e) ==> is_lump_error(e) && records_error::<DPlane>(self.bytes(), LumpId::Planes, e),
            r matches Ok(v) ==> v@ == lump_records::<DPlane>(self.bytes(), LumpId::Planes),
    {
        self.lump_slice::<DPlane>(LumpId::Planes)
    }

    pub fn vertices(&self) -> (r: Result<Vec<DVertex>, BspError>)
        requires
            self.wf(),
        ensures
            r is Ok == records_readable::<DVertex>(self.bytes(), LumpId::Vertexes),
            r matches Err(e) ==> is_lump_error(e) && records_error::<DVertex>(self.bytes(), LumpId::Vertexes, e),
            r matches Ok(v) ==> v@ == lump_records::<DVertex>(self.bytes(), LumpId::Vertexes),
    {
        self.lump_slice::<DVertex>(LumpId::Vertexes)
    }

    pub fn edges(&self) -> (r: Result<Vec<DEdge>, BspError>)
        requires
            self.wf(),
        ensures
            r is Ok == records_readable::<DEdge>(self.bytes(), LumpId::Edges),
            r matches Err(e) ==> is_lump_error(e) && records_error::<DEdge>(self.bytes(), LumpId::Edges, e),
            r matches Ok(v) ==> v@ == lump_records::<DEdge>(self.bytes(), LumpId::Edges),
    {
        self.lump_slice::<DEdge>(LumpId::Edges)
    }

    /// Signed indices into [`Bsp::edges`]; negative means traverse the edge
    /// backwards. Index 0 is never used.
    pub fn surfedges(&self) -> (r: Result<Vec<i32>, BspError>)
        requires
            self.wf(),
        ensures
            r is Ok == records_readable::<i32>(self.bytes(), LumpId::SurfEdges),
            r matches Err(e) ==> is_lump_error(e) && records_error::<i32>(self.bytes(), LumpId::SurfEdges, e),
            r matches Ok(v) ==> v@ == lump_records::<i32>(self.bytes(), LumpId::SurfEdges),
    {
        self.lump_slice::<i32>(LumpId::SurfEdges)
    }

    pub fn faces(&self) -> (r: Result<Vec<DFace>, BspError>)
        requires
            self.wf(),
        ensures
            r is Ok == records_readable::<DFace>(self.bytes(), LumpId::Faces),
            r matches Err(e) ==> is_lump_error(e) && records_error::<DFace>(self.bytes(), LumpId::Faces, e),
            r matches Ok(v) ==> v@ == lump_records::<DFace>(self.bytes(), LumpId::Faces),
    {
        self.lump_slice::<DFace>(LumpId::Faces)
    }

    /// Faces as compiled for HDR lighting. Empty on maps without HDR.
    pub fn faces_hdr(&self) -> (r: Result<Vec<DFace>, BspError>)
        requires
            self.wf(),
        ensures
            r is Ok == records_readable::<DFace>(self.bytes(), LumpId::FacesHdr),
            r matches Err(e) ==> is_lump_error(e) && records_error::<DFace>(self.bytes(), LumpId::FacesHdr, e),
            r matches Ok(v) ==> v@ == lump_records::<DFace>(self.bytes(), LumpId::FacesHdr),
    {
        self.lump_slice::<DFace>(LumpId::FacesHdr)
    }

    pub fn nodes(&self) -> (r: Result<Vec<DNode>, BspError>)
        requires
            self.wf(),
        ensures
            r is Ok == records_readable::<DNode>(self.bytes(), LumpId::Nodes),
            r matches Err(e) ==> is_lump_error(e) && records_error::<DNode>(self.bytes(), LumpId::Nodes, e),
            r matches Ok(v) ==> v@ == lump_records::<DNode>(self.bytes(), LumpId::Nodes),
    {
        self.lump_slice::<DNode>(LumpId::Nodes)
    }

    /// Leaves, for lump version 1 (every TF2 map). Use [`Bsp::leaves_v0`] if
    /// the `LEAFS` lump version is 0.
    pub fn leaves(&self) -> (r: Result<Vec<DLeaf>, BspError>)
        requires
            self.wf(),
        ensures
            r is Ok == records_readable::<DLeaf>(self.bytes(), LumpId::Leafs),
            r matches Err(e) ==> is_lump_error(e) && records_error::<DLeaf>(self.bytes(), LumpId::Leafs, e),
            r matches Ok(v) ==> v@ == lump_records::<DLeaf>(self.bytes(), LumpId::Leafs),
    {
        self.lump_slice::<DLeaf>(LumpId::Leafs)
    }

    pub fn leaves_v0(&self) -> (r: Result<Vec<DLeafV0>, BspError>)
        requires
            self.wf(),
        ensures
            r is Ok == records_readable::<DLeafV0>(self.bytes(), LumpId::Leafs),
            r matches Err(e) ==> is_lump_error(e) && records_error::<DLeafV0>(self.bytes(), LumpId::Leafs, e),
            r matches Ok(v) ==> v@ == lump_records::<DLeafV0>(self.bytes(), LumpId::Leafs),
    {
        self.lump_slice::<DLeafV0>(LumpId::Leafs)
    }

    pub fn texinfos(&self) -> (r: Result<Vec<TexInfo>, BspError>)
        requires
            self.wf(),
        ensures
            r is Ok == records_readable::<TexInfo>(self.bytes(), LumpId::TexInfo),
            r matches Err(e) ==> is_lump_error(e) && records_error::<TexInfo>(self.bytes(), LumpId::TexInfo, e),
            r matches Ok(v) ==> v@ == lump_records::<TexInfo>(self.bytes(), LumpId::TexInfo),
    {
        self.lump_slice::<TexInfo>(LumpId::TexInfo)
    }

    pub fn texdatas(&self) -> (r: Result<Vec<DTexData>, BspError>)
        requires
            self.wf(),
        ensures
            r is Ok == records_readable::<DTexData>(self.bytes(), LumpId::TexData),
            r matches Err(e) ==> is_lump_error(e) && records_error::<DTexData>(self.bytes(), LumpId::TexData, e),
            r matches Ok(v) ==> v@ == lump_records::<DTexData>(self.bytes(), LumpId::TexData),
    {
        self.lump_slice::<DTexData>(LumpId::TexData)
    }

    /// Model 0 is worldspawn; 1.. are brush entities.
    pub fn models(&self) -> (r: Result<Vec<DModel>, BspError>)
        requires
            self.wf(),
        ensures
            r is Ok == records_readable::<DModel>(self.bytes(), LumpId::Models),
            r matches Err(e) ==> is_lump_error(e) && records_error::<DModel>(self.bytes(), LumpId::Models, e),
            r matches Ok(v) ==> v@ == lump_records::<DModel>(self.bytes(), LumpId::Models),
    {
        self.lump_slice::<DModel>(LumpId::Models)
    }

    pub fn brushes(&self) -> (r: Result<Vec<DBrush>, BspError>)
        requires
            self.wf(),
        ensures
            r is Ok == records_readable::<DBrush>(self.bytes(), LumpId::Brushes),
            r matches Err(e) ==> is_lump_error(e) && records_error::<DBrush>(self.bytes(), LumpId::Brushes, e),
            r matches Ok(v) ==> v@ == lump_records::<DBrush>(self.bytes(), LumpId::Brushes),
    {
        self.lump_slice::<DBrush>(LumpId::Brushes)
    }

    pub fn brush_sides(&self) -> (r: Result<Vec<DBrushSide>, BspError>)
        requires
            self.wf(),
        ensures
            r is Ok == records_readable::<DBrushSide>(self.bytes(), LumpId::BrushSides),
            r matches Err(e) ==> is_lump_error(e) && records_error::<DBrushSide>(self.bytes(), LumpId::BrushSides, e),
            r matches Ok(v) ==> v@ == lump_records::<DBrushSide>(self.bytes(), LumpId::BrushSides),
    {
        self.lump_slice::<DBrushSide>(LumpId::BrushSides)
    }

    pub fn dispinfos(&self) -> (r: Result<Vec<DDispInfo>, BspError>)
        requires
            self.wf(),
        ensures
            r is Ok == records_readable::<DDispInfo>(self.bytes(), LumpId::DispInfo),
            r matches Err(e) ==> is_lump_error(e) && records_error::<DDispInfo>(self.bytes(), LumpId::DispInfo, e),
            r matches Ok(v) ==> v@ == lump_records::<DDispInfo>(self.bytes(), LumpId::DispInfo),
    {
        self.lump_slice::<DDispInfo>(LumpId::DispInfo)
    }

    pub fn disp_verts(&self) -> (r: Result<Vec<DispVert>, BspError>)
        requires
            self.wf(),
        ensures
            r is Ok == records_readable::<DispVert>(self.bytes(), LumpId::DispVerts),
            r matches Err(e) ==> is_lump_error(e) && records_error::<DispVert>(self.bytes(), LumpId::DispVerts, e),
            r matches Ok(v) ==> v@ == lump_records::<DispVert>(self.bytes(), LumpId::DispVerts),
    {
        self.lump_slice::<DispVert>(LumpId::DispVerts)
    }

    pub fn disp_tris(&self) -> (r: Result<Vec<DispTri>, BspError>)
        requires
            self.wf(),
        ensures
            r is Ok == records_readable::<DispTri>(self.bytes(), LumpId::DispTris),
            r matches Err(e) ==> is_lump_error(e) && records_error::<DispTri>(self.bytes(), LumpId::DispTris, e),
            r matches Ok(v) ==> v@ == lump_records::<DispTri>(self.bytes(), LumpId::DispTris),
    {
        self.lump_slice::<DispTri>(LumpId::DispTris)
    }

    pub fn leaf_faces(&self) -> (r: Result<Vec<u16>, BspError>)
        requires
            self.wf(),
        ensures
            r is Ok == records_readable::<u16>(self.bytes(), LumpId::LeafFaces),
            r matches Err(e) ==> is_lump_error(e) && records_error::<u16>(self.bytes(), LumpId::LeafFaces, e),
            r matches Ok(v) ==> v@ == lump_records::<u16>(self.bytes(), LumpId::LeafFaces),
    {
        self.lump_slice::<u16>(LumpId::LeafFaces)
    }

    pub fn cubemaps(&self) -> (r: Result<Vec<DCubemapSample>, BspError>)
        requires
            self.wf(),
        ensures
            r is Ok == records_readable::<DCubemapSample>(self.bytes(), LumpId::Cubemaps),
            r matches Err(e) ==> is_lump_error(e) && records_error::<DCubemapSample>(self.bytes(), LumpId::Cubemaps, e),
            r matches Ok(v) ==> v@ == lump_records::<DCubemapSample>(self.bytes(), LumpId::Cubemaps),
    {
        self.lump_slice::<DCubemapSample>(LumpId::Cubemaps)
    }

    /// LDR lightmap samples.
    pub fn lighting(&self) -> (r: Result<Vec<ColorRgbExp32>, BspError>)
        requires
            self.wf(),
        ensures
            r is Ok == records_readable::<ColorRgbExp32>(self.bytes(), LumpId::Lighting),
            r matches Err(e) ==> is_lump_error(e) && records_error::<ColorRgbExp32>(self.bytes(), LumpId::Lighting, e),
            r matches Ok(v) ==> v@ == lump_records::<ColorRgbExp32>(self.bytes(), LumpId::Lighting),
    {
        self.lump_slice::<ColorRgbExp32>(LumpId::Lighting)
    }

    /// HDR lightmap samples. Empty on maps compiled without HDR.
    pub fn lighting_hdr(&self) -> (r: Result<Vec<ColorRgbExp32>, BspError>)
        requires
            self.wf(),
        ensures
            r is Ok == records_readable::<ColorRgbExp32>(self.bytes(), LumpId::LightingHdr),
            r matches Err(e) ==> is_lump_error(e) && records_error::<ColorRgbExp32>(self.bytes(), LumpId::LightingHdr, e),
            r matches Ok(v) ==> v@ == lump_records::<ColorRgbExp32>(self.bytes(), LumpId::LightingHdr),
    {
        self.lump_slice::<ColorRgbExp32>(LumpId::LightingHdr)
    }

    /// Byte offsets into [`Bsp::texdata_string_data`].
    pub fn texdata_string_table(&self) -> (r: Result<Vec<i32>, BspError>)
        requires
            self.wf(),
        ensures
            r is Ok == records_readable::<i32>(self.bytes(), LumpId::TexDataStringTable),
            r matches Err(e) ==> is_lump_error(e) && records_error::<i32>(self.bytes(), LumpId::TexDataStringTable, e),
            r matches Ok(v) ==> v@ == lump_records::<i32>(self.bytes(), LumpId::TexDataStringTable),
    {
        self.lump_slice::<i32>(LumpId::TexDataStringTable)
    }

    /// The NUL-separated blob of material names.
    pub fn texdata_string_data(&self) -> (r: Result<Vec<u8>, BspError>)
        requires
            self.wf(),
        ensures
            r is Ok == lump_readable(self.bytes(), LumpId::TexDataStringData),
            r matches Ok(v) ==> v@ == lump_body(self.bytes(), LumpId::TexDataStringData),
            r matches Err(e) ==> is_lump_error(e),
    {
        self.lump_bytes(LumpId::TexDataStringData)
    }

    /// The material path for a texdata index, e.g. `CONCRETE/CONCRETEWALL001`:
    /// the NUL-terminated string the string table points at. Names that are
    /// not UTF-8 read as the empty string.
    pub fn texture_name(&self, texdata_index: usize) -> (r: Result<String, BspError>)
        requires
            self.wf(),
        ensures
            r is Ok == texture_name_found(self.bytes(), texdata_index as int),
            r matches Ok(s) ==> s@ == utf8_or_empty(texture_name_bytes(self.bytes(), texdata_index as int)),
            r matches Err(BspError::IndexOutOfRange { lump, index, len }) ==> (lump == LumpId::TexData && index
                == texdata_index as i64 && len == lump_records::<DTexData>(self.bytes(), LumpId::TexData).len() && len
                <= texdata_index) || lump == LumpId::TexDataStringTable || lump == LumpId::TexDataStringData,
            r matches Err(BspError::UnterminatedString { lump, ofs }) ==> lump == LumpId::TexDataStringData
                && ofs == texture_name_offset(self.bytes(), texdata_index as int),
    {
        let texdatas = self.texdatas()?;
        if texdata_index >= texdatas.len() {
            return Err(BspError::IndexOutOfRange { lump: LumpId::TexData, index: texdata_index as i64, len: texdatas.len() });
        }
        let td = texdatas[texdata_index];
        let table = self.texdata_string_table()?;
        let id = td.name_string_table_id;
        if id < 0 || id as usize >= table.len() {
            return Err(BspError::IndexOutOfRange { lump: LumpId::TexDataStringTable, index: id as i64, len: table.len() });
        }
        let ofs = table[id as usize];
        let data = self.texdata_string_data()?;
        if ofs < 0 || ofs as usize > data.len() {
            return Err(BspError::IndexOutOfRange { lump: LumpId::TexDataStringData, index: ofs as i64, len: data.len() });
        }
        let start = ofs as usize;
        let end = find_nul(data.as_slice(), start);
        if end >= data.len() {
            return Err(BspError::UnterminatedString { lump: LumpId::TexDataStringData, ofs: start });
        }
        Ok(string_or_empty(copy_range(data.as_slice(), start, end)))
    }

    /// Every material name in the map, indexed by texdata.
    pub fn texture_names(&self) -> (r: Result<Vec<String>, BspError>)
        requires
            self.wf(),
        ensures
            r matches Ok(v) ==> records_readable::<DTexData>(self.bytes(), LumpId::TexData) && v@.len()
                == lump_records::<DTexData>(self.bytes(), LumpId::TexData).len() && forall|i: int|
                0 <= i < v@.len() ==> is_texture_name(self.bytes(), i, #[trigger] v@[i]@),
            (records_readable::<DTexData>(self.bytes(), LumpId::TexData) && forall|i: int|
                0 <= i < lump_records::<DTexData>(self.bytes(), LumpId::TexData).len() ==> #[trigger] texture_name_found(
                    self.bytes(),
                    i,
                )) ==> r is Ok,
    {
        let count = self.texdatas()?.len();
        let mut names: Vec<String> = Vec::new();
        let mut i: usize = 0;
        while i < count
            invariant
                self.wf(),
                records_readable::<DTexData>(self.bytes(), LumpId::TexData),
                count == lump_records::<DTexData>(self.bytes(), LumpId::TexData).len(),
                i <= count,
                names@.len() == i,
                forall|j: int| 0 <= j < i ==> is_texture_name(self.bytes(), j, #[trigger] names@[j]@),
            decreases count - i,
        {
            let name = match self.texture_name(i) {
                Ok(name) => name,
                Err(e) => {
                    return Err(e);
                },
            };
            proof {
                reveal(is_texture_name);
            }
            assert(is_texture_name(self.bytes(), i as int, name@));
            let ghost prev = names@;
            names.push(name);
            assert forall|j: int| 0 <= j < i + 1 implies is_texture_name(self.bytes(), j, #[trigger] names@[j]@) by {
                if j < i {
                    assert(names@[j] == prev[j]);
                }
            }
            i = i + 1;
        }
        Ok(names)
    }

    /// The ENTITIES lump as text: a KeyValues document of `{ ... }` blocks,
    /// cut at its NUL terminator. Text that is not UTF-8 reads as empty.
    pub fn entities_str(&self) -> (r: Result<String, BspError>)
        requires
            self.wf(),
        ensures
            r is Ok == lump_readable(self.bytes(), LumpId::Entities),
            r matches Ok(s) ==> s@ == utf8_or_empty(
                lump_body(self.bytes(), LumpId::Entities).subrange(0, spec_find_nul(lump_body(self.bytes(), LumpId::Entities), 0)),
            ),
    {
        let bytes = self.lump_bytes(LumpId::Entities)?;
        let end = find_nul(bytes.as_slice(), 0);
        Ok(string_or_empty(copy_range(bytes.as_slice(), 0, end)))
    }

    /// The GAME_LUMP directory: an `i32` count followed by that many entries,
    /// as many as the lump actually holds.
    pub fn game_lumps(&self) -> (r: Result<Vec<DGameLump>, BspError>)
        requires
            self.wf(),
        ensures
            r is Ok == lump_readable(self.bytes(), LumpId::GameLump),
            r matches Ok(v) ==> v@ == spec_game_lumps(lump_body(self.bytes(), LumpId::GameLump)),
    {
        let bytes = self.lump_bytes(LumpId::GameLump)?;
        Ok(parse_game_lumps(bytes.as_slice()))
    }

}

/// The size check after decoding a compressed lump: the inflated body must be
/// exactly as long as its header promised.
pub fn finish_inflate(id: LumpId, decoded: Result<Vec<u8>, lzma_rs::error::Error>, actual: u32) -> (r: Result<
    Vec<u8>,
    BspError,
>)
    ensures
        match decoded {
            Ok(v) => if v@.len() == actual {
                r matches Ok(w) && w@ == v@
            } else {
                r matches Err(BspError::LzmaSizeMismatch { lump, got, want }) && lump == id && got == v@.len()
                    && want == actual
            },
            Err(_) => r matches Err(BspError::Lzma { lump, .. }) && lump == id,
        },
{
    match decoded {
        Ok(v) => {
            if v.len() as u64 != actual as u64 {
                let got = v.len();
                Err(BspError::LzmaSizeMismatch { lump: id, got, want: actual as usize })
            } else {
                Ok(v)
            }
        },
        Err(source) => Err(BspError::Lzma { lump: id, source }),
    }
}

/// The first NUL at or after `from`, or the length if there is none.
pub open spec fn spec_find_nul(s: Seq<u8>, from: int) -> int
    decreases s.len() - from,
{
    if from >= s.len() {
        s.len() as int
    } else if s[from] == 0 {
        from
    } else {
        spec_find_nul(s, from + 1)
    }
}

/// The first NUL at or after `from`, or the length if there is none.
pub fn find_nul(bytes: &[u8], from: usize) -> (r: usize)
    requires
        from <= bytes@.len(),
    ensures
        r == spec_find_nul(bytes@, from as int),
        from <= r <= bytes@.len(),
{
    let mut i = from;
    while i < bytes.len()
        invariant
            from <= i <= bytes@.len(),
            spec_find_nul(bytes@, i as int) == spec_find_nul(bytes@, from as int),
        decreases bytes@.len() - i,
    {
        if bytes[i] == 0 {
            return i;
        }
        i = i + 1;
    }
    i
}

/// The string-table index of a texdata's name.
pub open spec fn texture_name_id(data: Seq<u8>, index: int) -> int {
    lump_records::<DTexData>(data, LumpId::TexData)[index].name_string_table_id as int
}

/// The byte offset of a texdata's name in the string data.
pub open spec fn texture_name_offset(data: Seq<u8>, index: int) -> int {
    lump_records::<i32>(data, LumpId::TexDataStringTable)[texture_name_id(data, index)] as int
}

/// Whether texdata `index` names a NUL-terminated string.
pub open spec fn texture_name_found(data: Seq<u8>, index: int) -> bool {
    &&& records_readable::<DTexData>(data, LumpId::TexData)
    &&& 0 <= index < lump_records::<DTexData>(data, LumpId::TexData).len()
    &&& records_readable::<i32>(data, LumpId::TexDataStringTable)
    &&& 0 <= texture_name_id(data, index) < lump_records::<i32>(data, LumpId::TexDataStringTable).len()
    &&& lump_readable(data, LumpId::TexDataStringData)
    &&& 0 <= texture_name_offset(data, index) <= lump_body(data, LumpId::TexDataStringData).len()
    &&& spec_find_nul(lump_body(data, LumpId::TexDataStringData), texture_name_offset(data, index)) < lump_body(
        data,
        LumpId::TexDataStringData,
    ).len()
}

/// Whether `name` is what [`Bsp::texture_name`] reads for texdata `index`.
#[verifier::opaque]
pub open spec fn is_texture_name(data: Seq<u8>, index: int, name: Seq<char>) -> bool {
    texture_name_found(data, index) && name == utf8_or_empty(texture_name_bytes(data, index))
}

/// The bytes of texdata `index`'s name, without the terminator.
pub open spec fn texture_name_bytes(data: Seq<u8>, index: int) -> Seq<u8> {
    let strings = lump_body(data, LumpId::TexDataStringData);
    let start = texture_name_offset(data, index);
    strings.subrange(start, spec_find_nul(strings, start))
}

/// The GAME_LUMP directory entries in a lump body: as many as the leading
/// count asks for (none if it is negative), but no more than the body holds.
pub open spec fn spec_game_lumps(body: Seq<u8>) -> Seq<DGameLump> {
    if body.len() < 4 {
        Seq::empty()
    } else {
        let count = if le_i32(body, 0) > 0 { le_i32(body, 0) as int } else { 0 };
        let available = (body.len() - 4) / 16;
        let n = if count <= available { count } else { available };
        Seq::new(n as nat, |i: int| DGameLump::spec_read(body, 4 + 16 * i))
    }
}

/// Decode the GAME_LUMP directory from its lump body.
pub fn parse_game_lumps(bytes: &[u8]) -> (r: Vec<DGameLump>)
    ensures
        r@ == spec_game_lumps(bytes@),
{
    if bytes.len() < 4 {
        return Vec::new();
    }
    let raw_count = read_i32(bytes, 0);
    let count: usize = if raw_count > 0 { raw_count as usize } else { 0 };
    let available = (bytes.len() - 4) / 16;
    let n = if count <= available { count } else { available };
    let mut out: Vec<DGameLump> = Vec::new();
    let mut i: usize = 0;
    while i < n
        invariant
            n <= available,
            available == (bytes@.len() - 4) / 16,
            bytes@.len() >= 4,
            bytes@.len() <= usize::MAX,
            i <= n,
            out@.len() == i,
            forall|j: int| 0 <= j < i ==> #[trigger] out@[j] == DGameLump::spec_read(bytes@, 4 + 16 * j),
        decreases n - i,
    {
        out.push(DGameLump::read(bytes, 4 + 16 * i));
        i = i + 1;
    }
    assert(out@ =~= spec_game_lumps(bytes@));
    out
}

/// The vertices read from a file are its VERTEXES records in order, each
/// axis in file order: axis `j` of vertex `i` is the little-endian `u32` at
/// byte `12 * i + 4 * j` of the lump.
pub proof fn lemma_vertices_in_file_order(data: Seq<u8>)
    ensures
        lump_records::<DVertex>(data, LumpId::Vertexes).len() == lump_body(data, LumpId::Vertexes).len() / 12,
        forall|i: int|
            0 <= i < lump_records::<DVertex>(data, LumpId::Vertexes).len() ==> (#[trigger] lump_records::<DVertex>(
                data,
                LumpId::Vertexes,
            )[i]).point_bits == [
                le_u32(lump_body(data, LumpId::Vertexes), 12 * i),
                le_u32(lump_body(data, LumpId::Vertexes), 12 * i + 4),
                le_u32(lump_body(data, LumpId::Vertexes), 12 * i + 8),
            ],
{
    let b = lump_body(data, LumpId::Vertexes);
    let v = lump_records::<DVertex>(data, LumpId::Vertexes);
    assert forall|i: int| 0 <= i < v.len() implies (#[trigger] v[i]).point_bits == [
        le_u32(b, 12 * i),
        le_u32(b, 12 * i + 4),
        le_u32(b, 12 * i + 8),
    ] by {
        assert(v[i] == DVertex::spec_read(b, i * 12));
        assert(i * 12 == 12 * i);
    }
}

/// FACES records are `dface_t`s of 56 bytes, in file order: the plane
/// index at 0, the first surfedge at 4, the edge count at 8, the texinfo at
/// 10, the dispinfo at 12, the four styles at 16, the lighting byte offset at
/// 20 and the luxel extents at 36 and 40.
pub proof fn lemma_face_layout(data: Seq<u8>)
    ensures
        lump_records::<DFace>(data, LumpId::Faces).len() == lump_body(data, LumpId::Faces).len() / 56,
        forall|i: int|
            0 <= i < lump_records::<DFace>(data, LumpId::Faces).len() ==> {
                let r = #[trigger] lump_records::<DFace>(data, LumpId::Faces)[i];
                let b = lump_body(data, LumpId::Faces);
                let o = 56 * i;
                &&& r.planenum == le_u16(b, o)
            &&& r.firstedge == le_i32(b, o + 4)
            &&& r.numedges == le_i16(b, o + 8)
            &&& r.texinfo == le_i16(b, o + 10)
            &&& r.dispinfo == le_i16(b, o + 12)
            &&& r.styles == [le_u8(b, o + 16), le_u8(b, o + 17), le_u8(b, o + 18), le_u8(b, o + 19)]
            &&& r.lightofs == le_i32(b, o + 20)
            &&& r.lightmap_texture_size_in_luxels == [le_i32(b, o + 36), le_i32(b, o + 40)]
            },
{
    let b = lump_body(data, LumpId::Faces);
    let v = lump_records::<DFace>(data, LumpId::Faces);
    assert forall|i: int| 0 <= i < v.len() implies {
        let r = #[trigger] v[i];
        let o = 56 * i;
        &&& r.planenum == le_u16(b, o)
        &&& r.firstedge == le_i32(b, o + 4)
        &&& r.numedges == le_i16(b, o + 8)
        &&& r.texinfo == le_i16(b, o + 10)
        &&& r.dispinfo == le_i16(b, o + 12)
        &&& r.styles == [le_u8(b, o + 16), le_u8(b, o + 17), le_u8(b, o + 18), le_u8(b, o + 19)]
        &&& r.lightofs == le_i32(b, o + 20)
        &&& r.lightmap_texture_size_in_luxels == [le_i32(b, o + 36), le_i32(b, o + 40)]
    } by {
        assert(v[i] == DFace::spec_read(b, i * 56));
        assert(i * 56 == 56 * i);
    }
}

/// EDGES records are two `u16` vertex indices, first vertex first.
pub proof fn lemma_edge_layout(data: Seq<u8>)
    ensures
        lump_records::<DEdge>(data, LumpId::Edges).len() == lump_body(data, LumpId::Edges).len() / 4,
        forall|i: int|
            0 <= i < lump_records::<DEdge>(data, LumpId::Edges).len() ==> {
                let r = #[trigger] lump_records::<DEdge>(data, LumpId::Edges)[i];
                let b = lump_body(data, LumpId::Edges);
                let o = 4 * i;
                &&& r.v == [le_u16(b, o), le_u16(b, o + 2)]
            },
{
    let b = lump_body(data, LumpId::Edges);
    let v = lump_records::<DEdge>(data, LumpId::Edges);
    assert forall|i: int| 0 <= i < v.len() implies {
        let r = #[trigger] v[i];
        let o = 4 * i;
        &&& r.v == [le_u16(b, o), le_u16(b, o + 2)]
    } by {
        assert(v[i] == DEdge::spec_read(b, i * 4));
        assert(i * 4 == 4 * i);
    }
}

/// SURFEDGES records are the `i32` values of the lump, in order.
pub proof fn lemma_surfedge_layout(data: Seq<u8>)
    ensures
        lump_records::<i32>(data, LumpId::SurfEdges).len() == lump_body(data, LumpId::SurfEdges).len() / 4,
        forall|i: int|
            0 <= i < lump_records::<i32>(data, LumpId::SurfEdges).len() ==> {
                let r = #[trigger] lump_records::<i32>(data, LumpId::SurfEdges)[i];
                let b = lump_body(data, LumpId::SurfEdges);
                let o = 4 * i;
                &&& r == le_i32(b, o)
            },
{
    let b = lump_body(data, LumpId::SurfEdges);
    let v = lump_records::<i32>(data, LumpId::SurfEdges);
    assert forall|i: int| 0 <= i < v.len() implies {
        let r = #[trigger] v[i];
        let o = 4 * i;
        &&& r == le_i32(b, o)
    } by {
        assert(v[i] == i32::spec_read(b, i * 4));
        assert(i * 4 == 4 * i);
    }
}

/// TEXINFO records are `texinfo_t`s of 72 bytes: eight texture and eight
/// lightmap vector components, then the flags at 64 and the texdata index at
/// 68.
pub proof fn lemma_texinfo_layout(data: Seq<u8>)
    ensures
        lump_records::<TexInfo>(data, LumpId::TexInfo).len() == lump_body(data, LumpId::TexInfo).len() / 72,
        forall|i: int|
            0 <= i < lump_records::<TexInfo>(data, LumpId::TexInfo).len() ==> {
                let r = #[trigger] lump_records::<TexInfo>(data, LumpId::TexInfo)[i];
                let b = lump_body(data, LumpId::TexInfo);
                let o = 72 * i;
                &&& r.flags == le_i32(b, o + 64)
            &&& r.texdata == le_i32(b, o + 68)
            &&& r.lightmap_vecs_bits[0][0] == le_u32(b, o + 32)
            },
{
    let b = lump_body(data, LumpId::TexInfo);
    let v = lump_records::<TexInfo>(data, LumpId::TexInfo);
    assert forall|i: int| 0 <= i < v.len() implies {
        let r = #[trigger] v[i];
        let o = 72 * i;
        &&& r.flags == le_i32(b, o + 64)
        &&& r.texdata == le_i32(b, o + 68)
        &&& r.lightmap_vecs_bits[0][0] == le_u32(b, o + 32)
    } by {
        assert(v[i] == TexInfo::spec_read(b, i * 72));
        assert(i * 72 == 72 * i);
    }
}

/// DISPINFO records are `ddispinfo_t`s of 176 bytes: the start position,
/// then the first DISP_VERTS record at 12, the first DISP_TRIS record at 16,
/// the power at 20 and the parent face at 36.
pub proof fn lemma_dispinfo_layout(data: Seq<u8>)
    ensures
        lump_records::<DDispInfo>(data, LumpId::DispInfo).len() == lump_body(data, LumpId::DispInfo).len() / 176,
        forall|i: int|
            0 <= i < lump_records::<DDispInfo>(data, LumpId::DispInfo).len() ==> {
                let r = #[trigger] lump_records::<DDispInfo>(data, LumpId::DispInfo)[i];
                let b = lump_body(data, LumpId::DispInfo);
                let o = 176 * i;
                &&& r.disp_vert_start == le_i32(b, o + 12)
            &&& r.disp_tri_start == le_i32(b, o + 16)
            &&& r.power == le_i32(b, o + 20)
            &&& r.map_face == le_u16(b, o + 36)
            },
{
    let b = lump_body(data, LumpId::DispInfo);
    let v = lump_records::<DDispInfo>(data, LumpId::DispInfo);
    assert forall|i: int| 0 <= i < v.len() implies {
        let r = #[trigger] v[i];
        let o = 176 * i;
        &&& r.disp_vert_start == le_i32(b, o + 12)
        &&& r.disp_tri_start == le_i32(b, o + 16)
        &&& r.power == le_i32(b, o + 20)
        &&& r.map_face == le_u16(b, o + 36)
    } by {
        assert(v[i] == DDispInfo::spec_read(b, i * 176));
        assert(i * 176 == 176 * i);
    }
}

/// DISP_TRIS records are one `u16` of tags each.
pub proof fn lemma_disp_tri_layout(data: Seq<u8>)
    ensures
        lump_records::<DispTri>(data, LumpId::DispTris).len() == lump_body(data, LumpId::DispTris).len() / 2,
        forall|i: int|
            0 <= i < lump_records::<DispTri>(data, LumpId::DispTris).len() ==> {
                let r = #[trigger] lump_records::<DispTri>(data, LumpId::DispTris)[i];
                let b = lump_body(data, LumpId::DispTris);
                let o = 2 * i;
                &&& r.tags == le_u16(b, o)
            },
{
    let b = lump_body(data, LumpId::DispTris);
    let v = lump_records::<DispTri>(data, LumpId::DispTris);
    assert forall|i: int| 0 <= i < v.len() implies {
        let r = #[trigger] v[i];
        let o = 2 * i;
        &&& r.tags == le_u16(b, o)
    } by {
        assert(v[i] == DispTri::spec_read(b, i * 2));
        assert(i * 2 == 2 * i);
    }
}

/// LIGHTING records are `ColorRGBExp32` samples of 4 bytes: red, green,
/// blue, then the signed exponent.
pub proof fn lemma_lighting_layout(data: Seq<u8>)
    ensures
        lump_records::<ColorRgbExp32>(data, LumpId::Lighting).len() == lump_body(data, LumpId::Lighting).len() / 4,
        forall|i: int|
            0 <= i < lump_records::<ColorRgbExp32>(data, LumpId::Lighting).len() ==> {
                let r = #[trigger] lump_records::<ColorRgbExp32>(data, LumpId::Lighting)[i];
                let b = lump_body(data, LumpId::Lighting);
                let o = 4 * i;
                &&& r.r == le_u8(b, o)
            &&& r.g == le_u8(b, o + 1)
            &&& r.b == le_u8(b, o + 2)
            &&& r.exponent == le_i8(b, o + 3)
            },
{
    let b = lump_body(data, LumpId::Lighting);
    let v = lump_records::<ColorRgbExp32>(data, LumpId::Lighting);
    assert forall|i: int| 0 <= i < v.len() implies {
        let r = #[trigger] v[i];
        let o = 4 * i;
        &&& r.r == le_u8(b, o)
        &&& r.g == le_u8(b, o + 1)
        &&& r.b == le_u8(b, o + 2)
        &&& r.exponent == le_i8(b, o + 3)
    } by {
        assert(v[i] == ColorRgbExp32::spec_read(b, i * 4));
        assert(i * 4 == 4 * i);
    }
}

/// MODELS records are `dmodel_t`s of 48 bytes: bounds and origin, the head
/// node at 36, the first face at 40 and the face count at 44.
pub proof fn lemma_model_layout(data: Seq<u8>)
    ensures
        lump_records::<DModel>(data, LumpId::Models).len() == lump_body(data, LumpId::Models).len() / 48,
        forall|i: int|
            0 <= i < lump_records::<DModel>(data, LumpId::Models).len() ==> {
                let r = #[trigger] lump_records::<DModel>(data, LumpId::Models)[i];
                let b = lump_body(data, LumpId::Models);
                let o = 48 * i;
                &&& r.headnode == le_i32(b, o + 36)
            &&& r.firstface == le_i32(b, o + 40)
            &&& r.numfaces == le_i32(b, o + 44)
            },
{
    let b = lump_body(data, LumpId::Models);
    let v = lump_records::<DModel>(data, LumpId::Models);
    assert forall|i: int| 0 <= i < v.len() implies {
        let r = #[trigger] v[i];
        let o = 48 * i;
        &&& r.headnode == le_i32(b, o + 36)
        &&& r.firstface == le_i32(b, o + 40)
        &&& r.numfaces == le_i32(b, o + 44)
    } by {
        assert(v[i] == DModel::spec_read(b, i * 48));
        assert(i * 48 == 48 * i);
    }
}

/// TEXDATA records are `dtexdata_t`s of 32 bytes: the reflectivity, then
/// the name's string-table index at 12 and the size at 16 and 20.
pub proof fn lemma_texdata_layout(data: Seq<u8>)
    ensures
        lump_records::<DTexData>(data, LumpId::TexData).len() == lump_body(data, LumpId::TexData).len() / 32,
        forall|i: int|
            0 <= i < lump_records::<DTexData>(data, LumpId::TexData).len() ==> {
                let r = #[trigger] lump_records::<DTexData>(data, LumpId::TexData)[i];
                let b = lump_body(data, LumpId::TexData);
                let o = 32 * i;
                &&& r.name_string_table_id == le_i32(b, o + 12)
            &&& r.width == le_i32(b, o + 16)
            &&& r.height == le_i32(b, o + 20)
            },
{
    let b = lump_body(data, LumpId::TexData);
    let v = lump_records::<DTexData>(data, LumpId::TexData);
    assert forall|i: int| 0 <= i < v.len() implies {
        let r = #[trigger] v[i];
        let o = 32 * i;
        &&& r.name_string_table_id == le_i32(b, o + 12)
        &&& r.width == le_i32(b, o + 16)
        &&& r.height == le_i32(b, o + 20)
    } by {
        assert(v[i] == DTexData::spec_read(b, i * 32));
        assert(i * 32 == 32 * i);
    }
}

/// PLANES records are `dplane_t`s of 20 bytes: the normal, the distance
/// and the type.
pub proof fn lemma_plane_layout(data: Seq<u8>)
    ensures
        lump_records::<DPlane>(data, LumpId::Planes).len() == lump_body(data, LumpId::Planes).len() / 20,
        forall|i: int|
            0 <= i < lump_records::<DPlane>(data, LumpId::Planes).len() ==> {
                let r = #[trigger] lump_records::<DPlane>(data, LumpId::Planes)[i];
                let b = lump_body(data, LumpId::Planes);
                let o = 20 * i;
                &&& r.normal_bits == [le_u32(b, o), le_u32(b, o + 4), le_u32(b, o + 8)]
            &&& r.dist_bits == le_u32(b, o + 12)
            &&& r.kind == le_i32(b, o + 16)
            },
{
    let b = lump_body(data, LumpId::Planes);
    let v = lump_records::<DPlane>(data, LumpId::Planes);
    assert forall|i: int| 0 <= i < v.len() implies {
        let r = #[trigger] v[i];
        let o = 20 * i;
        &&& r.normal_bits == [le_u32(b, o), le_u32(b, o + 4), le_u32(b, o + 8)]
        &&& r.dist_bits == le_u32(b, o + 12)
        &&& r.kind == le_i32(b, o + 16)
    } by {
        assert(v[i] == DPlane::spec_read(b, i * 20));
        assert(i * 20 == 20 * i);
    }
}

} // verus!
