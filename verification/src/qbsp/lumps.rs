//! The lump directory of a Quake-family BSP file.

use vstd::prelude::*;

use crate::le::le_u32;
use crate::qbsp::reader::{can_read, BspByteReader};
use crate::qbsp::{BspFormat, BspParseError, BspParseResultDoingJobExt, LumpEntry};

verus! {

impl LumpEntry {
    /// Whether the lump reaches past `len` bytes.
    pub open spec fn spec_out_of(&self, len: int) -> bool {
        self.offset + self.len > len
    }

    /// The bytes of `data` this entry points to.
    pub fn get<'a>(&self, data: &'a [u8]) -> (r: Result<&'a [u8], BspParseError>)
        ensures
            self.spec_out_of(data@.len() as int) ==> (r matches Err(BspParseError::LumpOutOfBounds(e)) && e == *self),
            !self.spec_out_of(data@.len() as int) ==> (r matches Ok(b) && b@ == data@.subrange(
                self.offset as int,
                self.offset + self.len,
            )),
    {
        let from = self.offset as u64;
        let to = from + self.len as u64;
        if to > data.len() as u64 {
            Err(BspParseError::LumpOutOfBounds(*self))
        } else {
            Ok(&data[from as usize..to as usize])
        }
    }

    /// Whether the lump holds no data.
    pub fn is_empty(&self) -> (r: bool)
        ensures
            r == (self.len == 0),
    {
        self.len == 0
    }

    /// Read an entry: `offset`, then `len`, both `u32`.
    pub fn parse(reader: &mut BspByteReader) -> (r: Result<LumpEntry, BspParseError>)
        requires
            old(reader).cursor() + 8 <= usize::MAX,
        ensures
            final(reader).data() == old(reader).data(),
            final(reader).context() == old(reader).context(),
            can_read(*old(reader), 8) ==> r == Ok::<LumpEntry, BspParseError>(
                entry_at(old(reader).data(), old(reader).cursor()),
            ) && final(reader).cursor() == old(reader).cursor() + 8,
            !can_read(*old(reader), 8) ==> (r matches Err(e) && e is BufferOutOfBounds),
    {
        let offset = reader.read_u32()?;
        let len = reader.read_u32()?;
        Ok(LumpEntry { offset, len })
    }
}

/// The entry whose bytes start at `at`.
pub open spec fn entry_at(d: Seq<u8>, at: int) -> LumpEntry {
    LumpEntry { offset: le_u32(d, at), len: le_u32(d, at + 4) }
}

/// A lump entry that only formats before Quake 2 have.
#[derive(Debug, Clone, Copy, PartialEq, Eq)]
pub struct PreBsp38LumpEntry(pub Option<LumpEntry>);

/// A lump entry that only Quake 2 and Qbism have.
#[derive(Debug, Clone, Copy, PartialEq, Eq)]
pub struct Bsp38OnlyLumpEntry(pub Option<LumpEntry>);

/// The list of lump entries.
#[derive(Debug, Clone, Copy, PartialEq, Eq)]
pub struct LumpDirectory {
    pub entities: LumpEntry,
    pub planes: LumpEntry,
    /// Embedded textures; not in Quake 2.
    pub textures: PreBsp38LumpEntry,
    pub vertices: LumpEntry,
    pub visibility: LumpEntry,
    pub nodes: LumpEntry,
    pub tex_info: LumpEntry,
    pub faces: LumpEntry,
    pub lighting: LumpEntry,
    /// Clip nodes; not in Quake 2, which collides against brushes.
    pub clip_nodes: PreBsp38LumpEntry,
    pub leaves: LumpEntry,
    pub mark_surfaces: LumpEntry,
    pub leaf_brushes: Bsp38OnlyLumpEntry,
    pub edges: LumpEntry,
    pub surf_edges: LumpEntry,
    pub models: LumpEntry,
    pub brushes: Bsp38OnlyLumpEntry,
    pub brush_sides: Bsp38OnlyLumpEntry,
    pub pop: Bsp38OnlyLumpEntry,
    pub areas: Bsp38OnlyLumpEntry,
    pub area_portals: Bsp38OnlyLumpEntry,
}

/// Whether the format is Quake 2's or Qbism's.
pub open spec fn is_q2(f: BspFormat) -> bool {
    f is BSP38 || f is BSP38Qbism
}

/// Bytes the directory takes: 15 entries before Quake 2, 19 from it on.
pub open spec fn directory_size(f: BspFormat) -> int {
    if is_q2(f) {
        152int
    } else {
        120int
    }
}

/// The directory whose entries start at `c` in `d`, for format `f`.
pub open spec fn spec_directory(d: Seq<u8>, c: int, f: BspFormat) -> LumpDirectory {
    if is_q2(f) {
        LumpDirectory {
            entities: entry_at(d, c),
            planes: entry_at(d, c + 8),
            textures: PreBsp38LumpEntry(None),
            vertices: entry_at(d, c + 16),
            visibility: entry_at(d, c + 24),
            nodes: entry_at(d, c + 32),
            tex_info: entry_at(d, c + 40),
            faces: entry_at(d, c + 48),
            lighting: entry_at(d, c + 56),
            clip_nodes: PreBsp38LumpEntry(None),
            leaves: entry_at(d, c + 64),
            mark_surfaces: entry_at(d, c + 72),
            leaf_brushes: Bsp38OnlyLumpEntry(Some(entry_at(d, c + 80))),
            edges: entry_at(d, c + 88),
            surf_edges: entry_at(d, c + 96),
            models: entry_at(d, c + 104),
            brushes: Bsp38OnlyLumpEntry(Some(entry_at(d, c + 112))),
            brush_sides: Bsp38OnlyLumpEntry(Some(entry_at(d, c + 120))),
            pop: Bsp38OnlyLumpEntry(Some(entry_at(d, c + 128))),
            areas: Bsp38OnlyLumpEntry(Some(entry_at(d, c + 136))),
            area_portals: Bsp38OnlyLumpEntry(Some(entry_at(d, c + 144))),
        }
    } else {
        LumpDirectory {
            entities: entry_at(d, c),
            planes: entry_at(d, c + 8),
            textures: PreBsp38LumpEntry(Some(entry_at(d, c + 16))),
            vertices: entry_at(d, c + 24),
            visibility: entry_at(d, c + 32),
            nodes: entry_at(d, c + 40),
            tex_info: entry_at(d, c + 48),
            faces: entry_at(d, c + 56),
            lighting: entry_at(d, c + 64),
            clip_nodes: PreBsp38LumpEntry(Some(entry_at(d, c + 72))),
            leaves: entry_at(d, c + 80),
            mark_surfaces: entry_at(d, c + 88),
            leaf_brushes: Bsp38OnlyLumpEntry(None),
            edges: entry_at(d, c + 96),
            surf_edges: entry_at(d, c + 104),
            models: entry_at(d, c + 112),
            brushes: Bsp38OnlyLumpEntry(None),
            brush_sides: Bsp38OnlyLumpEntry(None),
            pop: Bsp38OnlyLumpEntry(None),
            areas: Bsp38OnlyLumpEntry(None),
            area_portals: Bsp38OnlyLumpEntry(None),
        }
    }
}

/// An optional entry as a sequence of zero or one entries.
pub open spec fn opt_seq(e: Option<LumpEntry>) -> Seq<LumpEntry> {
    match e {
        Some(x) => seq![x],
        None => Seq::empty(),
    }
}

/// The present entries of `slots`, in order.
pub open spec fn present(slots: Seq<Option<LumpEntry>>) -> Seq<LumpEntry>
    decreases slots.len(),
{
    if slots.len() == 0 {
        Seq::empty()
    } else {
        present(slots.drop_last()) + opt_seq(slots.last())
    }
}

/// A directory's 21 slots in file order, absent ones as `None`.
pub open spec fn entry_slots(d: LumpDirectory) -> Seq<Option<LumpEntry>> {
    seq![
        Some(d.entities),
        Some(d.planes),
        d.textures.0,
        Some(d.vertices),
        Some(d.visibility),
        Some(d.nodes),
        Some(d.tex_info),
        Some(d.faces),
        Some(d.lighting),
        d.clip_nodes.0,
        Some(d.leaves),
        Some(d.mark_surfaces),
        d.leaf_brushes.0,
        Some(d.edges),
        Some(d.surf_edges),
        Some(d.models),
        d.brushes.0,
        d.brush_sides.0,
        d.pop.0,
        d.areas.0,
        d.area_portals.0,
    ]
}

/// The entries a directory has, in file order.
pub open spec fn spec_bsp_entries(d: LumpDirectory) -> Seq<LumpEntry> {
    present(entry_slots(d))
}

proof fn lemma_present_nonempty(slots: Seq<Option<LumpEntry>>)
    requires
        slots.len() >= 1,
        slots[0] is Some,
    ensures
        present(slots).len() >= 1,
    decreases slots.len(),
{
    if slots.len() > 1 {
        lemma_present_nonempty(slots.drop_last());
    } else {
        assert(slots.drop_last().len() == 0);
    }
}

fn push_opt(out: &mut Vec<LumpEntry>, e: Option<LumpEntry>)
    ensures
        final(out)@ == old(out)@ + opt_seq(e),
{
    match e {
        Some(x) => {
            out.push(x);
        },
        None => {},
    }
    assert(out@ =~= old(out)@ + opt_seq(e));
}

impl LumpDirectory {
    /// The entries this directory has, in file order.
    pub fn bsp_entries(&self) -> (r: Vec<LumpEntry>)
        ensures
            r@ == spec_bsp_entries(*self),
    {
        let slots = [
            Some(self.entities),
            Some(self.planes),
            self.textures.0,
            Some(self.vertices),
            Some(self.visibility),
            Some(self.nodes),
            Some(self.tex_info),
            Some(self.faces),
            Some(self.lighting),
            self.clip_nodes.0,
            Some(self.leaves),
            Some(self.mark_surfaces),
            self.leaf_brushes.0,
            Some(self.edges),
            Some(self.surf_edges),
            Some(self.models),
            self.brushes.0,
            self.brush_sides.0,
            self.pop.0,
            self.areas.0,
            self.area_portals.0,
        ];
        assert(slots@ =~= entry_slots(*self));
        let mut out: Vec<LumpEntry> = Vec::new();
        let mut i: usize = 0;
        while i < 21
            invariant
                i <= 21,
                slots@.len() == 21,
                out@ == present(slots@.subrange(0, i as int)),
            decreases 21 - i,
        {
            push_opt(&mut out, slots[i]);
            i = i + 1;
            assert(slots@.subrange(0, i as int).drop_last() =~= slots@.subrange(0, i - 1));
        }
        assert(slots@.subrange(0, 21) =~= slots@);
        out
    }

    /// Where the last lump ends: the largest `offset + len` of the entries,
    /// which is where a BSPX directory would follow.
    pub fn end_of_lumps(&self) -> (r: u64)
        ensures
            forall|i: int| 0 <= i < spec_bsp_entries(*self).len() ==> spec_bsp_entries(*self)[i].offset
                + spec_bsp_entries(*self)[i].len <= r,
            exists|i: int| 0 <= i < spec_bsp_entries(*self).len() && spec_bsp_entries(*self)[i].offset
                + spec_bsp_entries(*self)[i].len == r,
    {
        let entries = self.bsp_entries();
        proof {
            lemma_present_nonempty(entry_slots(*self));
        }
        let mut best: u64 = entries[0].offset as u64 + entries[0].len as u64;
        let mut i: usize = 1;
        while i < entries.len()
            invariant
                1 <= i <= entries@.len(),
                entries@ == spec_bsp_entries(*self),
                forall|j: int| 0 <= j < i ==> entries@[j].offset + entries@[j].len <= best,
                exists|j: int| 0 <= j < i && entries@[j].offset + entries@[j].len == best,
            decreases entries@.len() - i,
        {
            let e = entries[i];
            let end = e.offset as u64 + e.len as u64;
            if end > best {
                best = end;
            }
            i = i + 1;
        }
        best
    }
}

/// Read the directory's entries at the reader's position, in the layout of
/// the reader's format.
pub fn parse_lump_directory(reader: &mut BspByteReader) -> (r: Result<LumpDirectory, BspParseError>)
    requires
        old(reader).cursor() + 19 * 8 <= usize::MAX,
    ensures
        final(reader).data() == old(reader).data(),
        final(reader).context() == old(reader).context(),
        (r is Ok) == can_read(*old(reader), directory_size(old(reader).context().format)),
        r matches Ok(d) ==> d == spec_directory(old(reader).data(), old(reader).cursor(), old(reader).context().format)
            && final(reader).cursor() == old(reader).cursor() + directory_size(old(reader).context().format),
        r matches Err(e) ==> (e matches BspParseError::DoingJob(_, inner) && *inner is BufferOutOfBounds),
{
    let ghost d = reader.data();
    let ghost c = reader.cursor();
    let q2 = reader.format().is_quake2();
    let entities = LumpEntry::parse(reader).job("Reading entities entry")?;
    let planes = LumpEntry::parse(reader).job("Reading planes entry")?;
    let textures = if q2 {
        PreBsp38LumpEntry(None)
    } else {
        PreBsp38LumpEntry(Some(LumpEntry::parse(reader).job("Reading textures entry")?))
    };
    let vertices = LumpEntry::parse(reader).job("Reading vertices entry")?;
    let visibility = LumpEntry::parse(reader).job("Reading visibility entry")?;
    let nodes = LumpEntry::parse(reader).job("Reading nodes entry")?;
    let tex_info = LumpEntry::parse(reader).job("Reading tex_info entry")?;
    let faces = LumpEntry::parse(reader).job("Reading faces entry")?;
    let lighting = LumpEntry::parse(reader).job("Reading lighting entry")?;
    let clip_nodes = if q2 {
        PreBsp38LumpEntry(None)
    } else {
        PreBsp38LumpEntry(Some(LumpEntry::parse(reader).job("Reading clip_nodes entry")?))
    };
    let leaves = LumpEntry::parse(reader).job("Reading leaves entry")?;
    let mark_surfaces = LumpEntry::parse(reader).job("Reading mark_surfaces entry")?;
    let leaf_brushes = if q2 {
        Bsp38OnlyLumpEntry(Some(LumpEntry::parse(reader).job("Reading leaf brushes entry")?))
    } else {
        Bsp38OnlyLumpEntry(None)
    };
    let edges = LumpEntry::parse(reader).job("Reading edges entry")?;
    let surf_edges = LumpEntry::parse(reader).job("Reading surf_edges entry")?;
    let models = LumpEntry::parse(reader).job("Reading models entry")?;
    let brushes = if q2 {
        Bsp38OnlyLumpEntry(Some(LumpEntry::parse(reader).job("Reading brushes entry")?))
    } else {
        Bsp38OnlyLumpEntry(None)
    };
    let brush_sides = if q2 {
        Bsp38OnlyLumpEntry(Some(LumpEntry::parse(reader).job("Reading brush_sides entry")?))
    } else {
        Bsp38OnlyLumpEntry(None)
    };
    let pop = if q2 {
        Bsp38OnlyLumpEntry(Some(LumpEntry::parse(reader).job("Reading pop entry")?))
    } else {
        Bsp38OnlyLumpEntry(None)
    };
    let areas = if q2 {
        Bsp38OnlyLumpEntry(Some(LumpEntry::parse(reader).job("Reading areas entry")?))
    } else {
        Bsp38OnlyLumpEntry(None)
    };
    let area_portals = if q2 {
        Bsp38OnlyLumpEntry(Some(LumpEntry::parse(reader).job("Reading area_portals entry")?))
    } else {
        Bsp38OnlyLumpEntry(None)
    };
    Ok(
        LumpDirectory {
            entities,
            planes,
            textures,
            vertices,
            visibility,
            nodes,
            tex_info,
            faces,
            lighting,
            clip_nodes,
            leaves,
            mark_surfaces,
            leaf_brushes,
            edges,
            surf_edges,
            models,
            brushes,
            brush_sides,
            pop,
            areas,
            area_portals,
        },
    )
}

} // verus!
