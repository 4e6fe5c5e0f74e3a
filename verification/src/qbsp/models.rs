//! Models, edges and faces of the Quake-family formats.

use vstd::prelude::*;

use crate::le::{le_i32, le_u16, le_u32};
use crate::qbsp::lighting::{LightmapOffset, LightmapStyle};
use crate::qbsp::nodes::BspNodeRef;
use crate::qbsp::reader::{can_read, BspByteReader};
use crate::qbsp::values::{wide_values, UBspValue};
use crate::qbsp::BspParseError;

verus! {

/// Hulls used for collision. Quake 2 has only the root, as it collides
/// against brushes instead.
#[derive(Clone, Copy, Debug, PartialEq, Eq)]
pub struct Hulls {
    /// The root hull, used for visibility and point traces.
    pub root: BspNodeRef<u32>,
    /// Hulls for collision with non-point entities.
    pub for_size: Option<PerSizeHulls>,
}

/// Hulls for entities with bounding boxes of different sizes.
#[derive(Clone, Copy, Debug, PartialEq, Eq)]
pub struct PerSizeHulls {
    /// For entities up to 32 units wide, such as players.
    pub small: BspNodeRef<u32>,
    /// For entities wider than 32 units.
    pub large: BspNodeRef<u32>,
    /// Unused by the Quake 1 engine.
    pub unused: BspNodeRef<u32>,
}

/// A model's count of visleafs; Quake 2 uses clusters and omits it.
#[derive(Debug, Copy, Clone, PartialEq, Eq)]
pub struct VisleafsField(pub Option<u32>);

/// An edge between two vertices.
#[derive(Debug, Clone, Copy, PartialEq, Eq, Hash)]
pub struct BspEdge {
    pub a: UBspValue,
    pub b: UBspValue,
}

/// A variable-width unsigned value at `at`: 32 bits when `wide`, else 16.
pub open spec fn uvalue_at(d: Seq<u8>, at: int, wide: bool) -> u32 {
    if wide {
        le_u32(d, at)
    } else {
        le_u16(d, at) as u32
    }
}

impl BspEdge {
    /// Read an edge in the reader's format.
    pub fn parse(reader: &mut BspByteReader) -> (r: Result<BspEdge, BspParseError>)
        requires
            old(reader).cursor() + 8 <= usize::MAX,
        ensures
            final(reader).data() == old(reader).data(),
            final(reader).context() == old(reader).context(),
            ({
                let wide = wide_values(old(reader).context().format);
                let w: int = if wide { 4 } else { 2 };
                let d = old(reader).data();
                let c = old(reader).cursor();
                &&& can_read(*old(reader), 2 * w) ==> final(reader).cursor() == c + 2 * w && r == Ok::<
                    BspEdge,
                    BspParseError,
                >(BspEdge { a: UBspValue(uvalue_at(d, c, wide)), b: UBspValue(uvalue_at(d, c + w, wide)) })
                &&& !can_read(*old(reader), 2 * w) ==> r is Err
            }),
    {
        let a = UBspValue::parse(reader)?;
        let b = UBspValue::parse(reader)?;
        Ok(BspEdge { a, b })
    }
}

/// A face of a Quake-family map.
#[derive(Debug, Clone, Copy, PartialEq, Eq)]
pub struct BspFace {
    /// Index of the plane the face lies in.
    pub plane_idx: UBspValue,
    /// Non-zero when the face is on the back of its plane.
    pub plane_side: UBspValue,
    /// Index of the first surface edge.
    pub first_edge: u32,
    pub num_edges: UBspValue,
    pub texture_info_idx: UBspValue,
    /// Up to four lightmap styles; 255 ends the list.
    pub lightmap_styles: [LightmapStyle; 4],
    /// Where the face's lightmap starts, in pixels, or -1 for none.
    pub lightmap_offset: LightmapOffset,
}

impl BspFace {
    /// Bytes a face takes in the format: four variable-width values, a
    /// `u32`, four style bytes and the offset.
    pub open spec fn spec_size(wide: bool) -> int {
        if wide {
            28
        } else {
            20
        }
    }

    /// Read a face in the reader's format.
    pub fn parse(reader: &mut BspByteReader) -> (r: Result<BspFace, BspParseError>)
        requires
            old(reader).cursor() + 28 <= usize::MAX,
        ensures
            final(reader).data() == old(reader).data(),
            final(reader).context() == old(reader).context(),
            ({
                let f = old(reader).context().format;
                let wide = wide_values(f);
                let w: int = if wide { 4 } else { 2 };
                let d = old(reader).data();
                let c = old(reader).cursor();
                let o = le_i32(d, c + 4 * w + 8);
                &&& can_read(*old(reader), Self::spec_size(wide)) ==> final(reader).cursor() == c + Self::spec_size(
                    wide,
                ) && (r matches Ok(face) && face.plane_idx.0 == uvalue_at(d, c, wide) && face.plane_side.0
                    == uvalue_at(d, c + w, wide) && face.first_edge == le_u32(d, c + 2 * w) && face.num_edges.0
                    == uvalue_at(d, c + 2 * w + 4, wide) && face.texture_info_idx.0 == uvalue_at(
                    d,
                    c + 3 * w + 4,
                    wide,
                ) && face.lightmap_styles[0].0 == d[c + 4 * w + 4] && face.lightmap_styles[1].0 == d[c + 4 * w + 5]
                    && face.lightmap_styles[2].0 == d[c + 4 * w + 6] && face.lightmap_styles[3].0 == d[c + 4 * w + 7]
                    && if f is BSP2 || f is BSP29 {
                    face.lightmap_offset.pixels == o
                } else {
                    face.lightmap_offset.pixels == o / 3 || (o < 0 && face.lightmap_offset.pixels == -((-o) / 3))
                })
                &&& !can_read(*old(reader), Self::spec_size(wide)) ==> r is Err
            }),
    {
        let plane_idx = UBspValue::parse(reader)?;
        let plane_side = UBspValue::parse(reader)?;
        let first_edge = reader.read_u32()?;
        let num_edges = UBspValue::parse(reader)?;
        let texture_info_idx = UBspValue::parse(reader)?;
        let s0 = reader.read_u8()?;
        let s1 = reader.read_u8()?;
        let s2 = reader.read_u8()?;
        let s3 = reader.read_u8()?;
        let lightmap_offset = LightmapOffset::parse(reader)?;
        Ok(
            BspFace {
                plane_idx,
                plane_side,
                first_edge,
                num_edges,
                texture_info_idx,
                lightmap_styles: [LightmapStyle(s0), LightmapStyle(s1), LightmapStyle(s2), LightmapStyle(s3)],
                lightmap_offset,
            },
        )
    }

    /// Whether every surface edge of the face, and the edge it names, exist.
    pub open spec fn edges_in_range(&self, surface_edges: Seq<i32>, edges: Seq<BspEdge>) -> bool {
        &&& self.first_edge + self.num_edges.0 <= surface_edges.len()
        &&& forall|i: int|
            self.first_edge <= i < self.first_edge + self.num_edges.0 ==> {
                let se = #[trigger] surface_edges[i];
                if se < 0 {
                    -(se as int) < edges.len()
                } else {
                    (se as int) < edges.len()
                }
            }
    }

    /// The VERTICES indices of the face's corners, in winding order: for
    /// each surface edge, the edge's end it starts from.
    pub fn vertex_indices(&self, surface_edges: &[i32], edges: &[BspEdge]) -> (r: Vec<u32>)
        requires
            self.edges_in_range(surface_edges@, edges@),
        ensures
            r@.len() == self.num_edges.0,
            forall|k: int|
                0 <= k < r@.len() ==> {
                    let se = surface_edges@[self.first_edge + k];
                    #[trigger] r@[k] == if se < 0 {
                        edges@[-(se as int)].b.0
                    } else {
                        edges@[se as int].a.0
                    }
                },
    {
        let _n = surface_edges.len();
        let first = self.first_edge as usize;
        let count = self.num_edges.0 as usize;
        let mut out: Vec<u32> = Vec::new();
        let mut k: usize = 0;
        while k < count
            invariant
                first == self.first_edge,
                count == self.num_edges.0,
                surface_edges@.len() <= usize::MAX,
                self.edges_in_range(surface_edges@, edges@),
                k <= count,
                out@.len() == k,
                forall|j: int|
                    0 <= j < k ==> {
                        let se = surface_edges@[self.first_edge + j];
                        #[trigger] out@[j] == if se < 0 {
                            edges@[-(se as int)].b.0
                        } else {
                            edges@[se as int].a.0
                        }
                    },
            decreases count - k,
        {
            let se = surface_edges[first + k];
            let v = if se < 0 {
                edges[(-(se as i64)) as usize].b.0
            } else {
                edges[se as usize].a.0
            };
            out.push(v);
            k = k + 1;
        }
        out
    }
}

/// A model: worldspawn is model 0, brush entities name the others `*N`.
#[derive(Debug, Clone, Copy, PartialEq, Eq)]
pub struct BspModel {
    /// Bounds, as `f32` bit patterns: `min` then `max`.
    pub bound_min: [u32; 3],
    pub bound_max: [u32; 3],
    /// Origin, as `f32` bit patterns; usually zero.
    pub origin: [u32; 3],
    pub hulls: Hulls,
    pub visleafs: VisleafsField,
    pub first_face: u32,
    pub num_faces: u32,
}

} // verus!
