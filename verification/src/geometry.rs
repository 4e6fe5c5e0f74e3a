//! Which brush faces of a model become geometry, and how they are grouped.
//!
//! A model's faces are walked in lump order. Each face either contributes a
//! polygon, whose corners are read off its signed edge ring, or is skipped for
//! a counted reason. Contributing faces are grouped by material (`texdata`),
//! one surface per material, in the order materials are first seen, so a map
//! draws with one call per material rather than one per face.
//!
//! Everything here is index work. Positions, normals and texture coordinates
//! are floating point and are left to the renderer, which reads them through
//! the vertex and plane indices recorded in each [`PlannedFace`].

use vstd::prelude::*;

use crate::file::{is_lump_error, lump_records, records_error, records_readable, Bsp, BspError};
use crate::flags::SURF_SKIP_RENDER;
use crate::lump::LumpId;
use crate::raw::{DEdge, DFace, DModel, DPlane, DTexData, DVertex, TexInfo};

verus! {

/// The span of one BSP face inside a surface's vertex buffer.
#[derive(Clone, Copy, Debug, PartialEq, Eq)]
pub struct FaceChunk {
    /// Index into the FACES lump.
    pub face: u32,
    pub first_vertex: u32,
    pub vertex_count: u32,
}

/// Why faces contributed no geometry.
#[derive(Clone, Copy, Debug, PartialEq, Eq)]
pub struct SkipCounts {
    /// No usable texinfo or texdata: nothing to draw with.
    pub no_texinfo: usize,
    /// Tool brushes and sky placeholders, per [`SURF_SKIP_RENDER`].
    pub tool_surface: usize,
    /// `dispinfo >= 0`; built by the displacement tessellator instead.
    pub displacement: usize,
    /// Fewer than three edges, so not a polygon.
    pub too_few_edges: usize,
    /// A surfedge, edge, vertex or plane index pointed outside its lump.
    pub bad_index: usize,
}

/// Counters for a model build.
#[derive(Clone, Copy, Debug, PartialEq, Eq)]
pub struct BuildStats {
    pub faces_total: usize,
    pub faces_built: usize,
    pub skipped: SkipCounts,
    pub vertices: usize,
    pub triangles: usize,
    /// Zero-area fan triangles dropped; normal map content, not an error.
    pub degenerate_triangles: usize,
}

impl BuildStats {
    pub open spec fn spec_faces_skipped(&self) -> int {
        self.skipped.no_texinfo + self.skipped.tool_surface + self.skipped.displacement
            + self.skipped.too_few_edges + self.skipped.bad_index
    }

    /// Faces that contributed nothing, for any reason.
    pub fn faces_skipped(&self) -> (r: usize)
        requires
            self.spec_faces_skipped() <= usize::MAX,
        ensures
            r == self.spec_faces_skipped(),
    {
        let s = &self.skipped;
        s.no_texinfo + s.tool_surface + s.displacement + s.too_few_edges + s.bad_index
    }
}

/// What a face contributes.
#[derive(Clone, Copy, Debug, PartialEq, Eq)]
pub enum FaceOutcome {
    Displacement,
    NoTexinfo,
    ToolSurface,
    TooFewEdges,
    BadIndex,
    Built,
}

/// The lumps a face is resolved against, by value.
pub struct FaceLumps {
    pub texinfos: Seq<TexInfo>,
    pub texdata_count: int,
    pub surfedges: Seq<i32>,
    pub edges: Seq<DEdge>,
    pub vertex_count: int,
    pub plane_count: int,
}

/// The lumps a face is resolved against: texinfos, and the surfedge ring it
/// walks to reach vertex indices. Only the sizes of the texdata, vertex and
/// plane lumps matter here.
pub struct FaceTables {
    pub texinfos: Vec<TexInfo>,
    pub texdata_count: usize,
    pub surfedges: Vec<i32>,
    pub edges: Vec<DEdge>,
    pub vertex_count: usize,
    pub plane_count: usize,
}

impl View for FaceTables {
    type V = FaceLumps;

    open spec fn view(&self) -> FaceLumps {
        FaceLumps {
            texinfos: self.texinfos@,
            texdata_count: self.texdata_count as int,
            surfedges: self.surfedges@,
            edges: self.edges@,
            vertex_count: self.vertex_count as int,
            plane_count: self.plane_count as int,
        }
    }
}

/// The edge a signed surfedge names: negative means the edge traversed
/// backwards.
pub open spec fn surfedge_edge(surfedge: i32) -> int {
    if surfedge >= 0 {
        surfedge as int
    } else {
        -(surfedge as int)
    }
}

/// The vertex a surfedge starts from: the edge's first end, or its second
/// end when traversed backwards.
pub open spec fn surfedge_vertex(edges: Seq<DEdge>, surfedge: i32) -> int {
    if surfedge >= 0 {
        edges[surfedge_edge(surfedge)].v[0] as int
    } else {
        edges[surfedge_edge(surfedge)].v[1] as int
    }
}

/// Whether the surfedge `i` places into a ring from `firstedge` exists,
/// names an edge, and that edge's starting vertex exists.
pub open spec fn ring_slot_ok(surfedges: Seq<i32>, edges: Seq<DEdge>, vertex_count: int, firstedge: i32, i: int) -> bool {
    let se = surfedges[firstedge + i];
    &&& firstedge + i < surfedges.len()
    &&& surfedge_edge(se) < edges.len()
    &&& surfedge_vertex(edges, se) < vertex_count
}

/// Whether every slot of an `n`-edge ring from `firstedge` is in range.
pub open spec fn ring_in_bounds(surfedges: Seq<i32>, edges: Seq<DEdge>, vertex_count: int, firstedge: i32, n: int) -> bool {
    &&& firstedge >= 0
    &&& forall|i: int| 0 <= i < n ==> #[trigger] ring_slot_ok(surfedges, edges, vertex_count, firstedge, i)
}

/// The vertex indices of a face's edge ring, in winding order.
pub open spec fn spec_ring(surfedges: Seq<i32>, edges: Seq<DEdge>, firstedge: i32, n: int) -> Seq<u32> {
    Seq::new(n as nat, |i: int| surfedge_vertex(edges, surfedges[firstedge + i]) as u32)
}

/// The starting vertex of each of the `n` surfedges from `firstedge`, or
/// `None` if any surfedge, edge or vertex index is out of range.
pub fn ring_vertices(surfedges: &[i32], edges: &[DEdge], vertex_count: usize, firstedge: i32, n: usize) -> (r: Option<Vec<u32>>)
    requires
        n <= 0x8000,
    ensures
        r is Some <==> ring_in_bounds(surfedges@, edges@, vertex_count as int, firstedge, n as int),
        r matches Some(v) ==> v@ == spec_ring(surfedges@, edges@, firstedge, n as int),
{
    if firstedge < 0 {
        return None;
    }
    let start = firstedge as usize;
    let mut out: Vec<u32> = Vec::with_capacity(n);
    let mut i: usize = 0;
    while i < n
        invariant
            0 <= firstedge,
            start == firstedge,
            i <= n <= 0x8000,
            out@.len() == i,
            forall|j: int|
                0 <= j < i ==> #[trigger] ring_slot_ok(surfedges@, edges@, vertex_count as int, firstedge, j) && out@[j]
                    == surfedge_vertex(edges@, surfedges@[firstedge + j]) as u32,
        decreases n - i,
    {
        if start + i >= surfedges.len() {
            assert(!ring_slot_ok(surfedges@, edges@, vertex_count as int, firstedge, i as int));
            return None;
        }
        let surfedge = surfedges[start + i];
        let (edge_index, end): (usize, usize) = if surfedge >= 0 {
            (surfedge as usize, 0)
        } else {
            ((-(surfedge as i64)) as usize, 1)
        };
        if edge_index >= edges.len() {
            assert(!ring_slot_ok(surfedges@, edges@, vertex_count as int, firstedge, i as int));
            return None;
        }
        let vertex = edges[edge_index].v[end];
        if vertex as usize >= vertex_count {
            assert(!ring_slot_ok(surfedges@, edges@, vertex_count as int, firstedge, i as int));
            return None;
        }
        out.push(vertex as u32);
        i = i + 1;
    }
    assert forall|j: int| 0 <= j < n implies out@[j] == spec_ring(surfedges@, edges@, firstedge, n as int)[j] by {
        assert(ring_slot_ok(surfedges@, edges@, vertex_count as int, firstedge, j));
    }
    assert(out@ =~= spec_ring(surfedges@, edges@, firstedge, n as int));
    Some(out)
}

/// What a face contributes, checked in this order: a displacement, a missing
/// texinfo, a tool surface, too few edges, a missing texdata, a ring or plane
/// index out of range.
pub open spec fn spec_face_outcome(t: FaceLumps, face: DFace) -> FaceOutcome {
    if face.dispinfo >= 0 {
        FaceOutcome::Displacement
    } else if face.texinfo < 0 || face.texinfo >= t.texinfos.len() {
        FaceOutcome::NoTexinfo
    } else if t.texinfos[face.texinfo as int].flags & SURF_SKIP_RENDER != 0 {
        FaceOutcome::ToolSurface
    } else if face.numedges < 3 {
        FaceOutcome::TooFewEdges
    } else if t.texinfos[face.texinfo as int].texdata < 0 || t.texinfos[face.texinfo as int].texdata
        >= t.texdata_count {
        FaceOutcome::NoTexinfo
    } else if !ring_in_bounds(t.surfedges, t.edges, t.vertex_count, face.firstedge, face.numedges as int) {
        FaceOutcome::BadIndex
    } else if face.planenum >= t.plane_count {
        FaceOutcome::BadIndex
    } else {
        FaceOutcome::Built
    }
}

impl FaceTables {
    /// Classify one face, and read its ring when it is built.
    pub fn classify(&self, face: &DFace) -> (r: (FaceOutcome, Vec<u32>))
        ensures
            r.0 == spec_face_outcome(self@, *face),
            r.0 is Built ==> r.1@ == spec_ring(self.surfedges@, self.edges@, face.firstedge, face.numedges as int),
    {
        let none: Vec<u32> = Vec::new();
        if face.dispinfo >= 0 {
            return (FaceOutcome::Displacement, none);
        }
        if face.texinfo < 0 || face.texinfo as usize >= self.texinfos.len() {
            return (FaceOutcome::NoTexinfo, none);
        }
        let texinfo = self.texinfos[face.texinfo as usize];
        if texinfo.flags & SURF_SKIP_RENDER != 0 {
            return (FaceOutcome::ToolSurface, none);
        }
        if face.numedges < 3 {
            return (FaceOutcome::TooFewEdges, none);
        }
        if texinfo.texdata < 0 || texinfo.texdata as usize >= self.texdata_count {
            return (FaceOutcome::NoTexinfo, none);
        }
        match ring_vertices(self.surfedges.as_slice(), self.edges.as_slice(), self.vertex_count, face.firstedge, face.numedges as usize) {
            None => (FaceOutcome::BadIndex, none),
            Some(ring) => {
                if face.planenum as usize >= self.plane_count {
                    (FaceOutcome::BadIndex, none)
                } else {
                    (FaceOutcome::Built, ring)
                }
            },
        }
    }
}

/// A face that contributes geometry, and where its vertices go.
pub struct PlannedFace {
    /// Index into the FACES lump.
    pub face: u32,
    /// Index into the TEXINFO lump.
    pub texinfo: u32,
    /// Index into the PLANES lump; its normal is the face's flat normal.
    pub plane: u32,
    /// Index of the surface (material) this face is appended to.
    pub surface: usize,
    /// Where the face's vertices start in that surface's vertex buffer,
    /// modulo 2^32 as a `u32` offset.
    pub first_vertex: u32,
    /// VERTEXES indices of the face's corners, in winding order.
    pub ring: Vec<u32>,
}

impl PlannedFace {
    /// The face's span inside its surface.
    pub fn chunk(&self) -> (r: FaceChunk)
        requires
            self.ring@.len() <= u32::MAX,
        ensures
            r == (FaceChunk { face: self.face, first_vertex: self.first_vertex, vertex_count: self.ring@.len() as u32 }),
    {
        FaceChunk { face: self.face, first_vertex: self.first_vertex, vertex_count: self.ring.len() as u32 }
    }
}

/// One material's surface: its TEXDATA index and the `SURF_*` flags of the
/// first face seen with it.
#[derive(Clone, Copy, Debug, PartialEq, Eq)]
pub struct SurfaceKey {
    pub texdata: i32,
    pub flags: i32,
}

/// Where one face's vertices go: the surface of its texinfo's material, and
/// the offset of its first vertex there.
#[derive(Clone, Copy, Debug, PartialEq, Eq)]
pub struct Placement {
    /// Index into the TEXINFO lump.
    pub texinfo: u32,
    /// Index of the surface the face is appended to.
    pub surface: usize,
    /// Offset of the face's first vertex in that surface, modulo 2^32.
    pub first_vertex: u32,
    pub vertex_count: u32,
}

/// The placements of planned faces.
pub open spec fn placements_of(p: Seq<PlannedFace>) -> Seq<Placement> {
    Seq::new(
        p.len(),
        |k: int|
            Placement {
                texinfo: p[k].texinfo,
                surface: p[k].surface,
                first_vertex: p[k].first_vertex,
                vertex_count: p[k].ring@.len() as u32,
            },
    )
}

/// The indices in `first..end` of the faces that contribute geometry, in
/// order.
pub open spec fn built_faces(t: FaceLumps, faces: Seq<DFace>, first: int, end: int) -> Seq<int>
    decreases end - first,
{
    if end <= first {
        Seq::empty()
    } else {
        let prev = built_faces(t, faces, first, end - 1);
        if spec_face_outcome(t, faces[end - 1]) is Built {
            prev.push(end - 1)
        } else {
            prev
        }
    }
}

/// How many faces in `first..end` have outcome `kind`.
pub open spec fn outcome_count(t: FaceLumps, faces: Seq<DFace>, first: int, end: int, kind: FaceOutcome) -> nat
    decreases end - first,
{
    if end <= first {
        0
    } else {
        outcome_count(t, faces, first, end - 1, kind) + if spec_face_outcome(t, faces[end - 1]) == kind {
            1nat
        } else {
            0nat
        }
    }
}

/// The skip counters for the faces in `first..end`. Faces whose texinfo or
/// texdata is missing share one counter.
pub open spec fn spec_skip_counts(t: FaceLumps, faces: Seq<DFace>, first: int, end: int) -> SkipCounts {
    SkipCounts {
        no_texinfo: outcome_count(t, faces, first, end, FaceOutcome::NoTexinfo) as usize,
        tool_surface: outcome_count(t, faces, first, end, FaceOutcome::ToolSurface) as usize,
        displacement: outcome_count(t, faces, first, end, FaceOutcome::Displacement) as usize,
        too_few_edges: outcome_count(t, faces, first, end, FaceOutcome::TooFewEdges) as usize,
        bad_index: outcome_count(t, faces, first, end, FaceOutcome::BadIndex) as usize,
    }
}

/// Total vertex count of the placements on surface `s`.
pub open spec fn vertices_in(p: Seq<Placement>, s: int) -> nat
    decreases p.len(),
{
    if p.len() == 0 {
        0
    } else {
        vertices_in(p.drop_last(), s) + if p.last().surface == s {
            p.last().vertex_count as nat
        } else {
            0nat
        }
    }
}

/// Whether planned face `k` is the first on its surface.
pub open spec fn opens_surface(p: Seq<Placement>, k: int) -> bool {
    forall|k2: int| 0 <= k2 < k ==> #[trigger] p[k2].surface != p[k].surface
}

/// Whether some planned face before `k` is on surface `s`.
pub open spec fn used_before(p: Seq<Placement>, k: int, s: int) -> bool {
    exists|k2: int| 0 <= k2 < k && #[trigger] p[k2].surface == s
}

/// Whether `p` plans exactly the faces listed in `built`, in order.
pub open spec fn plans_faces(p: Seq<PlannedFace>, t: FaceLumps, faces: Seq<DFace>, built: Seq<int>) -> bool {
    &&& p.len() == built.len()
    &&& forall|k: int|
        0 <= k < p.len() ==> {
            let f = faces[built[k]];
            &&& #[trigger] p[k].face == built[k] as u32
            &&& p[k].texinfo == f.texinfo as u32
            &&& p[k].plane == f.planenum as u32
            &&& p[k].ring@ == spec_ring(t.surfedges, t.edges, f.firstedge, f.numedges as int)
        }
}

/// Whether the planned faces are grouped one surface per texdata, surfaces
/// numbered in the order their material is first seen, each surface keeping
/// the flags of its first face, and each face's vertices placed after those
/// of the earlier faces on its surface.
pub open spec fn grouped(p: Seq<Placement>, surfaces: Seq<SurfaceKey>, texinfos: Seq<TexInfo>) -> bool {
    &&& forall|k: int|
        0 <= k < p.len() ==> #[trigger] p[k].surface < surfaces.len() && surfaces[p[k].surface as int].texdata
            == texinfos[p[k].texinfo as int].texdata
    &&& forall|s1: int, s2: int|
        0 <= s1 < s2 < surfaces.len() ==> #[trigger] surfaces[s1].texdata != #[trigger] surfaces[s2].texdata
    &&& forall|s: int| 0 <= s < surfaces.len() ==> #[trigger] used_before(p, p.len() as int, s)
    &&& forall|k: int, s: int| 0 <= k < p.len() && 0 <= s < p[k].surface ==> #[trigger] used_before(p, k, s)
    &&& forall|k: int|
        0 <= k < p.len() && opens_surface(p, k) ==> surfaces[#[trigger] p[k].surface as int].flags
            == texinfos[p[k].texinfo as int].flags
    &&& forall|k: int|
        0 <= k < p.len() ==> #[trigger] p[k].first_vertex == (vertices_in(p.take(k), p[k].surface as int)
            % 0x1_0000_0000) as u32
}

proof fn lemma_outcome_count_bound(t: FaceLumps, faces: Seq<DFace>, first: int, end: int, kind: FaceOutcome)
    requires
        first <= end,
    ensures
        outcome_count(t, faces, first, end, kind) <= end - first,
    decreases end - first,
{
    if end > first {
        lemma_outcome_count_bound(t, faces, first, end - 1, kind);
    }
}

proof fn lemma_vertices_in_absent(p: Seq<Placement>, s: int)
    requires
        forall|k: int| 0 <= k < p.len() ==> #[trigger] p[k].surface != s,
    ensures
        vertices_in(p, s) == 0,
    decreases p.len(),
{
    if p.len() > 0 {
        lemma_vertices_in_absent(p.drop_last(), s);
    }
}

proof fn lemma_vertices_in_push(p: Seq<Placement>, x: Placement, s: int)
    ensures
        vertices_in(p.push(x), s) == vertices_in(p, s) + if x.surface == s {
            x.vertex_count as nat
        } else {
            0nat
        },
{
    assert(p.push(x).drop_last() =~= p);
}

/// The vertex counters after a face is placed: its surface's counter moves
/// on by the face's vertices, modulo 2^32, and the others stay.
proof fn lemma_count_after_place(before: Seq<Placement>, counts: Seq<u32>, x: Placement, next: u32)
    requires
        x.surface < counts.len(),
        forall|s: int| 0 <= s < counts.len() ==> #[trigger] counts[s] == (vertices_in(before, s) % 0x1_0000_0000) as u32,
        x.first_vertex == counts[x.surface as int],
        next == vstd::wrapping::u32_specs::wrapping_add(x.first_vertex, x.vertex_count),
    ensures
        forall|s: int|
            0 <= s < counts.len() ==> #[trigger] counts.update(x.surface as int, next)[s] == (vertices_in(
                before.push(x),
                s,
            ) % 0x1_0000_0000) as u32,
{
    let s0 = x.surface as int;
    let v = vertices_in(before, s0);
    vstd::arithmetic::div_mod::lemma_add_mod_noop(v as int, x.vertex_count as int, 0x1_0000_0000);
    vstd::arithmetic::div_mod::lemma_small_mod(x.vertex_count as nat, 0x1_0000_0000);
    vstd::arithmetic::div_mod::lemma_small_mod(x.first_vertex as nat, 0x1_0000_0000);
    assert(next == ((x.first_vertex + x.vertex_count) % 0x1_0000_0000) as u32);
    assert forall|s: int| 0 <= s < counts.len() implies #[trigger] counts.update(s0, next)[s] == (vertices_in(
        before.push(x),
        s,
    ) % 0x1_0000_0000) as u32 by {
        lemma_vertices_in_push(before, x, s);
    }
}

/// Appending a face keeps the grouping, given that its surface is the one
/// holding its texdata (or a new one, when no surface holds it yet) and its
/// vertices start after that surface's current ones.
proof fn lemma_grouped_push(
    p: Seq<Placement>,
    surfaces: Seq<SurfaceKey>,
    texinfos: Seq<TexInfo>,
    x: Placement,
    next: Seq<SurfaceKey>,
)
    requires
        grouped(p, surfaces, texinfos),
        x.first_vertex == (vertices_in(p, x.surface as int) % 0x1_0000_0000) as u32,
        ({
            let td = texinfos[x.texinfo as int].texdata;
            ||| (x.surface < surfaces.len() && surfaces[x.surface as int].texdata == td && next == surfaces)
            ||| (x.surface == surfaces.len() && next == surfaces.push(
                SurfaceKey { texdata: td, flags: texinfos[x.texinfo as int].flags },
            ) && forall|s: int| 0 <= s < surfaces.len() ==> surfaces[s].texdata != td)
        }),
    ensures
        grouped(p.push(x), next, texinfos),
{
    let q = p.push(x);
    let n = p.len() as int;
    assert forall|k: int| 0 <= k < q.len() implies #[trigger] q[k].first_vertex == (vertices_in(
        q.take(k),
        q[k].surface as int,
    ) % 0x1_0000_0000) as u32 by {
        if k < n {
            assert(q.take(k) =~= p.take(k));
        } else {
            assert(q.take(k) =~= p);
        }
    }
    assert forall|s: int| 0 <= s < next.len() implies #[trigger] used_before(q, q.len() as int, s) by {
        if s < surfaces.len() {
            assert(used_before(p, n, s));
            let k2 = choose|k2: int| 0 <= k2 < n && #[trigger] p[k2].surface == s;
            assert(q[k2].surface == s);
        } else {
            assert(q[n].surface == s);
        }
    }
    assert forall|k: int, s: int| 0 <= k < q.len() && 0 <= s < q[k].surface implies #[trigger] used_before(
        q,
        k,
        s,
    ) by {
        if k < n {
            assert(q[k] == p[k]);
            assert(used_before(p, k, s));
            let k2 = choose|k2: int| 0 <= k2 < k && #[trigger] p[k2].surface == s;
            assert(q[k2].surface == s);
        } else {
            assert(used_before(p, n, s));
            let k2 = choose|k2: int| 0 <= k2 < n && #[trigger] p[k2].surface == s;
            assert(q[k2].surface == s);
        }
    }
    assert forall|k: int| 0 <= k < q.len() && opens_surface(q, k) implies next[#[trigger] q[k].surface as int].flags
        == texinfos[q[k].texinfo as int].flags by {
        if k < n {
            assert forall|k2: int| 0 <= k2 < k implies #[trigger] p[k2].surface != p[k].surface by {
                assert(q[k2] == p[k2]);
            }
            assert(opens_surface(p, k));
        } else if x.surface < surfaces.len() {
            assert(used_before(p, n, x.surface as int));
            let k2 = choose|k2: int| 0 <= k2 < n && #[trigger] p[k2].surface == x.surface;
            assert(q[k2].surface == q[k].surface);
        }
    }
    assert forall|k: int| 0 <= k < q.len() implies #[trigger] q[k].surface < next.len() && next[q[k].surface as int].texdata
        == texinfos[q[k].texinfo as int].texdata by {
        if k < n {
            assert(q[k] == p[k]);
        }
    }
}

/// Surfaces and placements under construction.
pub struct Grouping {
    surfaces: Vec<SurfaceKey>,
    placed: Vec<Placement>,
    /// Vertices placed so far on each surface, modulo 2^32.
    counts: Vec<u32>,
    /// The surface holding each texdata seen so far.
    by_texdata: std::collections::HashMap<i32, usize>,
}

impl Grouping {
    pub closed spec fn surfaces(&self) -> Seq<SurfaceKey> {
        self.surfaces@
    }

    pub closed spec fn placed(&self) -> Seq<Placement> {
        self.placed@
    }

    /// The lookup table and counters agree with the surfaces.
    spec fn tables_ok(&self) -> bool {
        &&& self.counts@.len() == self.surfaces@.len()
        &&& forall|s: int|
            0 <= s < self.surfaces@.len() ==> #[trigger] self.by_texdata@.contains_key(self.surfaces@[s].texdata)
                && self.by_texdata@[self.surfaces@[s].texdata] == s
        &&& forall|key: i32| #[trigger]
            self.by_texdata@.contains_key(key) ==> self.by_texdata@[key] < self.surfaces@.len()
                && self.surfaces@[self.by_texdata@[key] as int].texdata == key
    }

    spec fn counts_ok(&self) -> bool {
        forall|s: int|
            0 <= s < self.counts@.len() ==> #[trigger] self.counts@[s] == (vertices_in(self.placed@, s)
                % 0x1_0000_0000) as u32
    }

    pub closed spec fn inv(&self, texinfos: Seq<TexInfo>) -> bool {
        &&& grouped(self.placed@, self.surfaces@, texinfos)
        &&& self.tables_ok()
        &&& self.counts_ok()
    }

    pub fn new() -> (r: Grouping)
        ensures
            forall|ti: Seq<TexInfo>| #[trigger] r.inv(ti),
            r.placed().len() == 0,
            r.surfaces().len() == 0,
    {
        Grouping {
            surfaces: Vec::new(),
            placed: Vec::new(),
            counts: Vec::new(),
            by_texdata: std::collections::HashMap::new(),
        }
    }

    /// The surface for `texdata`, opened with `flags` if none holds it yet.
    fn surface_for(&mut self, texdata: i32, flags: i32) -> (s: usize)
        requires
            old(self).tables_ok(),
            forall|k: int| 0 <= k < old(self).placed@.len() ==> #[trigger] old(self).placed@[k].surface < old(self).surfaces@.len(),
        ensures
            final(self).tables_ok(),
            final(self).placed@ == old(self).placed@,
            s <= old(self).surfaces@.len(),
            s < final(self).surfaces@.len(),
            final(self).surfaces@[s as int].texdata == texdata,
            s < old(self).surfaces@.len() ==> final(self).surfaces@ == old(self).surfaces@ && final(self).counts@
                == old(self).counts@,
            s == old(self).surfaces@.len() ==> {
                &&& final(self).surfaces@ == old(self).surfaces@.push(SurfaceKey { texdata, flags })
                &&& final(self).counts@ == old(self).counts@.push(0)
                &&& forall|s2: int| 0 <= s2 < old(self).surfaces@.len() ==> old(self).surfaces@[s2].texdata != texdata
                &&& vertices_in(old(self).placed@, s as int) == 0
            },
    {
        broadcast use vstd::std_specs::hash::group_hash_axioms;

        match self.by_texdata.get(&texdata) {
            Some(s) => *s,
            None => {
                let ghost sb = self.surfaces@;
                let ghost before = self.placed@;
                let s = self.surfaces.len();
                proof {
                    assert forall|s2: int| 0 <= s2 < sb.len() implies sb[s2].texdata != texdata by {
                        assert(self.by_texdata@.contains_key(sb[s2].texdata));
                    }
                    assert forall|k: int| 0 <= k < before.len() implies #[trigger] before[k].surface != s by {
                        assert(before[k].surface < sb.len());
                    }
                    lemma_vertices_in_absent(before, s as int);
                }
                self.surfaces.push(SurfaceKey { texdata, flags });
                self.counts.push(0);
                self.by_texdata.insert(texdata, s);
                s
            },
        }
    }

    /// Place `vertex_count` vertices on the surface of texinfo `texinfo`'s
    /// texdata, after the vertices already there.
    pub fn place(&mut self, texinfos: &Vec<TexInfo>, texinfo: u32, vertex_count: u32) -> (r: Placement)
        requires
            old(self).inv(texinfos@),
            texinfo < texinfos@.len(),
        ensures
            final(self).inv(texinfos@),
            final(self).placed() == old(self).placed().push(r),
            final(self).surfaces().len() >= old(self).surfaces().len(),
            r.texinfo == texinfo,
            r.vertex_count == vertex_count,
    {
        let ghost before = self.placed@;
        let ghost sb = self.surfaces@;
        let ghost cb = self.counts@;
        let info = texinfos[texinfo as usize];
        proof {
            assert forall|k: int| 0 <= k < before.len() implies #[trigger] before[k].surface < sb.len() by {
                assert(grouped(before, sb, texinfos@));
            }
        }
        let surface = self.surface_for(info.texdata, info.flags);
        proof {
            assert forall|s2: int| 0 <= s2 < self.counts@.len() implies #[trigger] self.counts@[s2] == (vertices_in(
                before,
                s2,
            ) % 0x1_0000_0000) as u32 by {
                if s2 < cb.len() {
                    assert(cb[s2] == (vertices_in(before, s2) % 0x1_0000_0000) as u32);
                }
            }
        }
        let ghost c1 = self.counts@;
        let ghost sf = self.surfaces@;
        let ghost bt = self.by_texdata@;
        assert(self.tables_ok());
        let first_vertex = self.counts[surface];
        let x = Placement { texinfo, surface, first_vertex, vertex_count };
        proof {
            lemma_grouped_push(before, sb, texinfos@, x, self.surfaces@);
        }
        let next = first_vertex.wrapping_add(vertex_count);
        proof {
            lemma_count_after_place(before, c1, x, next);
        }
        self.counts.set(surface, next);
        self.placed.push(x);
        proof {
            assert(self.counts@ == c1.update(surface as int, next));
            assert(self.placed@ == before.push(x));
            assert(self.counts_ok());
            assert(self.surfaces@ == sf && self.by_texdata@ == bt && self.counts@.len() == sf.len());
            assert(self.tables_ok());
        }
        x
    }

    pub proof fn lemma_grouped(&self, texinfos: Seq<TexInfo>)
        requires
            self.inv(texinfos),
        ensures
            grouped(self.placed(), self.surfaces(), texinfos),
    {
    }

    /// The surfaces opened so far, in first-seen order.
    pub fn into_surfaces(self) -> (r: Vec<SurfaceKey>)
        ensures
            r@ == self.surfaces(),
    {
        self.surfaces
    }
}

/// One surface per material: two grouped faces share a surface exactly when
/// their texinfos name the same texdata.
pub proof fn lemma_one_surface_per_material(
    p: Seq<Placement>,
    surfaces: Seq<SurfaceKey>,
    texinfos: Seq<TexInfo>,
    k1: int,
    k2: int,
)
    requires
        grouped(p, surfaces, texinfos),
        0 <= k1 < p.len(),
        0 <= k2 < p.len(),
    ensures
        (p[k1].surface == p[k2].surface) <==> (texinfos[p[k1].texinfo as int].texdata
            == texinfos[p[k2].texinfo as int].texdata),
{
    let s1 = p[k1].surface as int;
    let s2 = p[k2].surface as int;
    if s1 < s2 {
        assert(surfaces[s1].texdata != surfaces[s2].texdata);
    } else if s2 < s1 {
        assert(surfaces[s2].texdata != surfaces[s1].texdata);
    }
}

/// Plan the faces `first..end`: classify each, and place the built ones on
/// the surface of their material.
pub fn plan_faces(t: &FaceTables, faces: &Vec<DFace>, first: usize, end: usize) -> (r: (
    Vec<SurfaceKey>,
    Vec<PlannedFace>,
    SkipCounts,
))
    requires
        first <= end <= faces@.len(),
    ensures
        plans_faces(r.1@, t@, faces@, built_faces(t@, faces@, first as int, end as int)),
        grouped(placements_of(r.1@), r.0@, t.texinfos@),
        r.2 == spec_skip_counts(t@, faces@, first as int, end as int),
{
    let mut g = Grouping::new();
    let mut planned: Vec<PlannedFace> = Vec::new();
    let mut skipped = SkipCounts { no_texinfo: 0, tool_surface: 0, displacement: 0, too_few_edges: 0, bad_index: 0 };
    let mut i: usize = first;
    proof {
        assert(placements_of(planned@) =~= g.placed());
    }
    while i < end
        invariant
            first <= i <= end <= faces@.len(),
            plans_faces(planned@, t@, faces@, built_faces(t@, faces@, first as int, i as int)),
            g.inv(t.texinfos@),
            placements_of(planned@) == g.placed(),
            skipped == spec_skip_counts(t@, faces@, first as int, i as int),
        decreases end - i,
    {
        let face = &faces[i];
        let (outcome, ring) = t.classify(face);
        proof {
            lemma_outcome_count_bound(t@, faces@, first as int, i as int, outcome);
            lemma_outcome_count_bound(t@, faces@, first as int, i + 1, outcome);
        }
        match outcome {
            FaceOutcome::Displacement => {
                skipped.displacement = skipped.displacement + 1;
            },
            FaceOutcome::NoTexinfo => {
                skipped.no_texinfo = skipped.no_texinfo + 1;
            },
            FaceOutcome::ToolSurface => {
                skipped.tool_surface = skipped.tool_surface + 1;
            },
            FaceOutcome::TooFewEdges => {
                skipped.too_few_edges = skipped.too_few_edges + 1;
            },
            FaceOutcome::BadIndex => {
                skipped.bad_index = skipped.bad_index + 1;
            },
            FaceOutcome::Built => {
                let ghost before = planned@;
                let ghost bf = built_faces(t@, faces@, first as int, i as int);
                let pl = g.place(&t.texinfos, face.texinfo as u32, ring.len() as u32);
                planned.push(PlannedFace {
                    face: i as u32,
                    texinfo: pl.texinfo,
                    plane: face.planenum as u32,
                    surface: pl.surface,
                    first_vertex: pl.first_vertex,
                    ring,
                });
                proof {
                    assert(placements_of(planned@) =~= g.placed());
                    let bf2 = bf.push(i as int);
                    assert(built_faces(t@, faces@, first as int, i + 1) == bf2);
                    let n = before.len() as int;
                    assert(bf2[n] == i);
                    assert forall|k: int| 0 <= k < planned@.len() implies {
                        let f = faces@[bf2[k]];
                        &&& #[trigger] planned@[k].face == bf2[k] as u32
                        &&& planned@[k].texinfo == f.texinfo as u32
                        &&& planned@[k].plane == f.planenum as u32
                        &&& planned@[k].ring@ == spec_ring(t.surfedges@, t.edges@, f.firstedge, f.numedges as int)
                    } by {
                        if k < n {
                            assert(planned@[k] == before[k]);
                            assert(bf2[k] == bf[k]);
                            assert(before[k].face == bf[k] as u32);
                        } else {
                            assert(faces@[bf2[k]] == *face);
                        }
                    }
                }
            },
        }
        proof {
            if outcome != FaceOutcome::Built {
                assert(built_faces(t@, faces@, first as int, i + 1) == built_faces(t@, faces@, first as int, i as int));
            }
        }
        i = i + 1;
    }
    proof {
        assert(grouped(g.placed(), g.surfaces(), t.texinfos@));
    }
    (g.into_surfaces(), planned, skipped)
}

/// The face lumps of a file, as [`FaceLumps`].
pub open spec fn face_lumps(bytes: Seq<u8>) -> FaceLumps {
    FaceLumps {
        texinfos: lump_records::<TexInfo>(bytes, LumpId::TexInfo),
        texdata_count: lump_records::<DTexData>(bytes, LumpId::TexData).len() as int,
        surfedges: lump_records::<i32>(bytes, LumpId::SurfEdges),
        edges: lump_records::<DEdge>(bytes, LumpId::Edges),
        vertex_count: lump_records::<DVertex>(bytes, LumpId::Vertexes).len() as int,
        plane_count: lump_records::<DPlane>(bytes, LumpId::Planes).len() as int,
    }
}

/// Whether every lump a model build reads, besides MODELS, decodes.
pub open spec fn model_lumps_readable(bytes: Seq<u8>) -> bool {
    &&& records_readable::<DVertex>(bytes, LumpId::Vertexes)
    &&& records_readable::<DEdge>(bytes, LumpId::Edges)
    &&& records_readable::<i32>(bytes, LumpId::SurfEdges)
    &&& records_readable::<DFace>(bytes, LumpId::Faces)
    &&& records_readable::<DPlane>(bytes, LumpId::Planes)
    &&& records_readable::<TexInfo>(bytes, LumpId::TexInfo)
    &&& records_readable::<DTexData>(bytes, LumpId::TexData)
}

/// The FACES range `first..end` a model's build walks: its `firstface` and
/// `numfaces`, negatives read as zero, the end clamped to the lump but never
/// below `first`, so that a model starting past the lump walks nothing.
pub open spec fn model_face_range(bytes: Seq<u8>, model_index: int) -> (int, int) {
    let m = lump_records::<DModel>(bytes, LumpId::Models)[model_index];
    let first: int = if m.firstface > 0 { m.firstface as int } else { 0 };
    let count: int = if m.numfaces > 0 { m.numfaces as int } else { 0 };
    let n = lump_records::<DFace>(bytes, LumpId::Faces).len() as int;
    let stop: int = if first + count < n { first + count } else { n };
    (first, if stop < first { first } else { stop })
}

/// Whether `e` is the error a model build gives: that of the first lump, in
/// the order MODELS, VERTEXES, EDGES, SURFEDGES, FACES, PLANES, TEXINFO,
/// TEXDATA, that does not decode; or the missing model's index error.
pub open spec fn model_error(b: Seq<u8>, model_index: int, e: BspError) -> bool {
    if !records_readable::<DModel>(b, LumpId::Models) {
        records_error::<DModel>(b, LumpId::Models, e)
    } else if model_index >= lump_records::<DModel>(b, LumpId::Models).len() {
        e is IndexOutOfRange
    } else if !records_readable::<DVertex>(b, LumpId::Vertexes) {
        records_error::<DVertex>(b, LumpId::Vertexes, e)
    } else if !records_readable::<DEdge>(b, LumpId::Edges) {
        records_error::<DEdge>(b, LumpId::Edges, e)
    } else if !records_readable::<i32>(b, LumpId::SurfEdges) {
        records_error::<i32>(b, LumpId::SurfEdges, e)
    } else if !records_readable::<DFace>(b, LumpId::Faces) {
        records_error::<DFace>(b, LumpId::Faces, e)
    } else if !records_readable::<DPlane>(b, LumpId::Planes) {
        records_error::<DPlane>(b, LumpId::Planes, e)
    } else if !records_readable::<TexInfo>(b, LumpId::TexInfo) {
        records_error::<TexInfo>(b, LumpId::TexInfo, e)
    } else {
        records_error::<DTexData>(b, LumpId::TexData, e)
    }
}

/// One model's brush faces, planned.
pub struct ModelPlan {
    /// Index into the MODELS lump.
    pub model: usize,
    /// The FACES range walked.
    pub first_face: usize,
    pub end_face: usize,
    /// One entry per material, in first-seen order.
    pub surfaces: Vec<SurfaceKey>,
    /// The faces that contribute geometry, in FACES order.
    pub faces: Vec<PlannedFace>,
    /// Face counts. The vertex and triangle counters are left at zero for
    /// whoever builds the vertices.
    pub stats: BuildStats,
}

/// Plan one model's brush faces.
///
/// Fails only when a lump does not decode or the model does not exist;
/// unusable faces are skipped and counted in the plan's stats.
#[verifier::spinoff_prover]
#[verifier::rlimit(60)]
pub fn plan_model(bsp: &Bsp, model_index: usize) -> (r: Result<ModelPlan, BspError>)
    requires
        bsp.wf(),
    ensures
        r is Ok <==> records_readable::<DModel>(bsp.bytes(), LumpId::Models) && model_index < lump_records::<
            DModel,
        >(bsp.bytes(), LumpId::Models).len() && model_lumps_readable(bsp.bytes()),
        records_readable::<DModel>(bsp.bytes(), LumpId::Models) && model_index >= lump_records::<DModel>(
            bsp.bytes(),
            LumpId::Models,
        ).len() ==> (r matches Err(BspError::IndexOutOfRange { lump, index, len }) && lump == LumpId::Models
            && index == model_index as i64 && len == lump_records::<DModel>(bsp.bytes(), LumpId::Models).len()),
        r matches Err(e) ==> (is_lump_error(e) || e is IndexOutOfRange) && model_error(
            bsp.bytes(),
            model_index as int,
            e,
        ),
        r matches Ok(p) ==> {
            let (first, end) = model_face_range(bsp.bytes(), model_index as int);
            let t = face_lumps(bsp.bytes());
            let faces = lump_records::<DFace>(bsp.bytes(), LumpId::Faces);
            let built = built_faces(t, faces, first, end);
            &&& p.model == model_index
            &&& p.first_face == first
            &&& p.end_face == end
            &&& plans_faces(p.faces@, t, faces, built)
            &&& grouped(placements_of(p.faces@), p.surfaces@, t.texinfos)
            &&& p.stats == BuildStats {
                faces_total: (end - first) as usize,
                faces_built: built.len() as usize,
                skipped: spec_skip_counts(t, faces, first, end),
                vertices: 0,
                triangles: 0,
                degenerate_triangles: 0,
            }
            &&& p.stats.faces_built + p.stats.spec_faces_skipped() == p.stats.faces_total
        },
{
    let models = bsp.models()?;
    if model_index >= models.len() {
        return Err(BspError::IndexOutOfRange { lump: LumpId::Models, index: model_index as i64, len: models.len() });
    }
    let model = models[model_index];
    let vertex_count = bsp.vertices()?.len();
    let edges = bsp.edges()?;
    let surfedges = bsp.surfedges()?;
    let faces = bsp.faces()?;
    let plane_count = bsp.planes()?.len();
    let texinfos = bsp.texinfos()?;
    let texdata_count = bsp.texdatas()?.len();

    let first: usize = if model.firstface > 0 { model.firstface as usize } else { 0 };
    let count: usize = if model.numfaces > 0 { model.numfaces as usize } else { 0 };
    let stop: usize = if count < faces.len() && first < faces.len() - count { first + count } else { faces.len() };
    let end: usize = if stop < first { first } else { stop };

    let t = FaceTables { texinfos, texdata_count, surfedges, edges, vertex_count, plane_count };
    let (surfaces, planned, skipped) = if end <= faces.len() {
        plan_faces(&t, &faces, first, end)
    } else {
        let none = SkipCounts { no_texinfo: 0, tool_surface: 0, displacement: 0, too_few_edges: 0, bad_index: 0 };
        proof {
            assert(spec_skip_counts(t@, faces@, first as int, end as int) == none);
            assert(placements_of(Seq::<PlannedFace>::empty()) =~= Seq::<Placement>::empty());
        }
        (Vec::new(), Vec::new(), none)
    };
    proof {
        lemma_built_faces_len(t@, faces@, first as int, end as int);
        lemma_faces_accounted(t@, faces@, first as int, end as int);
    }
    let faces_built = planned.len();
    Ok(ModelPlan {
        model: model_index,
        first_face: first,
        end_face: end,
        surfaces,
        faces: planned,
        stats: BuildStats {
            faces_total: end - first,
            faces_built,
            skipped,
            vertices: 0,
            triangles: 0,
            degenerate_triangles: 0,
        },
    })
}

/// Every face of `first..end` is either built or counted under exactly one
/// skip reason.
pub proof fn lemma_faces_accounted(t: FaceLumps, faces: Seq<DFace>, first: int, end: int)
    requires
        first <= end,
    ensures
        built_faces(t, faces, first, end).len() + outcome_count(t, faces, first, end, FaceOutcome::NoTexinfo)
            + outcome_count(t, faces, first, end, FaceOutcome::ToolSurface) + outcome_count(
            t,
            faces,
            first,
            end,
            FaceOutcome::Displacement,
        ) + outcome_count(t, faces, first, end, FaceOutcome::TooFewEdges) + outcome_count(
            t,
            faces,
            first,
            end,
            FaceOutcome::BadIndex,
        ) == end - first,
    decreases end - first,
{
    if end > first {
        lemma_faces_accounted(t, faces, first, end - 1);
    }
}

proof fn lemma_built_faces_len(t: FaceLumps, faces: Seq<DFace>, first: int, end: int)
    requires
        first <= end,
    ensures
        built_faces(t, faces, first, end).len() <= end - first,
    decreases end - first,
{
    if end > first {
        lemma_built_faces_len(t, faces, first, end - 1);
    }
}

/// The fan triangulation of a convex face whose `keep.len() + 2` vertices
/// start at `base`: triangle `j` joins corners `0`, `j + 1` and `j + 2`, and is
/// listed only when `keep[j]`. Each triangle is written `(0, j + 2, j + 1)`:
/// a face's ring runs clockwise seen from its front, and the renderer wants
/// counter-clockwise front faces.
pub open spec fn spec_fan(base: u32, keep: Seq<bool>, upto: int) -> Seq<u32>
    decreases upto,
{
    if upto <= 0 {
        Seq::empty()
    } else {
        let prev = spec_fan(base, keep, upto - 1);
        let j = upto - 1;
        if keep[j] {
            prev + seq![base, (base + j + 2) as u32, (base + j + 1) as u32]
        } else {
            prev
        }
    }
}

proof fn lemma_fan_in_range(base: u32, keep: Seq<bool>, upto: int)
    requires
        0 <= upto <= keep.len(),
        base + keep.len() + 2 <= u32::MAX,
    ensures
        spec_fan(base, keep, upto).len() % 3 == 0,
        forall|k: int|
            0 <= k < spec_fan(base, keep, upto).len() ==> base <= #[trigger] spec_fan(base, keep, upto)[k] < base
                + upto + 2,
    decreases upto,
{
    if upto > 0 {
        lemma_fan_in_range(base, keep, upto - 1);
    }
}

/// Triangle indices for one face's fan, dropping the triangles `keep` marks
/// degenerate.
pub fn fan_indices(base: u32, keep: &[bool]) -> (r: Vec<u32>)
    requires
        base + keep@.len() + 2 <= u32::MAX,
    ensures
        r@ == spec_fan(base, keep@, keep@.len() as int),
        r@.len() % 3 == 0,
        forall|k: int| 0 <= k < r@.len() ==> base <= #[trigger] r@[k] < base + keep@.len() + 2,
{
    let n = keep.len();
    let mut out: Vec<u32> = Vec::new();
    let mut j: usize = 0;
    while j < n
        invariant
            n == keep@.len(),
            j <= n,
            base + n + 2 <= u32::MAX,
            out@ == spec_fan(base, keep@, j as int),
        decreases n - j,
    {
        if keep[j] {
            let jj = j as u32;
            out.push(base);
            out.push(base + jj + 2);
            out.push(base + jj + 1);
        }
        j = j + 1;
        proof {
            let prev = spec_fan(base, keep@, j - 1);
            if keep@[j - 1] {
                assert(out@ =~= prev + seq![base, (base + (j - 1) + 2) as u32, (base + (j - 1) + 1) as u32]);
            }
        }
    }
    proof {
        lemma_fan_in_range(base, keep@, n as int);
    }
    out
}

/// A face's ring walks its surfedges in order: corner `k` is the first
/// vertex of edge `surfedges[firstedge + k]` when that surfedge is
/// non-negative, and the second vertex of edge `-surfedge` when it is
/// negative (the edge walked backwards).
pub proof fn lemma_ring_follows_surfedges(surfedges: Seq<i32>, edges: Seq<DEdge>, firstedge: i32, n: int)
    requires
        n >= 0,
    ensures
        spec_ring(surfedges, edges, firstedge, n).len() == n,
        forall|k: int|
            0 <= k < n ==> {
                let se = surfedges[firstedge + k];
                #[trigger] spec_ring(surfedges, edges, firstedge, n)[k] == (if se >= 0 {
                    edges[se as int].v[0]
                } else {
                    edges[-(se as int)].v[1]
                }) as u32
            },
{
}

} // verus!
