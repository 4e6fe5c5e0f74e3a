//! Which displacements can be tessellated, and the triangles of each grid.
//!
//! A displacement is a regular `(2^power + 1)²` grid of vertices spread over
//! its parent brush face, a quad. Each grid quad is split into two triangles
//! along a diagonal that alternates with the parity of the quad's flat index,
//! as Valve's `CCoreDispInfo` does, and a triangle tagged
//! `DISPTRI_TAG_REMOVE` is dropped. Grids are grouped by material like brush
//! faces.
//!
//! The vertex positions themselves are floating point and are left to the
//! renderer: it interpolates the parent quad's corners, whose VERTEXES
//! indices each [`PlannedDisp`] records, and pushes each grid vertex along its
//! DISP_VERTS entry.

use vstd::prelude::*;

use crate::file::{is_lump_error, lump_records, records_error, records_readable, Bsp, BspError};
use crate::flags::DISPTRI_TAG_REMOVE;
use crate::geometry::{
    face_lumps, grouped, ring_in_bounds, ring_vertices, spec_ring, FaceLumps, FaceTables, Grouping, Placement,
    SurfaceKey,
};
use crate::lump::LumpId;
use crate::raw::{disp_side_len, DDispInfo, DEdge, DFace, DTexData, DVertex, DispTri, DispVert, TexInfo};

verus! {

/// Counters for a displacement build.
#[derive(Clone, Copy, Debug, PartialEq, Eq)]
pub struct DispStats {
    /// Entries in the DISPINFO lump.
    pub displacements: usize,
    pub built: usize,
    /// `power` outside `2..=4`.
    pub skipped_bad_power: usize,
    /// Parent face missing, not a quad, or with out-of-range edge indices.
    pub skipped_bad_face: usize,
    pub skipped_no_texinfo: usize,
    /// DISP_VERTS did not hold a whole grid for this displacement.
    pub skipped_short_verts: usize,
    /// Triangles dropped for carrying `DISPTRI_TAG_REMOVE`.
    pub removed_triangles: usize,
    pub vertices: usize,
    pub triangles: usize,
}

impl DispStats {
    pub open spec fn spec_skipped(&self) -> int {
        self.skipped_bad_power + self.skipped_bad_face + self.skipped_no_texinfo + self.skipped_short_verts
    }

    /// Displacements that were not built, for any reason.
    pub fn skipped(&self) -> (r: usize)
        requires
            self.spec_skipped() <= usize::MAX,
        ensures
            r == self.spec_skipped(),
    {
        self.skipped_bad_power + self.skipped_bad_face + self.skipped_no_texinfo + self.skipped_short_verts
    }
}

/// Smallest and largest displacement power (`MIN_MAP_DISP_POWER`,
/// `MAX_MAP_DISP_POWER`).
pub const MIN_DISP_POWER: i32 = 2;
pub const MAX_DISP_POWER: i32 = 4;

/// Whether the quad at flat grid index `ndx = row * width + col` splits
/// top-left to bottom-right. Valve tests the parity of the flat index.
pub fn quad_splits_top_left(ndx: usize) -> (r: bool)
    ensures
        r == (ndx % 2 == 1),
{
    ndx % 2 == 1
}

/// On a grid of odd width, the parity of a quad's flat index is the parity
/// of `row + col`: the diagonal alternates like a checkerboard. Every legal
/// width, `2^power + 1`, is odd.
pub proof fn lemma_flat_parity_is_checkerboard(side: int, row: int, col: int)
    requires
        side % 2 == 1,
        side >= 1,
        row >= 0,
        col >= 0,
    ensures
        ((row * side + col) % 2 == 1) == ((row + col) % 2 == 1),
{
    assert((row * side + col) % 2 == (row + col) % 2) by (nonlinear_arith)
        requires
            side % 2 == 1,
            side >= 1,
            row >= 0,
            col >= 0,
    {
        let h = (side - 1) / 2;
        assert(side == 2 * h + 1);
        assert(row * side == 2 * (row * h) + row);
    }
}

/// The VERTEXES indices of a face's four corners, or `None` when it is not
/// a quad or its edge ring leaves its lumps.
pub fn face_quad(firstedge: i32, numedges: i16, surfedges: &[i32], edges: &[DEdge], vertex_count: usize) -> (r:
    Option<[u32; 4]>)
    ensures
        r is Some <==> numedges == 4 && ring_in_bounds(surfedges@, edges@, vertex_count as int, firstedge, 4),
        r matches Some(q) ==> q@ == spec_ring(surfedges@, edges@, firstedge, 4),
{
    if numedges != 4 {
        return None;
    }
    match ring_vertices(surfedges, edges, vertex_count, firstedge, 4) {
        None => None,
        Some(ring) => {
            let q = [ring[0], ring[1], ring[2], ring[3]];
            assert(q@ =~= ring@);
            Some(q)
        },
    }
}

/// Grid-local vertex indices of triangle `which` (0 or 1) of the quad at
/// `(row, col)`, on a grid `side` vertices wide. The quad's corners are
/// `ndx`, `ndx + side` (next row), `ndx + 1` (next column) and
/// `ndx + side + 1`. Valve's `BuildTriTLtoBR` and `BuildTriBLtoTR` wind
/// clockwise from the front; each triangle is listed with its second and
/// third corner swapped, so that it winds counter-clockwise.
pub open spec fn quad_triangle(side: int, row: int, col: int, which: int) -> Seq<u32> {
    let ndx = row * side + col;
    let q0 = ndx as u32;
    let q1 = (ndx + side) as u32;
    let q2 = (ndx + 1) as u32;
    let q3 = (ndx + side + 1) as u32;
    if ndx % 2 == 1 {
        if which == 0 {
            seq![q0, q2, q1]
        } else {
            seq![q2, q3, q1]
        }
    } else {
        if which == 0 {
            seq![q0, q3, q1]
        } else {
            seq![q0, q2, q3]
        }
    }
}

/// Whether DISP_TRIS tags triangle `which` of quad `(row, col)` for removal.
/// A tag past the end of the lump reads as no tag.
pub open spec fn triangle_removed(tris: Seq<DispTri>, tri_start: int, side: int, row: int, col: int, which: int) -> bool {
    let m = tri_start + (row * (side - 1) + col) * 2 + which;
    m < tris.len() && tris[m].tags & DISPTRI_TAG_REMOVE != 0
}

/// The indices of triangle `which` of quad `(row, col)`, if it is kept.
pub open spec fn kept_triangle(tris: Seq<DispTri>, tri_start: int, side: int, row: int, col: int, which: int) -> Seq<u32> {
    if triangle_removed(tris, tri_start, side, row, col, which) {
        Seq::empty()
    } else {
        quad_triangle(side, row, col, which)
    }
}

/// The kept triangles of the first `cols` quads of grid row `row`.
pub open spec fn row_triangles(tris: Seq<DispTri>, tri_start: int, side: int, row: int, cols: int) -> Seq<u32>
    decreases cols,
{
    if cols <= 0 {
        Seq::empty()
    } else {
        row_triangles(tris, tri_start, side, row, cols - 1) + kept_triangle(tris, tri_start, side, row, cols - 1, 0)
            + kept_triangle(tris, tri_start, side, row, cols - 1, 1)
    }
}

/// The kept triangles of the first `rows` rows of quads.
pub open spec fn grid_triangles(tris: Seq<DispTri>, tri_start: int, side: int, rows: int) -> Seq<u32>
    decreases rows,
{
    if rows <= 0 {
        Seq::empty()
    } else {
        grid_triangles(tris, tri_start, side, rows - 1) + row_triangles(tris, tri_start, side, rows - 1, side - 1)
    }
}

/// How many of the first `cols` quads' triangles of row `row` are removed.
pub open spec fn row_removed(tris: Seq<DispTri>, tri_start: int, side: int, row: int, cols: int) -> nat
    decreases cols,
{
    if cols <= 0 {
        0
    } else {
        row_removed(tris, tri_start, side, row, cols - 1) + (if triangle_removed(
            tris,
            tri_start,
            side,
            row,
            cols - 1,
            0,
        ) {
            1nat
        } else {
            0nat
        }) + (if triangle_removed(tris, tri_start, side, row, cols - 1, 1) {
            1nat
        } else {
            0nat
        })
    }
}

/// How many triangles of the first `rows` rows of quads are removed.
pub open spec fn grid_removed(tris: Seq<DispTri>, tri_start: int, side: int, rows: int) -> nat
    decreases rows,
{
    if rows <= 0 {
        0
    } else {
        grid_removed(tris, tri_start, side, rows - 1) + row_removed(tris, tri_start, side, rows - 1, side - 1)
    }
}

proof fn lemma_row_kept_and_removed(tris: Seq<DispTri>, tri_start: int, side: int, row: int, cols: int)
    requires
        cols >= 0,
    ensures
        row_triangles(tris, tri_start, side, row, cols).len() + 3 * row_removed(tris, tri_start, side, row, cols) == 6
            * cols,
    decreases cols,
{
    if cols > 0 {
        lemma_row_kept_and_removed(tris, tri_start, side, row, cols - 1);
        assert(quad_triangle(side, row, cols - 1, 0).len() == 3);
        assert(quad_triangle(side, row, cols - 1, 1).len() == 3);
    }
}

/// Every triangle of a grid's first `rows` rows of quads is either kept,
/// three indices each, or counted as removed: two per quad.
pub proof fn lemma_grid_kept_and_removed(tris: Seq<DispTri>, tri_start: int, side: int, rows: int)
    requires
        rows >= 0,
        side >= 1,
    ensures
        grid_triangles(tris, tri_start, side, rows).len() % 3 == 0,
        grid_triangles(tris, tri_start, side, rows).len() / 3 + grid_removed(tris, tri_start, side, rows) == 2 * rows
            * (side - 1),
    decreases rows,
{
    if rows > 0 {
        lemma_grid_kept_and_removed(tris, tri_start, side, rows - 1);
        lemma_row_kept_and_removed(tris, tri_start, side, rows - 1, side - 1);
        let a = grid_triangles(tris, tri_start, side, rows - 1).len() as int;
        let b = row_triangles(tris, tri_start, side, rows - 1, side - 1).len() as int;
        let ra = grid_removed(tris, tri_start, side, rows - 1) as int;
        let rb = row_removed(tris, tri_start, side, rows - 1, side - 1) as int;
        assert(grid_triangles(tris, tri_start, side, rows).len() == a + b);
        assert(grid_removed(tris, tri_start, side, rows) == ra + rb);
        let k = 2 * (side - 1) - rb;
        assert(b == 3 * k);
        let j = a / 3;
        assert(a == 3 * j);
        assert((a + b) == 3 * (j + k));
        assert((a + b) % 3 == 0 && (a + b) / 3 == j + k) by (nonlinear_arith)
            requires
                a + b == 3 * (j + k),
        ;
        assert(2 * (rows - 1) * (side - 1) + 2 * (side - 1) == 2 * rows * (side - 1)) by (nonlinear_arith);
    } else {
        assert(2 * rows * (side - 1) == 0) by (nonlinear_arith)
            requires
                rows == 0,
        ;
    }
}

/// A built displacement's triangles are all accounted for: the kept ones in
/// its planned indices and the removed ones, `2 * 4^power` together for a
/// grid of side `2^power + 1`.
pub proof fn lemma_disp_triangles_accounted(tris: Seq<DispTri>, tri_start: int, side: int)
    requires
        side >= 1,
    ensures
        grid_triangles(tris, tri_start, side, side - 1).len() / 3 + grid_removed(tris, tri_start, side, side - 1) == 2
            * (side - 1) * (side - 1),
{
    lemma_grid_kept_and_removed(tris, tri_start, side, side - 1);
}

proof fn lemma_row_removed_bound(tris: Seq<DispTri>, tri_start: int, side: int, row: int, cols: int)
    requires
        cols >= 0,
    ensures
        row_removed(tris, tri_start, side, row, cols) <= 2 * cols,
    decreases cols,
{
    if cols > 0 {
        lemma_row_removed_bound(tris, tri_start, side, row, cols - 1);
    }
}

proof fn lemma_grid_removed_bound(tris: Seq<DispTri>, tri_start: int, side: int, rows: int)
    requires
        rows >= 0,
        side >= 1,
    ensures
        grid_removed(tris, tri_start, side, rows) <= 2 * (side - 1) * rows,
    decreases rows,
{
    if rows > 0 {
        lemma_grid_removed_bound(tris, tri_start, side, rows - 1);
        lemma_row_removed_bound(tris, tri_start, side, rows - 1, side - 1);
        assert(2 * (side - 1) * rows == 2 * (side - 1) * (rows - 1) + 2 * (side - 1)) by (nonlinear_arith);
    }
}

proof fn lemma_quad_triangle_in_range(side: int, row: int, col: int, which: int)
    requires
        2 <= side <= 17,
        0 <= row < side - 1,
        0 <= col < side - 1,
    ensures
        quad_triangle(side, row, col, which).len() == 3,
        forall|j: int| 0 <= j < 3 ==> #[trigger] quad_triangle(side, row, col, which)[j] < side * side,
{
    let ndx = row * side + col;
    assert(ndx + side + 1 < side * side) by (nonlinear_arith)
        requires
            2 <= side,
            0 <= row < side - 1,
            0 <= col < side - 1,
            ndx == row * side + col,
    ;
    assert(0 <= ndx) by (nonlinear_arith)
        requires
            0 <= row,
            0 <= col,
            0 <= side,
            ndx == row * side + col,
    ;
    assert(side * side <= 17 * 17) by (nonlinear_arith)
        requires
            2 <= side <= 17,
    ;
}

proof fn lemma_row_triangles_in_range(tris: Seq<DispTri>, tri_start: int, side: int, row: int, cols: int)
    requires
        2 <= side <= 17,
        0 <= row < side - 1,
        0 <= cols <= side - 1,
    ensures
        row_triangles(tris, tri_start, side, row, cols).len() % 3 == 0,
        forall|k: int|
            0 <= k < row_triangles(tris, tri_start, side, row, cols).len() ==> #[trigger] row_triangles(
                tris,
                tri_start,
                side,
                row,
                cols,
            )[k] < side * side,
    decreases cols,
{
    if cols > 0 {
        lemma_row_triangles_in_range(tris, tri_start, side, row, cols - 1);
        lemma_quad_triangle_in_range(side, row, cols - 1, 0);
        lemma_quad_triangle_in_range(side, row, cols - 1, 1);
        let prev = row_triangles(tris, tri_start, side, row, cols - 1);
        let t0 = kept_triangle(tris, tri_start, side, row, cols - 1, 0);
        let t1 = kept_triangle(tris, tri_start, side, row, cols - 1, 1);
        let all = prev + t0 + t1;
        assert forall|k: int| 0 <= k < all.len() implies #[trigger] all[k] < side * side by {
            if k >= prev.len() + t0.len() {
                assert(all[k] == t1[k - prev.len() - t0.len()]);
            } else if k >= prev.len() {
                assert(all[k] == t0[k - prev.len()]);
            }
        }
    }
}

/// Every triangle of a displacement grid names vertices of that grid: all
/// indices are below `side * side`, three per triangle.
pub proof fn lemma_grid_triangles_in_range(tris: Seq<DispTri>, tri_start: int, side: int, rows: int)
    requires
        2 <= side <= 17,
        0 <= rows <= side - 1,
    ensures
        grid_triangles(tris, tri_start, side, rows).len() % 3 == 0,
        forall|k: int|
            0 <= k < grid_triangles(tris, tri_start, side, rows).len() ==> #[trigger] grid_triangles(
                tris,
                tri_start,
                side,
                rows,
            )[k] < side * side,
    decreases rows,
{
    if rows > 0 {
        lemma_grid_triangles_in_range(tris, tri_start, side, rows - 1);
        lemma_row_triangles_in_range(tris, tri_start, side, rows - 1, side - 1);
        let prev = grid_triangles(tris, tri_start, side, rows - 1);
        let r = row_triangles(tris, tri_start, side, rows - 1, side - 1);
        let all = prev + r;
        assert forall|k: int| 0 <= k < all.len() implies #[trigger] all[k] < side * side by {
            if k >= prev.len() {
                assert(all[k] == r[k - prev.len()]);
            }
        }
    }
}

/// The triangles of a `side`-wide displacement grid, two per quad in row
/// order, minus those DISP_TRIS tags for removal; and how many were removed.
/// `tri_start` is where the grid's tags start in DISP_TRIS.
pub fn grid_indices(side: usize, tri_start: usize, tris: &[DispTri]) -> (r: (Vec<u32>, usize))
    requires
        2 <= side <= 17,
        tri_start <= 0x8000_0000,
    ensures
        r.0@ == grid_triangles(tris@, tri_start as int, side as int, side - 1),
        r.1 == grid_removed(tris@, tri_start as int, side as int, side - 1),
{
    let mut out: Vec<u32> = Vec::new();
    let mut removed: usize = 0;
    let mut row: usize = 0;
    while row < side - 1
        invariant
            2 <= side <= 17,
            tri_start <= 0x8000_0000,
            row <= side - 1,
            out@ == grid_triangles(tris@, tri_start as int, side as int, row as int),
            removed == grid_removed(tris@, tri_start as int, side as int, row as int),
            removed <= 2 * 16 * 16,
        decreases side - 1 - row,
    {
        let ghost before = out@;
        let ghost removed_before = removed as int;
        let mut col: usize = 0;
        while col < side - 1
            invariant
                2 <= side <= 17,
                tri_start <= 0x8000_0000,
                row < side - 1,
                col <= side - 1,
                out@ == before + row_triangles(tris@, tri_start as int, side as int, row as int, col as int),
                removed == removed_before + row_removed(tris@, tri_start as int, side as int, row as int, col as int),
                removed_before <= 2 * 16 * 16,
                removed_before == grid_removed(tris@, tri_start as int, side as int, row as int),
            decreases side - 1 - col,
        {
            proof {
                assert(row * side <= 16 * 17) by (nonlinear_arith)
                    requires
                        row < 16,
                        side <= 17,
                ;
                assert(row * (side - 1) <= 16 * 16) by (nonlinear_arith)
                    requires
                        row < 16,
                        side <= 17,
                ;
                lemma_row_removed_bound(tris@, tri_start as int, side as int, row as int, col as int);
                lemma_grid_removed_bound(tris@, tri_start as int, side as int, row as int);
                assert(2 * (side - 1) * row <= 2 * 16 * 16) by (nonlinear_arith)
                    requires
                        row < 16,
                        side <= 17,
                ;
            }
            let ndx = row * side + col;
            let q0 = ndx as u32;
            let q1 = (ndx + side) as u32;
            let q2 = (ndx + 1) as u32;
            let q3 = (ndx + side + 1) as u32;
            let split = quad_splits_top_left(ndx);
            let quad_index = row * (side - 1) + col;
            let ghost mid0 = out@;
            let mut which: usize = 0;
            while which < 2
                invariant
                    2 <= side <= 17,
                    tri_start <= 0x8000_0000,
                    row < side - 1,
                    col < side - 1,
                    ndx == row * side + col,
                    quad_index == row * (side - 1) + col,
                    quad_index < 300,
                    q0 == ndx as u32,
                    q1 == (ndx + side) as u32,
                    q2 == (ndx + 1) as u32,
                    q3 == (ndx + side + 1) as u32,
                    split == (ndx % 2 == 1),
                    which <= 2,
                    out@ == mid0 + (if which >= 1 {
                        kept_triangle(tris@, tri_start as int, side as int, row as int, col as int, 0)
                    } else {
                        Seq::empty()
                    }) + (if which >= 2 {
                        kept_triangle(tris@, tri_start as int, side as int, row as int, col as int, 1)
                    } else {
                        Seq::empty()
                    }),
                    removed == removed_before + row_removed(tris@, tri_start as int, side as int, row as int, col as int)
                        + (if which >= 1 && triangle_removed(tris@, tri_start as int, side as int, row as int, col as int, 0) {
                        1int
                    } else {
                        0int
                    }) + (if which >= 2 && triangle_removed(tris@, tri_start as int, side as int, row as int, col as int, 1) {
                        1int
                    } else {
                        0int
                    }),
                    removed_before + row_removed(tris@, tri_start as int, side as int, row as int, col as int) <= 2 * 16 * 16 + 2 * 16,
                decreases 2 - which,
            {
                let m = tri_start + quad_index * 2 + which;
                let tagged = m < tris.len() && tris[m].tags & DISPTRI_TAG_REMOVE != 0;
                let ghost prev = out@;
                if tagged {
                    removed = removed + 1;
                } else {
                    let (a, b, c) = if split {
                        if which == 0 {
                            (q0, q2, q1)
                        } else {
                            (q2, q3, q1)
                        }
                    } else {
                        if which == 0 {
                            (q0, q3, q1)
                        } else {
                            (q0, q2, q3)
                        }
                    };
                    out.push(a);
                    out.push(b);
                    out.push(c);
                    assert(out@ =~= prev + seq![a, b, c]);
                }
                proof {
                    let t = kept_triangle(tris@, tri_start as int, side as int, row as int, col as int, which as int);
                    if tagged {
                        assert(t =~= Seq::<u32>::empty());
                        assert(prev + t =~= prev);
                    }
                    let e = Seq::<u32>::empty();
                    if which == 0 {
                        assert(mid0 + e + e =~= mid0);
                        assert(mid0 + t + e =~= mid0 + t);
                    } else {
                        let t0 = kept_triangle(tris@, tri_start as int, side as int, row as int, col as int, 0);
                        assert(mid0 + t0 + e =~= mid0 + t0);
                    }
                }
                which = which + 1;
            }
            proof {
                let t0 = kept_triangle(tris@, tri_start as int, side as int, row as int, col as int, 0);
                let t1 = kept_triangle(tris@, tri_start as int, side as int, row as int, col as int, 1);
                let r0 = row_triangles(tris@, tri_start as int, side as int, row as int, col as int);
                assert(before + r0 + t0 + t1 =~= before + (r0 + t0 + t1));
            }
            col = col + 1;
        }
        proof {
            assert(grid_triangles(tris@, tri_start as int, side as int, row + 1) == before + row_triangles(
                tris@,
                tri_start as int,
                side as int,
                row as int,
                side - 1,
            ));
            lemma_grid_removed_bound(tris@, tri_start as int, side as int, row + 1);
            assert(2 * (side - 1) * (row + 1) <= 2 * 16 * 16) by (nonlinear_arith)
                requires
                    row < 16,
                    side <= 17,
                    row + 1 <= side - 1,
            ;
        }
        row = row + 1;
    }
    (out, removed)
}

/// What a displacement contributes.
#[derive(Clone, Copy, Debug, PartialEq, Eq)]
pub enum DispOutcome {
    BadPower,
    BadFace,
    NoTexinfo,
    ShortVerts,
    Built,
}

/// Where a displacement's vertex records start in DISP_VERTS; a negative
/// start reads as zero.
pub open spec fn disp_vert_start(d: DDispInfo) -> int {
    if d.disp_vert_start > 0 {
        d.disp_vert_start as int
    } else {
        0
    }
}

/// Where a displacement's triangle tags start in DISP_TRIS; a negative start
/// reads as zero.
pub open spec fn disp_tri_start(d: DDispInfo) -> int {
    if d.disp_tri_start > 0 {
        d.disp_tri_start as int
    } else {
        0
    }
}

/// What a displacement contributes, checked in this order: its power, its
/// parent face, the face's texinfo and texdata, the face being a quad with
/// an in-range ring, and DISP_VERTS holding its whole grid.
pub open spec fn spec_disp_outcome(t: FaceLumps, faces: Seq<DFace>, disp_vert_count: int, d: DDispInfo) -> DispOutcome {
    if !(MIN_DISP_POWER <= d.power <= MAX_DISP_POWER) {
        DispOutcome::BadPower
    } else if d.map_face >= faces.len() {
        DispOutcome::BadFace
    } else {
        let face = faces[d.map_face as int];
        if face.texinfo < 0 || face.texinfo >= t.texinfos.len() {
            DispOutcome::NoTexinfo
        } else if t.texinfos[face.texinfo as int].texdata < 0 || t.texinfos[face.texinfo as int].texdata
            >= t.texdata_count {
            DispOutcome::NoTexinfo
        } else if !(face.numedges == 4 && ring_in_bounds(t.surfedges, t.edges, t.vertex_count, face.firstedge, 4)) {
            DispOutcome::BadFace
        } else if disp_vert_start(d) + disp_side_len(d.power as int) * disp_side_len(d.power as int)
            > disp_vert_count {
            DispOutcome::ShortVerts
        } else {
            DispOutcome::Built
        }
    }
}

/// A displacement that will be tessellated.
pub struct PlannedDisp {
    /// Index into the DISPINFO lump.
    pub disp: u32,
    /// The parent face, an index into FACES.
    pub face: u32,
    /// The parent face's texinfo.
    pub texinfo: u32,
    /// Index of the surface (material) the grid is appended to.
    pub surface: usize,
    /// Where the grid's vertices start in that surface, modulo 2^32.
    pub first_vertex: u32,
    /// VERTEXES indices of the parent quad's corners, in ring order.
    pub corners: [u32; 4],
    /// Vertices per grid side: 5, 9 or 17.
    pub side: usize,
    /// Where the grid's `side * side` DISP_VERTS records start.
    pub vert_start: usize,
    /// Grid-local triangle indices, three per kept triangle.
    pub indices: Vec<u32>,
}

/// The indices below `end` of the displacements that are built, in order.
pub open spec fn built_disps(t: FaceLumps, faces: Seq<DFace>, disp_vert_count: int, disps: Seq<DDispInfo>, end: int) -> Seq<int>
    decreases end,
{
    if end <= 0 {
        Seq::empty()
    } else {
        let prev = built_disps(t, faces, disp_vert_count, disps, end - 1);
        if spec_disp_outcome(t, faces, disp_vert_count, disps[end - 1]) is Built {
            prev.push(end - 1)
        } else {
            prev
        }
    }
}

/// How many displacements below `end` have outcome `kind`.
pub open spec fn disp_outcome_count(
    t: FaceLumps,
    faces: Seq<DFace>,
    disp_vert_count: int,
    disps: Seq<DDispInfo>,
    end: int,
    kind: DispOutcome,
) -> nat
    decreases end,
{
    if end <= 0 {
        0
    } else {
        disp_outcome_count(t, faces, disp_vert_count, disps, end - 1, kind) + if spec_disp_outcome(
            t,
            faces,
            disp_vert_count,
            disps[end - 1],
        ) == kind {
            1nat
        } else {
            0nat
        }
    }
}

/// Triangles removed from the built displacements below `end`.
pub open spec fn removed_total(
    t: FaceLumps,
    faces: Seq<DFace>,
    disp_vert_count: int,
    tris: Seq<DispTri>,
    disps: Seq<DDispInfo>,
    end: int,
) -> nat
    decreases end,
{
    if end <= 0 {
        0
    } else {
        let d = disps[end - 1];
        let side = disp_side_len(d.power as int);
        removed_total(t, faces, disp_vert_count, tris, disps, end - 1) + if spec_disp_outcome(
            t,
            faces,
            disp_vert_count,
            d,
        ) is Built {
            grid_removed(tris, disp_tri_start(d), side, side - 1)
        } else {
            0nat
        }
    }
}

/// The placements of planned displacements: `side * side` vertices each.
pub open spec fn disp_placements(p: Seq<PlannedDisp>) -> Seq<Placement> {
    Seq::new(
        p.len(),
        |k: int|
            Placement {
                texinfo: p[k].texinfo,
                surface: p[k].surface,
                first_vertex: p[k].first_vertex,
                vertex_count: (p[k].side * p[k].side) as u32,
            },
    )
}

/// Whether `p` plans exactly the displacements listed in `built`, in order.
pub open spec fn plans_disps(
    p: Seq<PlannedDisp>,
    t: FaceLumps,
    faces: Seq<DFace>,
    tris: Seq<DispTri>,
    disps: Seq<DDispInfo>,
    built: Seq<int>,
) -> bool {
    &&& p.len() == built.len()
    &&& forall|k: int|
        0 <= k < p.len() ==> {
            let d = disps[built[k]];
            let f = faces[d.map_face as int];
            let side = disp_side_len(d.power as int);
            &&& #[trigger] p[k].disp == built[k] as u32
            &&& p[k].face == d.map_face as u32
            &&& p[k].texinfo == f.texinfo as u32
            &&& p[k].corners@ == spec_ring(t.surfedges, t.edges, f.firstedge, 4)
            &&& p[k].side == side
            &&& p[k].vert_start == disp_vert_start(d)
            &&& p[k].indices@ == grid_triangles(tris, disp_tri_start(d), side, side - 1)
        }
}

/// Whether `e` is the error a displacement build gives: that of the first
/// lump, in the order DISPINFO, DISP_VERTS, DISP_TRIS, FACES, TEXINFO,
/// TEXDATA, VERTEXES, EDGES, SURFEDGES, that does not decode.
pub open spec fn disp_error(b: Seq<u8>, e: BspError) -> bool {
    if !records_readable::<DDispInfo>(b, LumpId::DispInfo) {
        records_error::<DDispInfo>(b, LumpId::DispInfo, e)
    } else if !records_readable::<DispVert>(b, LumpId::DispVerts) {
        records_error::<DispVert>(b, LumpId::DispVerts, e)
    } else if !records_readable::<DispTri>(b, LumpId::DispTris) {
        records_error::<DispTri>(b, LumpId::DispTris, e)
    } else if !records_readable::<DFace>(b, LumpId::Faces) {
        records_error::<DFace>(b, LumpId::Faces, e)
    } else if !records_readable::<TexInfo>(b, LumpId::TexInfo) {
        records_error::<TexInfo>(b, LumpId::TexInfo, e)
    } else if !records_readable::<DTexData>(b, LumpId::TexData) {
        records_error::<DTexData>(b, LumpId::TexData, e)
    } else if !records_readable::<DVertex>(b, LumpId::Vertexes) {
        records_error::<DVertex>(b, LumpId::Vertexes, e)
    } else if !records_readable::<DEdge>(b, LumpId::Edges) {
        records_error::<DEdge>(b, LumpId::Edges, e)
    } else {
        records_error::<i32>(b, LumpId::SurfEdges, e)
    }
}

/// The lumps a displacement build reads, all decoded.
pub open spec fn disp_lumps_readable(bytes: Seq<u8>) -> bool {
    &&& records_readable::<DDispInfo>(bytes, LumpId::DispInfo)
    &&& records_readable::<DispVert>(bytes, LumpId::DispVerts)
    &&& records_readable::<DispTri>(bytes, LumpId::DispTris)
    &&& records_readable::<DFace>(bytes, LumpId::Faces)
    &&& records_readable::<TexInfo>(bytes, LumpId::TexInfo)
    &&& records_readable::<DTexData>(bytes, LumpId::TexData)
    &&& records_readable::<DVertex>(bytes, LumpId::Vertexes)
    &&& records_readable::<DEdge>(bytes, LumpId::Edges)
    &&& records_readable::<i32>(bytes, LumpId::SurfEdges)
}

proof fn lemma_disp_count_bound(t: FaceLumps, faces: Seq<DFace>, vc: int, disps: Seq<DDispInfo>, end: int, kind: DispOutcome)
    requires
        end >= 0,
    ensures
        disp_outcome_count(t, faces, vc, disps, end, kind) <= end,
        built_disps(t, faces, vc, disps, end).len() <= end,
    decreases end,
{
    if end > 0 {
        lemma_disp_count_bound(t, faces, vc, disps, end - 1, kind);
    }
}

/// The grid geometry of a displacement whose power is legal: 5, 9 or 17
/// vertices a side.
fn grid_shape(d: &DDispInfo) -> (r: (usize, usize))
    requires
        MIN_DISP_POWER <= d.power <= MAX_DISP_POWER,
    ensures
        r.0 == disp_side_len(d.power as int),
        r.1 == r.0 * r.0,
        r.0 == 5 || r.0 == 9 || r.0 == 17,
{
    proof {
        vstd::arithmetic::power2::lemma2_to64();
    }
    (d.side_len(), d.num_verts())
}

/// Classify one displacement, and read its parent quad's corners when it is
/// built.
pub fn classify_disp(t: &FaceTables, faces: &Vec<DFace>, disp_vert_count: usize, d: &DDispInfo) -> (r: (
    DispOutcome,
    [u32; 4],
))
    ensures
        r.0 == spec_disp_outcome(t@, faces@, disp_vert_count as int, *d),
        r.0 is Built ==> r.1@ == spec_ring(t.surfedges@, t.edges@, faces@[d.map_face as int].firstedge, 4),
{
    let none = [0u32; 4];
    if !(MIN_DISP_POWER <= d.power && d.power <= MAX_DISP_POWER) {
        return (DispOutcome::BadPower, none);
    }
    if d.map_face as usize >= faces.len() {
        return (DispOutcome::BadFace, none);
    }
    let face = faces[d.map_face as usize];
    if face.texinfo < 0 || face.texinfo as usize >= t.texinfos.len() {
        return (DispOutcome::NoTexinfo, none);
    }
    let texinfo = t.texinfos[face.texinfo as usize];
    if texinfo.texdata < 0 || texinfo.texdata as usize >= t.texdata_count {
        return (DispOutcome::NoTexinfo, none);
    }
    match face_quad(face.firstedge, face.numedges, t.surfedges.as_slice(), t.edges.as_slice(), t.vertex_count) {
        None => (DispOutcome::BadFace, none),
        Some(corners) => {
            let (_side, count) = grid_shape(d);
            let vert_start: usize = if d.disp_vert_start > 0 {
                d.disp_vert_start as usize
            } else {
                0
            };
            if vert_start + count > disp_vert_count {
                (DispOutcome::ShortVerts, none)
            } else {
                (DispOutcome::Built, corners)
            }
        },
    }
}

/// Plan the displacements `disps`: classify each, place the built ones on
/// the surface of their material, and triangulate their grids.
#[verifier::spinoff_prover]
pub fn plan_disps(
    t: &FaceTables,
    faces: &Vec<DFace>,
    disp_vert_count: usize,
    tris: &Vec<DispTri>,
    disps: &Vec<DDispInfo>,
) -> (r: (Vec<SurfaceKey>, Vec<PlannedDisp>, DispStats))
    ensures
        ({
            let (surfaces, planned, stats) = r;
            let vc = disp_vert_count as int;
            let n = disps@.len() as int;
            let built = built_disps(t@, faces@, vc, disps@, n);
            let removed = removed_total(t@, faces@, vc, tris@, disps@, n);
            &&& plans_disps(planned@, t@, faces@, tris@, disps@, built)
            &&& grouped(disp_placements(planned@), surfaces@, t.texinfos@)
            &&& stats == DispStats {
                displacements: n as usize,
                built: built.len() as usize,
                skipped_bad_power: disp_outcome_count(t@, faces@, vc, disps@, n, DispOutcome::BadPower) as usize,
                skipped_bad_face: disp_outcome_count(t@, faces@, vc, disps@, n, DispOutcome::BadFace) as usize,
                skipped_no_texinfo: disp_outcome_count(t@, faces@, vc, disps@, n, DispOutcome::NoTexinfo) as usize,
                skipped_short_verts: disp_outcome_count(t@, faces@, vc, disps@, n, DispOutcome::ShortVerts) as usize,
                removed_triangles: if removed > usize::MAX {
                    usize::MAX
                } else {
                    removed as usize
                },
                vertices: 0,
                triangles: 0,
            }
        }),
{
    let ghost vc = disp_vert_count as int;
    let mut g = Grouping::new();
    let mut planned: Vec<PlannedDisp> = Vec::new();
    let mut bad_power: usize = 0;
    let mut bad_face: usize = 0;
    let mut no_texinfo: usize = 0;
    let mut short_verts: usize = 0;
    let mut removed_triangles: usize = 0;
    let mut i: usize = 0;
    proof {
        assert(disp_placements(planned@) =~= g.placed());
    }
    while i < disps.len()
        invariant
            i <= disps@.len(),
            vc == disp_vert_count,
            g.inv(t.texinfos@),
            disp_placements(planned@) == g.placed(),
            plans_disps(planned@, t@, faces@, tris@, disps@, built_disps(t@, faces@, vc, disps@, i as int)),
            bad_power == disp_outcome_count(t@, faces@, vc, disps@, i as int, DispOutcome::BadPower),
            bad_face == disp_outcome_count(t@, faces@, vc, disps@, i as int, DispOutcome::BadFace),
            no_texinfo == disp_outcome_count(t@, faces@, vc, disps@, i as int, DispOutcome::NoTexinfo),
            short_verts == disp_outcome_count(t@, faces@, vc, disps@, i as int, DispOutcome::ShortVerts),
            removed_triangles == ({
                let removed = removed_total(t@, faces@, vc, tris@, disps@, i as int);
                if removed > usize::MAX {
                    usize::MAX
                } else {
                    removed as usize
                }
            }),
        decreases disps@.len() - i,
    {
        let d = &disps[i];
        let (outcome, corners) = classify_disp(t, faces, disp_vert_count, d);
        proof {
            lemma_disp_count_bound(t@, faces@, vc, disps@, i as int, outcome);
            lemma_disp_count_bound(t@, faces@, vc, disps@, i + 1, outcome);
        }
        match outcome {
            DispOutcome::BadPower => {
                bad_power = bad_power + 1;
            },
            DispOutcome::BadFace => {
                bad_face = bad_face + 1;
            },
            DispOutcome::NoTexinfo => {
                no_texinfo = no_texinfo + 1;
            },
            DispOutcome::ShortVerts => {
                short_verts = short_verts + 1;
            },
            DispOutcome::Built => {
                let face = &faces[d.map_face as usize];
                let (side, count) = grid_shape(d);
                let vert_start: usize = if d.disp_vert_start > 0 {
                    d.disp_vert_start as usize
                } else {
                    0
                };
                let tri_start: usize = if d.disp_tri_start > 0 {
                    d.disp_tri_start as usize
                } else {
                    0
                };
                let (indices, removed) = grid_indices(side, tri_start, tris.as_slice());
                let ghost before = planned@;
                let ghost bd = built_disps(t@, faces@, vc, disps@, i as int);
                let pl = g.place(&t.texinfos, face.texinfo as u32, count as u32);
                planned.push(
                    PlannedDisp {
                        disp: i as u32,
                        face: d.map_face as u32,
                        texinfo: pl.texinfo,
                        surface: pl.surface,
                        first_vertex: pl.first_vertex,
                        corners,
                        side,
                        vert_start,
                        indices,
                    },
                );
                removed_triangles = removed_triangles.saturating_add(removed);
                proof {
                    assert(disp_placements(planned@) =~= g.placed());
                    let bd2 = bd.push(i as int);
                    assert(built_disps(t@, faces@, vc, disps@, i + 1) == bd2);
                    let n = before.len() as int;
                    assert(bd2[n] == i);
                    assert forall|k: int| 0 <= k < planned@.len() implies {
                        let dk = disps@[bd2[k]];
                        let f = faces@[dk.map_face as int];
                        let sd = disp_side_len(dk.power as int);
                        &&& #[trigger] planned@[k].disp == bd2[k] as u32
                        &&& planned@[k].face == dk.map_face as u32
                        &&& planned@[k].texinfo == f.texinfo as u32
                        &&& planned@[k].corners@ == spec_ring(t.surfedges@, t.edges@, f.firstedge, 4)
                        &&& planned@[k].side == sd
                        &&& planned@[k].vert_start == disp_vert_start(dk)
                        &&& planned@[k].indices@ == grid_triangles(tris@, disp_tri_start(dk), sd, sd - 1)
                    } by {
                        if k < n {
                            assert(planned@[k] == before[k]);
                            assert(bd2[k] == bd[k]);
                            assert(before[k].disp == bd[k] as u32);
                        } else {
                            assert(disps@[bd2[k]] == *d);
                        }
                    }
                }
            },
        }
        proof {
            if outcome != DispOutcome::Built {
                assert(built_disps(t@, faces@, vc, disps@, i + 1) == built_disps(t@, faces@, vc, disps@, i as int));
            }
        }
        i = i + 1;
    }
    let built = planned.len();
    proof {
        g.lemma_grouped(t.texinfos@);
    }
    (
        g.into_surfaces(),
        planned,
        DispStats {
            displacements: disps.len(),
            built,
            skipped_bad_power: bad_power,
            skipped_bad_face: bad_face,
            skipped_no_texinfo: no_texinfo,
            skipped_short_verts: short_verts,
            removed_triangles,
            vertices: 0,
            triangles: 0,
        },
    )
}

/// The face lumps a displacement build reads: it never consults PLANES.
pub open spec fn disp_face_lumps(bytes: Seq<u8>) -> FaceLumps {
    let t = face_lumps(bytes);
    FaceLumps {
        texinfos: t.texinfos,
        texdata_count: t.texdata_count,
        surfedges: t.surfedges,
        edges: t.edges,
        vertex_count: t.vertex_count,
        plane_count: 0,
    }
}

/// Every displacement in the map, planned: which are built, the grouping of
/// the built ones by material, and each one's triangles. The vertex and
/// triangle counters are left at zero for whoever builds the vertices.
///
/// Fails only when a lump does not decode; unusable displacements are
/// skipped and counted.
pub fn plan_displacements(bsp: &Bsp) -> (r: Result<(Vec<SurfaceKey>, Vec<PlannedDisp>, DispStats), BspError>)
    requires
        bsp.wf(),
    ensures
        r is Ok <==> disp_lumps_readable(bsp.bytes()),
        r matches Err(e) ==> is_lump_error(e) && disp_error(bsp.bytes(), e),
        r matches Ok((surfaces, planned, stats)) ==> {
            let b = bsp.bytes();
            let t = disp_face_lumps(b);
            let faces = lump_records::<DFace>(b, LumpId::Faces);
            let disps = lump_records::<DDispInfo>(b, LumpId::DispInfo);
            let tris = lump_records::<DispTri>(b, LumpId::DispTris);
            let vc = lump_records::<DispVert>(b, LumpId::DispVerts).len() as int;
            let n = disps.len() as int;
            let built = built_disps(t, faces, vc, disps, n);
            let removed = removed_total(t, faces, vc, tris, disps, n);
            &&& plans_disps(planned@, t, faces, tris, disps, built)
            &&& grouped(disp_placements(planned@), surfaces@, t.texinfos)
            &&& stats == DispStats {
                displacements: n as usize,
                built: built.len() as usize,
                skipped_bad_power: disp_outcome_count(t, faces, vc, disps, n, DispOutcome::BadPower) as usize,
                skipped_bad_face: disp_outcome_count(t, faces, vc, disps, n, DispOutcome::BadFace) as usize,
                skipped_no_texinfo: disp_outcome_count(t, faces, vc, disps, n, DispOutcome::NoTexinfo) as usize,
                skipped_short_verts: disp_outcome_count(t, faces, vc, disps, n, DispOutcome::ShortVerts) as usize,
                removed_triangles: if removed > usize::MAX {
                    usize::MAX
                } else {
                    removed as usize
                },
                vertices: 0,
                triangles: 0,
            }
            &&& stats.built + stats.spec_skipped() == stats.displacements
        },
{
    let dispinfos = bsp.dispinfos()?;
    let disp_vert_count = bsp.disp_verts()?.len();
    let disp_tris = bsp.disp_tris()?;
    let faces = bsp.faces()?;
    let texinfos = bsp.texinfos()?;
    let texdata_count = bsp.texdatas()?.len();
    let vertex_count = bsp.vertices()?.len();
    let edges = bsp.edges()?;
    let surfedges = bsp.surfedges()?;
    let plane_count: usize = 0;
    let t = FaceTables { texinfos, texdata_count, surfedges, edges, vertex_count, plane_count };
    let planned = plan_disps(&t, &faces, disp_vert_count, &disp_tris, &dispinfos);
    proof {
        lemma_disps_accounted(t@, faces@, disp_vert_count as int, dispinfos@, dispinfos@.len() as int);
    }
    Ok(planned)
}

/// Every displacement below `end` is either built or counted under exactly
/// one skip reason.
pub proof fn lemma_disps_accounted(
    t: FaceLumps,
    faces: Seq<DFace>,
    disp_vert_count: int,
    disps: Seq<DDispInfo>,
    end: int,
)
    requires
        0 <= end,
    ensures
        built_disps(t, faces, disp_vert_count, disps, end).len() + disp_outcome_count(
            t,
            faces,
            disp_vert_count,
            disps,
            end,
            DispOutcome::BadPower,
        ) + disp_outcome_count(t, faces, disp_vert_count, disps, end, DispOutcome::BadFace) + disp_outcome_count(
            t,
            faces,
            disp_vert_count,
            disps,
            end,
            DispOutcome::NoTexinfo,
        ) + disp_outcome_count(t, faces, disp_vert_count, disps, end, DispOutcome::ShortVerts) == end,
    decreases end,
{
    if end > 0 {
        lemma_disps_accounted(t, faces, disp_vert_count, disps, end - 1);
    }
}

/// The tally of a cross-check between the luxel grid dimensions vbsp stored
/// for displacements and those recomputed from their parent quads.
#[derive(Clone, Copy, Debug, PartialEq, Eq)]
pub struct LuxelAxisCheck {
    /// Recomputed dimensions matched the stored ones in order.
    pub agree: usize,
    /// Recomputed dimensions matched only when transposed: U and V are the
    /// wrong way round, or the corner rotation is wrong.
    pub transposed: usize,
    /// Neither pairing matched exactly.
    pub inconclusive: usize,
    /// Stored grids that are square, where a transpose is invisible.
    pub square: usize,
}

impl LuxelAxisCheck {
    pub fn new() -> (r: Self)
        ensures
            r == (LuxelAxisCheck { agree: 0, transposed: 0, inconclusive: 0, square: 0 }),
    {
        LuxelAxisCheck { agree: 0, transposed: 0, inconclusive: 0, square: 0 }
    }

    /// Count one displacement: `stored` is its face's
    /// `lightmap_texture_size_in_luxels`, `computed` the recomputed pair.
    pub fn tally(&mut self, stored: [i32; 2], computed: [i32; 2])
        requires
            old(self).agree < usize::MAX,
            old(self).transposed < usize::MAX,
            old(self).inconclusive < usize::MAX,
            old(self).square < usize::MAX,
        ensures
            final(self).square == old(self).square + if stored[0] == stored[1] {
                1int
            } else {
                0int
            },
            computed[0] == stored[0] && computed[1] == stored[1] ==> final(self).agree == old(self).agree + 1
                && final(self).transposed == old(self).transposed && final(self).inconclusive == old(
                self,
            ).inconclusive,
            !(computed[0] == stored[0] && computed[1] == stored[1]) && computed[0] == stored[1] && computed[1]
                == stored[0] ==> final(self).transposed == old(self).transposed + 1 && final(self).agree == old(
                self,
            ).agree && final(self).inconclusive == old(self).inconclusive,
            !(computed[0] == stored[0] && computed[1] == stored[1]) && !(computed[0] == stored[1] && computed[1]
                == stored[0]) ==> final(self).inconclusive == old(self).inconclusive + 1 && final(self).agree
                == old(self).agree && final(self).transposed == old(self).transposed,
    {
        if stored[0] == stored[1] {
            self.square = self.square + 1;
        }
        if computed[0] == stored[0] && computed[1] == stored[1] {
            self.agree = self.agree + 1;
        } else if computed[0] == stored[1] && computed[1] == stored[0] {
            self.transposed = self.transposed + 1;
        } else {
            self.inconclusive = self.inconclusive + 1;
        }
    }
}

proof fn lemma_built_disps_are_built(t: FaceLumps, faces: Seq<DFace>, vc: int, disps: Seq<DDispInfo>, end: int)
    requires
        0 <= end <= disps.len(),
    ensures
        forall|k: int|
            0 <= k < built_disps(t, faces, vc, disps, end).len() ==> 0 <= #[trigger] built_disps(t, faces, vc, disps, end)[k]
                < end && spec_disp_outcome(t, faces, vc, disps[built_disps(t, faces, vc, disps, end)[k]]) is Built,
    decreases end,
{
    if end > 0 {
        lemma_built_disps_are_built(t, faces, vc, disps, end - 1);
        let prev = built_disps(t, faces, vc, disps, end - 1);
        if spec_disp_outcome(t, faces, vc, disps[end - 1]) is Built {
            assert forall|k: int| 0 <= k < prev.push(end - 1).len() implies 0 <= #[trigger] prev.push(end - 1)[k]
                < end && spec_disp_outcome(t, faces, vc, disps[prev.push(end - 1)[k]]) is Built by {
                if k < prev.len() {
                    assert(prev.push(end - 1)[k] == prev[k]);
                }
            }
        }
    }
}

/// Every planned displacement reads its grid from its own DISP_VERTS run:
/// it is a DISPINFO entry whose `disp_vert_start` (a negative one read as
/// zero) is where its `side * side` vertex records start, all of them
/// inside the `vc` records of DISP_VERTS, and it is a grid of a legal power.
pub proof fn lemma_planned_disp_vertices(
    p: Seq<PlannedDisp>,
    t: FaceLumps,
    faces: Seq<DFace>,
    vc: int,
    tris: Seq<DispTri>,
    disps: Seq<DDispInfo>,
)
    requires
        disps.len() <= u32::MAX,
        plans_disps(p, t, faces, tris, disps, built_disps(t, faces, vc, disps, disps.len() as int)),
    ensures
        forall|k: int|
            0 <= k < p.len() ==> {
                let d = disps[#[trigger] p[k].disp as int];
                &&& p[k].disp < disps.len()
                &&& p[k].vert_start == if d.disp_vert_start > 0 {
                    d.disp_vert_start as int
                } else {
                    0
                }
                &&& p[k].vert_start + p[k].side * p[k].side <= vc
                &&& 2 <= d.power <= 4
                &&& p[k].face == d.map_face
                &&& p[k].texinfo == faces[d.map_face as int].texinfo
                &&& p[k].side == if d.power == 2 {
                    5int
                } else if d.power == 3 {
                    9int
                } else {
                    17int
                }
                &&& p[k].indices@ == grid_triangles(
                    tris,
                    if d.disp_tri_start > 0 {
                        d.disp_tri_start as int
                    } else {
                        0
                    },
                    p[k].side as int,
                    p[k].side - 1,
                )
            },
{
    let n = disps.len() as int;
    let built = built_disps(t, faces, vc, disps, n);
    lemma_built_disps_are_built(t, faces, vc, disps, n);
    assert forall|k: int| 0 <= k < p.len() implies {
        let d = disps[#[trigger] p[k].disp as int];
        &&& p[k].disp < disps.len()
        &&& p[k].vert_start == if d.disp_vert_start > 0 {
            d.disp_vert_start as int
        } else {
            0
        }
        &&& p[k].vert_start + p[k].side * p[k].side <= vc
        &&& 2 <= d.power <= 4
        &&& p[k].face == d.map_face
        &&& p[k].texinfo == faces[d.map_face as int].texinfo
        &&& p[k].side == if d.power == 2 {
            5int
        } else if d.power == 3 {
            9int
        } else {
            17int
        }
        &&& p[k].indices@ == grid_triangles(
            tris,
            if d.disp_tri_start > 0 {
                d.disp_tri_start as int
            } else {
                0
            },
            p[k].side as int,
            p[k].side - 1,
        )
    } by {
        assert(p[k].disp == built[k] as u32);
        assert(0 <= built[k] < n);
        assert(p[k].disp == built[k]);
        let d = disps[built[k]];
        if d.power == 2 {
            vstd::arithmetic::power2::lemma2_to64();
        } else if d.power == 3 {
            vstd::arithmetic::power2::lemma2_to64();
        } else {
            vstd::arithmetic::power2::lemma2_to64();
        }
    }
}

} // verus!
