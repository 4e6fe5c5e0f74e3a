//! Pack vrad's baked lightmaps into a single atlas.
//!
//! Source stores one small lightmap per face, a `w × h` grid of samples. Every
//! face used by the geometry is packed into one atlas, each face's rect padded
//! by one pixel on every side and the padding filled by duplicating the edge
//! luxels, so that bilinear taps near a face's edge never pick up a
//! neighbouring face's lighting.
//!
//! This module holds the integer side of that work: which faces get a rect,
//! where each rect goes, how wide the atlas is, and which sample each atlas
//! pixel copies. Decoding a sample to linear light is left to the caller.

use vstd::prelude::*;

use crate::file::{is_lump_error, lump_records, records_error, records_readable, Bsp, BspError};
use crate::lump::LumpId;
use crate::flags::TEX_SPECIAL;
use crate::raw::{ColorRgbExp32, DFace, TexInfo};

use vstd::arithmetic::power2::{lemma2_to64, lemma_pow2_strictly_increases, lemma_pow2_unfold, pow2};

verus! {

/// Padding around each face's rect, in pixels.
pub const BORDER: u32 = 1;

/// Largest atlas edge this packer will produce.
pub const MAX_ATLAS_DIM: u32 = 8192;

/// Rejection threshold for a single face's luxel grid.
pub const MAX_FACE_DIM: i32 = 512;

/// Which set of baked samples to read.
#[derive(Clone, Copy, Debug, PartialEq, Eq)]
pub enum Lighting {
    /// `LUMP_LIGHTING`, the LDR bake present on every TF2 map.
    Ldr,
    /// `LUMP_LIGHTING_HDR`. Falls back to LDR when the map has no HDR bake.
    Hdr,
}

impl Default for Lighting {
    fn default() -> (r: Self)
        ensures
            r == Lighting::Ldr,
    {
        Lighting::Ldr
    }
}

/// Where one face's samples ended up in the atlas, in pixels.
///
/// This is the interior rect: the one-pixel border sits just outside it.
#[derive(Clone, Copy, Debug, PartialEq, Eq)]
pub struct LightmapRect {
    pub x: u32,
    pub y: u32,
    pub width: u32,
    pub height: u32,
}

/// The rect with its border: left, top, right and bottom edges, right and
/// bottom exclusive.
pub open spec fn padded_left(r: LightmapRect) -> int {
    r.x - BORDER
}

pub open spec fn padded_top(r: LightmapRect) -> int {
    r.y - BORDER
}

pub open spec fn padded_right(r: LightmapRect) -> int {
    r.x + r.width + BORDER
}

pub open spec fn padded_bottom(r: LightmapRect) -> int {
    r.y + r.height + BORDER
}

/// Two rects whose padded boxes share no pixel.
pub open spec fn padded_disjoint(a: LightmapRect, b: LightmapRect) -> bool {
    padded_right(a) <= padded_left(b) || padded_right(b) <= padded_left(a)
        || padded_bottom(a) <= padded_top(b) || padded_bottom(b) <= padded_top(a)
}

/// The smallest `s` with `s * s >= n`.
pub open spec fn is_ceil_sqrt(n: int, s: int) -> bool {
    s >= 0 && s * s >= n && (s == 0 || (s - 1) * (s - 1) < n)
}

/// The smallest power of two, starting the search from `p`, that is at least
/// `x`.
pub open spec fn pow2_at_least(x: int, p: int) -> int
    decreases if x > p { x - p } else { 0 },
{
    if p <= 0 || p >= x {
        p
    } else {
        pow2_at_least(x, 2 * p)
    }
}

/// `x.next_power_of_two()`: the smallest power of two that is at least `x`.
pub open spec fn spec_next_power_of_two(x: int) -> int {
    pow2_at_least(x, 1)
}

pub open spec fn spec_clamp(v: int, lo: int, hi: int) -> int {
    if v < lo {
        lo
    } else if v > hi {
        hi
    } else {
        v
    }
}

pub open spec fn spec_max(a: int, b: int) -> int {
    if a >= b {
        a
    } else {
        b
    }
}

/// The smallest `s` with `s * s >= n`.
pub fn ceil_sqrt(n: u64) -> (s: u64)
    ensures
        is_ceil_sqrt(n as int, s as int),
{
    if n == 0 {
        return 0;
    }
    // lo * lo < n <= hi * hi
    let mut lo: u64 = 0;
    let mut hi: u64 = 0x1_0000_0000;
    assert(0x1_0000_0000 * 0x1_0000_0000 > u64::MAX) by (nonlinear_arith);
    while hi - lo > 1
        invariant
            0 <= lo < hi <= 0x1_0000_0000,
            n > 0,
            (lo as int) * (lo as int) < n,
            (hi as int) * (hi as int) >= n,
        decreases hi - lo,
    {
        let mid = lo + (hi - lo) / 2;
        assert((mid as int) * (mid as int) <= 0x1_0000_0000 * 0x1_0000_0000) by (nonlinear_arith)
            requires 0 <= mid <= 0x1_0000_0000;
        let sq = (mid as u128) * (mid as u128);
        if sq >= n as u128 {
            hi = mid;
        } else {
            lo = mid;
        }
    }
    assert(lo + 1 == hi);
    hi
}

/// The smallest power of two that is at least `x` (1 for 0).
pub fn next_power_of_two(x: u32) -> (r: u32)
    requires
        x <= 0x8000_0000,
    ensures
        r == spec_next_power_of_two(x as int),
        r >= x,
        r >= 1,
{
    let mut p: u32 = 1;
    let ghost mut k: nat = 0;
    proof {
        lemma2_to64();
    }
    while p < x
        invariant
            1 <= p <= 0x8000_0000,
            x <= 0x8000_0000,
            p == pow2(k),
            k <= 31,
            pow2(31) == 0x8000_0000,
            pow2_at_least(x as int, p as int) == spec_next_power_of_two(x as int),
        decreases 0x8000_0000 - p,
    {
        proof {
            if k == 31 {
                assert(false);
            }
            lemma_pow2_unfold(k + 1);
            if k + 1 < 31 {
                lemma_pow2_strictly_increases(k + 1, 31);
            }
        }
        p = p * 2;
        proof {
            k = k + 1;
        }
    }
    p
}

/// Atlas width: square-ish, a power of two, and never narrower than the widest
/// single face, within `64..=MAX_ATLAS_DIM`.
pub open spec fn spec_choose_width(padded_area: int, widest_item: int) -> int {
    let square = choose|s: int| is_ceil_sqrt(padded_area, s);
    spec_clamp(spec_next_power_of_two(spec_max(square, widest_item)), 64, MAX_ATLAS_DIM as int)
}

proof fn lemma_ceil_sqrt_unique(n: int, s: int, t: int)
    requires
        is_ceil_sqrt(n, s),
        is_ceil_sqrt(n, t),
    ensures
        s == t,
{
    if s < t {
        assert(s * s <= (t - 1) * (t - 1)) by (nonlinear_arith)
            requires 0 <= s <= t - 1;
    } else if t < s {
        assert(t * t <= (s - 1) * (s - 1)) by (nonlinear_arith)
            requires 0 <= t <= s - 1;
    }
}

proof fn lemma_ceil_sqrt_exists(n: int)
    requires
        n >= 0,
    ensures
        exists|s: int| is_ceil_sqrt(n, s),
    decreases n,
{
    if n == 0 {
        assert(is_ceil_sqrt(0, 0));
    } else {
        let m = n - 1;
        lemma_ceil_sqrt_exists(m);
        let s = choose|s: int| is_ceil_sqrt(m, s);
        if s * s >= n {
            assert(is_ceil_sqrt(n, s));
        } else {
            assert((s + 1) * (s + 1) == s * s + 2 * s + 1) by (nonlinear_arith);
            assert(is_ceil_sqrt(n, s + 1));
        }
    }
}

proof fn lemma_pow2_at_least_shape(x: int, k: nat)
    ensures
        exists|j: nat| #[trigger] pow2(j) == pow2_at_least(x, pow2(k) as int),
        pow2_at_least(x, pow2(k) as int) >= x,
        pow2_at_least(x, pow2(k) as int) >= pow2(k),
    decreases if x > pow2(k) { x - pow2(k) } else { 0 },
{
    vstd::arithmetic::power2::lemma_pow2_pos(k);
    let p = pow2(k) as int;
    if p >= x {
        assert(pow2(k) == pow2_at_least(x, p));
    } else {
        lemma_pow2_unfold(k + 1);
        assert(pow2(k + 1) == 2 * p);
        lemma_pow2_at_least_shape(x, k + 1);
    }
}

/// The atlas width is a power of two within `64..=MAX_ATLAS_DIM`; it is at
/// least the widest item whenever that fits under the cap, and its square
/// covers the padded area whenever the cap allows.
pub proof fn lemma_atlas_width_shape(padded_area: int, widest: int)
    requires
        padded_area >= 0,
        widest >= 0,
    ensures
        exists|k: nat| #[trigger] pow2(k) == spec_choose_width(padded_area, widest),
        64 <= spec_choose_width(padded_area, widest) <= MAX_ATLAS_DIM,
        widest <= MAX_ATLAS_DIM ==> widest <= spec_choose_width(padded_area, widest),
        padded_area <= MAX_ATLAS_DIM * MAX_ATLAS_DIM ==> padded_area <= spec_choose_width(padded_area, widest)
            * spec_choose_width(padded_area, widest),
{
    lemma2_to64();
    lemma_ceil_sqrt_exists(padded_area);
    let s = choose|s: int| is_ceil_sqrt(padded_area, s);
    let m = spec_max(s, widest);
    assert(pow2(0) == 1);
    lemma_pow2_at_least_shape(m, 0);
    let v = spec_next_power_of_two(m);
    let w = spec_choose_width(padded_area, widest);
    if v < 64 {
        assert(w == pow2(6));
    } else if v > MAX_ATLAS_DIM {
        assert(w == pow2(13));
    } else {
        assert(w == v);
        let j = choose|j: nat| #[trigger] pow2(j) == v;
        assert(pow2(j) == w);
    }
    if padded_area <= MAX_ATLAS_DIM * MAX_ATLAS_DIM {
        if w == MAX_ATLAS_DIM {
        } else {
            assert(w >= s);
            assert(s * s <= w * w) by (nonlinear_arith)
                requires 0 <= s <= w;
        }
    }
}

/// Atlas width: square-ish, a power of two, and never narrower than the widest
/// single face.
pub fn choose_width(padded_area: u64, widest_item: u32) -> (r: u32)
    requires
        padded_area <= 0x4000_0000_0000_0000,
        widest_item <= 0x8000_0000,
    ensures
        r == spec_choose_width(padded_area as int, widest_item as int),
        64 <= r <= MAX_ATLAS_DIM,
{
    let square = ceil_sqrt(padded_area);
    proof {
        assert(square <= 0x8000_0000) by {
            if square > 0x8000_0000 {
                assert((square as int - 1) * (square as int - 1) >= 0x8000_0000 * 0x8000_0000)
                    by (nonlinear_arith)
                    requires square as int - 1 >= 0x8000_0000;
            }
        }
        let s = choose|s: int| is_ceil_sqrt(padded_area as int, s);
        assert(is_ceil_sqrt(padded_area as int, square as int));
        lemma_ceil_sqrt_unique(padded_area as int, s, square as int);
    }
    let square = square as u32;
    let widest = if square >= widest_item { square } else { widest_item };
    let width = next_power_of_two(widest);
    if width < 64 {
        64
    } else if width > MAX_ATLAS_DIM {
        MAX_ATLAS_DIM
    } else {
        width
    }
}

/// A shelf (row) packer. Items arrive tallest-first, so each shelf's height is
/// set by its first item and the rest fit under it with little waste.
#[derive(Clone, Copy, Debug, PartialEq, Eq)]
pub struct Shelf {
    pub width: u32,
    pub cursor_x: u32,
    pub shelf_y: u32,
    pub shelf_height: u32,
}

/// Whether placing a `width`-wide interior starts a new shelf.
pub open spec fn place_wraps(s: Shelf, width: int) -> bool {
    s.cursor_x + width + 2 * BORDER > s.width && s.cursor_x > 0
}

/// The interior rect that [`Shelf::place`] hands out.
pub open spec fn spec_place_rect(s: Shelf, width: u32, height: u32) -> LightmapRect {
    if place_wraps(s, width as int) {
        LightmapRect { x: BORDER, y: (s.shelf_y + s.shelf_height + BORDER) as u32, width, height }
    } else {
        LightmapRect { x: (s.cursor_x + BORDER) as u32, y: (s.shelf_y + BORDER) as u32, width, height }
    }
}

/// The packer's state after [`Shelf::place`].
pub open spec fn spec_place_shelf(s: Shelf, width: u32, height: u32) -> Shelf {
    let (pw, ph) = (width + 2 * BORDER, height + 2 * BORDER);
    if place_wraps(s, width as int) {
        Shelf { width: s.width, cursor_x: pw as u32, shelf_y: (s.shelf_y + s.shelf_height) as u32, shelf_height: ph as u32 }
    } else {
        Shelf {
            width: s.width,
            cursor_x: (s.cursor_x + pw) as u32,
            shelf_y: s.shelf_y,
            shelf_height: spec_max(s.shelf_height as int, ph) as u32,
        }
    }
}

/// Whether `place` can run without overflowing.
pub open spec fn place_fits(s: Shelf, width: u32, height: u32) -> bool {
    &&& s.cursor_x + width + 2 * BORDER <= u32::MAX
    &&& s.shelf_y + s.shelf_height + height + 2 * BORDER <= u32::MAX
}

/// A rect already handed out lies entirely in territory the packer will not
/// hand out again: above the current shelf, or on it left of the cursor.
pub open spec fn is_behind(s: Shelf, r: LightmapRect) -> bool {
    padded_bottom(r) <= s.shelf_y || (padded_top(r) >= s.shelf_y && padded_right(r) <= s.cursor_x
        && padded_bottom(r) <= s.shelf_y + s.shelf_height)
}

impl Shelf {
    pub fn new(width: u32) -> (r: Self)
        ensures
            r == (Shelf { width, cursor_x: 0, shelf_y: 0, shelf_height: 0 }),
    {
        Shelf { width, cursor_x: 0, shelf_y: 0, shelf_height: 0 }
    }

    /// Reserve space for a `width × height` interior plus its border, and
    /// return the interior rect.
    pub fn place(&mut self, width: u32, height: u32) -> (r: LightmapRect)
        requires
            place_fits(*old(self), width, height),
        ensures
            r == spec_place_rect(*old(self), width, height),
            *final(self) == spec_place_shelf(*old(self), width, height),
    {
        let (pw, ph) = (width + 2 * BORDER, height + 2 * BORDER);
        if self.cursor_x + pw > self.width && self.cursor_x > 0 {
            self.shelf_y = self.shelf_y + self.shelf_height;
            self.shelf_height = 0;
            self.cursor_x = 0;
        }
        let rect = LightmapRect { x: self.cursor_x + BORDER, y: self.shelf_y + BORDER, width, height };
        self.cursor_x = self.cursor_x + pw;
        self.shelf_height = if self.shelf_height >= ph { self.shelf_height } else { ph };
        rect
    }

    /// Height of everything packed so far.
    pub fn height(&self) -> (r: u32)
        requires
            self.shelf_y + self.shelf_height <= u32::MAX,
        ensures
            r == self.shelf_y + self.shelf_height,
    {
        self.shelf_y + self.shelf_height
    }
}

/// Packing never overlaps: the rect [`Shelf::place`] hands out is disjoint,
/// border included, from every rect handed out before it, and every rect
/// handed out so far (the new one too) stays out of the packer's way
/// afterwards.
pub proof fn lemma_place_disjoint(s: Shelf, width: u32, height: u32, earlier: LightmapRect)
    requires
        place_fits(s, width, height),
        is_behind(s, earlier),
    ensures
        padded_disjoint(earlier, spec_place_rect(s, width, height)),
        is_behind(spec_place_shelf(s, width, height), earlier),
        is_behind(spec_place_shelf(s, width, height), spec_place_rect(s, width, height)),
{
}

/// Packing stays inside the atlas: an item no wider than the atlas, placed
/// while the cursor is inside it, ends inside it, border included.
pub proof fn lemma_place_within_width(s: Shelf, width: u32, height: u32)
    requires
        place_fits(s, width, height),
        s.cursor_x <= s.width,
        width + 2 * BORDER <= s.width,
    ensures
        padded_right(spec_place_rect(s, width, height)) <= s.width,
        padded_left(spec_place_rect(s, width, height)) >= 0,
        padded_top(spec_place_rect(s, width, height)) >= 0,
        spec_place_shelf(s, width, height).cursor_x <= s.width,
{
}

/// The atlas index of the sample that pixel `(px, py)` shows when `rect` is
/// blitted: the nearest interior luxel, so the border repeats the edge.
pub open spec fn blit_source(rect: LightmapRect, px: int, py: int) -> int {
    let sx = spec_clamp(px - rect.x, 0, rect.width - 1);
    let sy = spec_clamp(py - rect.y, 0, rect.height - 1);
    sy * rect.width + sx
}

/// Whether atlas pixel `(px, py)` is covered by `rect`'s padded box.
pub open spec fn in_padded(rect: LightmapRect, px: int, py: int) -> bool {
    padded_left(rect) <= px < padded_right(rect) && padded_top(rect) <= py < padded_bottom(rect)
}

/// Write a rect's samples into a row-major atlas of `atlas_width ×
/// atlas_height` pixels, and duplicate its edges into the border. Border
/// pixels that fall outside the atlas are skipped rather than wrapped.
///
/// `samples` holds the rect's interior, row-major: `samples[x + y * width]`.
pub fn blit<T: Copy>(
    pixels: &mut Vec<T>,
    atlas_width: u32,
    atlas_height: u32,
    rect: LightmapRect,
    samples: &Vec<T>,
)
    requires
        old(pixels)@.len() == atlas_width as int * atlas_height as int,
        rect.width >= 1,
        rect.height >= 1,
        rect.x + rect.width <= atlas_width,
        rect.y + rect.height <= atlas_height,
        samples@.len() == rect.width as int * rect.height as int,
    ensures
        final(pixels)@.len() == old(pixels)@.len(),
        forall|px: int, py: int|
            0 <= px < atlas_width && 0 <= py < atlas_height ==> #[trigger] final(pixels)@[py * atlas_width + px]
                == if in_padded(rect, px, py) {
                samples@[blit_source(rect, px, py)]
            } else {
                old(pixels)@[py * atlas_width + px]
            },
{
    let ghost before = pixels@;
    let aw = atlas_width as u64;
    let ah = atlas_height as u64;
    let rw = rect.width as u64;
    let rh = rect.height as u64;
    let rx = rect.x as u64;
    let ry = rect.y as u64;
    // Rows of the padded box that lie inside the atlas.
    let y_lo = if ry >= 1 { ry - 1 } else { 0 };
    let y_hi = if ry + rh + 1 <= ah { ry + rh + 1 } else { ah };
    let x_lo = if rx >= 1 { rx - 1 } else { 0 };
    let x_hi = if rx + rw + 1 <= aw { rx + rw + 1 } else { aw };
    let mut y = y_lo;
    while y < y_hi
        invariant
            pixels@.len() == before.len(),
            before.len() == aw * ah,
            aw == atlas_width,
            ah == atlas_height,
            rw == rect.width,
            rh == rect.height,
            rx == rect.x,
            ry == rect.y,
            rw >= 1,
            rh >= 1,
            rx + rw <= aw,
            ry + rh <= ah,
            samples@.len() == rw * rh,
            y_lo == padded_top(rect) || (y_lo == 0 && padded_top(rect) < 0),
            y_hi == padded_bottom(rect) || (y_hi == ah && padded_bottom(rect) > ah),
            x_lo == padded_left(rect) || (x_lo == 0 && padded_left(rect) < 0),
            x_hi == padded_right(rect) || (x_hi == aw && padded_right(rect) > aw),
            y_lo <= y <= y_hi <= ah,
            x_lo <= x_hi <= aw,
            forall|px: int, py: int|
                0 <= px < aw && 0 <= py < ah ==> #[trigger] pixels@[py * aw + px] == if in_padded(rect, px, py)
                    && py < y {
                    samples@[blit_source(rect, px, py)]
                } else {
                    before[py * aw + px]
                },
        decreases y_hi - y,
    {
        let sy = if y < ry { 0 } else if y >= ry + rh { rh - 1 } else { y - ry };
        let mut x = x_lo;
        while x < x_hi
            invariant
                pixels@.len() == before.len(),
                before.len() == aw * ah,
                aw == atlas_width,
                ah == atlas_height,
                rw == rect.width,
                rh == rect.height,
                rx == rect.x,
                ry == rect.y,
                rw >= 1,
                rh >= 1,
                rx + rw <= aw,
                ry + rh <= ah,
                samples@.len() == rw * rh,
                y_lo == padded_top(rect) || (y_lo == 0 && padded_top(rect) < 0),
                y_hi == padded_bottom(rect) || (y_hi == ah && padded_bottom(rect) > ah),
                x_lo == padded_left(rect) || (x_lo == 0 && padded_left(rect) < 0),
                x_hi == padded_right(rect) || (x_hi == aw && padded_right(rect) > aw),
                y_lo <= y < y_hi <= ah,
                x_lo <= x <= x_hi <= aw,
                sy == spec_clamp(y - ry, 0, rh - 1),
                forall|px: int, py: int|
                    0 <= px < aw && 0 <= py < ah ==> #[trigger] pixels@[py * aw + px] == if in_padded(rect, px, py)
                        && (py < y || (py == y && px < x)) {
                        samples@[blit_source(rect, px, py)]
                    } else {
                        before[py * aw + px]
                    },
            decreases x_hi - x,
        {
            let sx = if x < rx { 0 } else if x >= rx + rw { rw - 1 } else { x - rx };
            proof {
                assert(sy * rw + sx < rw * rh) by (nonlinear_arith)
                    requires sy < rh, sx < rw;
                assert(y * aw + x < aw * ah) by (nonlinear_arith)
                    requires y < ah, x < aw;
                assert(rw * rh <= 0xFFFF_FFFF * 0xFFFF_FFFF) by (nonlinear_arith)
                    requires rw <= 0xFFFF_FFFF, rh <= 0xFFFF_FFFF;
                assert(aw * ah <= 0xFFFF_FFFF * 0xFFFF_FFFF) by (nonlinear_arith)
                    requires aw <= 0xFFFF_FFFF, ah <= 0xFFFF_FFFF;
            }
            let plen = pixels.len();
            let slen = samples.len();
            assert(y * aw + x < plen);
            assert(sy * rw + sx < slen);
            let v = samples[(sy * rw + sx) as usize];
            let idx = (y * aw + x) as usize;
            let ghost prev = pixels@;
            pixels.set(idx, v);
            proof {
                assert(idx as int == y * aw + x);
                assert(pixels@ == prev.update(idx as int, v));
                assert forall|px: int, py: int|
                    0 <= px < aw && 0 <= py < ah implies #[trigger] pixels@[py * aw + px] == if in_padded(
                        rect,
                        px,
                        py,
                    ) && (py < y || (py == y && px < x + 1)) {
                        samples@[blit_source(rect, px, py)]
                    } else {
                        before[py * aw + px]
                    } by {
                    if py == y && px == x {
                        assert(in_padded(rect, px, py));
                        assert(blit_source(rect, px, py) == sy * rw + sx);
                        assert(py * aw + px == idx as int);
                        assert(pixels@[idx as int] == v);
                    } else {
                        assert(py * aw + px != y * aw + x) by (nonlinear_arith)
                            requires 0 <= px < aw, 0 <= x < aw, !(py == y && px == x);
                        assert(0 <= py * aw + px < aw * ah) by (nonlinear_arith)
                            requires 0 <= px < aw, 0 <= py < ah;
                        assert(pixels@[py * aw + px] == prev[py * aw + px]);
                    }
                }
            }
            x = x + 1;
        }
        y = y + 1;
    }
}

/// What one face needs from the atlas, resolved before packing.
#[derive(Clone, Copy, Debug, PartialEq, Eq)]
pub struct LightmapItem {
    /// Index into the FACES lump.
    pub face: u32,
    pub width: u32,
    pub height: u32,
    /// Index of the face's first sample in the lighting lump.
    pub start: usize,
}

/// How the packer treats one face.
pub enum FaceLighting {
    /// The face index, its luxel grid or its sample range is out of bounds.
    BadRange,
    /// The compiler never lit the face: `TEX_SPECIAL`, `styles[0] == 255`, or
    /// a negative `lightofs`.
    Unlit,
    /// The face gets its own rect.
    Packed(LightmapItem),
}

/// Whether a face's luxel extents can be turned into a sample grid without
/// overflow.
pub open spec fn face_sizes_fit(faces: Seq<DFace>) -> bool {
    forall|i: int| 0 <= i < faces.len() ==> #[trigger] faces[i].lightmap_texture_size_in_luxels[0] < i32::MAX
        && faces[i].lightmap_texture_size_in_luxels[1] < i32::MAX
}

/// How [`select_faces`] treats face `face_index`, given `samples_len`
/// samples in the lighting lump.
pub open spec fn spec_face_lighting(faces: Seq<DFace>, texinfos: Seq<TexInfo>, samples_len: int, face_index: u32) -> FaceLighting {
    if face_index >= faces.len() {
        FaceLighting::BadRange
    } else {
        let face = faces[face_index as int];
        let unlit_texinfo = face.texinfo < 0 || face.texinfo >= texinfos.len() || texinfos[face.texinfo as int].flags
            & TEX_SPECIAL != 0;
        if unlit_texinfo || face.styles[0] == 255 || face.lightofs < 0 {
            FaceLighting::Unlit
        } else {
            let w = face.lightmap_texture_size_in_luxels[0] + 1;
            let h = face.lightmap_texture_size_in_luxels[1] + 1;
            if w <= 0 || h <= 0 || w > MAX_FACE_DIM || h > MAX_FACE_DIM {
                FaceLighting::BadRange
            } else if face.lightofs % 4 != 0 {
                FaceLighting::BadRange
            } else if face.lightofs / 4 + w * h > samples_len {
                FaceLighting::BadRange
            } else {
                FaceLighting::Packed(
                    LightmapItem { face: face_index, width: w as u32, height: h as u32, start: (face.lightofs / 4) as usize },
                )
            }
        }
    }
}

/// The result of [`select_faces`].
pub struct LightmapSelection {
    pub items: Vec<LightmapItem>,
    /// Faces the compiler never lit; they are pointed at the fullbright
    /// block.
    pub faces_unlit: usize,
    /// Faces whose sample range fell outside the lighting lump, or whose luxel
    /// grid was implausibly large.
    pub faces_bad_range: usize,
}

/// The items, unlit count and bad-range count that [`select_faces`] gives for
/// the face indices `idx`, each face counted once at its first occurrence.
pub open spec fn spec_select(faces: Seq<DFace>, texinfos: Seq<TexInfo>, samples_len: int, idx: Seq<u32>) -> (Seq<LightmapItem>, nat, nat)
    decreases idx.len(),
{
    if idx.len() == 0 {
        (Seq::empty(), 0, 0)
    } else {
        let (items, unlit, bad) = spec_select(faces, texinfos, samples_len, idx.drop_last());
        if idx.drop_last().contains(idx.last()) {
            (items, unlit, bad)
        } else {
            match spec_face_lighting(faces, texinfos, samples_len, idx.last()) {
                FaceLighting::BadRange => (items, unlit, bad + 1),
                FaceLighting::Unlit => (items, unlit + 1, bad),
                FaceLighting::Packed(item) => (items.push(item), unlit, bad),
            }
        }
    }
}

/// How one face is lit.
pub fn face_lighting(faces: &Vec<DFace>, texinfos: &Vec<TexInfo>, samples_len: usize, face_index: u32) -> (r: FaceLighting)
    requires
        face_sizes_fit(faces@),
    ensures
        r == spec_face_lighting(faces@, texinfos@, samples_len as int, face_index),
{
    if face_index as usize >= faces.len() {
        return FaceLighting::BadRange;
    }
    let face = faces[face_index as usize];
    let unlit_texinfo = face.texinfo < 0 || face.texinfo as usize >= texinfos.len()
        || texinfos[face.texinfo as usize].flags & TEX_SPECIAL != 0;
    if unlit_texinfo || face.styles[0] == 255 || face.lightofs < 0 {
        return FaceLighting::Unlit;
    }
    let w = face.lightmap_width();
    let h = face.lightmap_height();
    if w <= 0 || h <= 0 || w > MAX_FACE_DIM || h > MAX_FACE_DIM {
        return FaceLighting::BadRange;
    }
    if face.lightofs % 4 != 0 {
        return FaceLighting::BadRange;
    }
    let start = (face.lightofs / 4) as usize;
    assert(w * h <= 512 * 512) by (nonlinear_arith)
        requires 0 < w <= 512, 0 < h <= 512;
    let count = (w * h) as usize;
    if count > samples_len || start > samples_len - count {
        return FaceLighting::BadRange;
    }
    FaceLighting::Packed(LightmapItem { face: face_index, width: w as u32, height: h as u32, start })
}

/// However often a face is named, it is packed at most once, and only named
/// faces are packed.
pub proof fn lemma_select_packs_each_face_once(
    faces: Seq<DFace>,
    texinfos: Seq<TexInfo>,
    samples_len: int,
    idx: Seq<u32>,
)
    ensures
        ({
            let items = spec_select(faces, texinfos, samples_len, idx).0;
            &&& forall|i: int| 0 <= i < items.len() ==> idx.contains(#[trigger] items[i].face)
            &&& forall|i: int, j: int| 0 <= i < j < items.len() ==> #[trigger] items[i].face != #[trigger] items[j].face
        }),
    decreases idx.len(),
{
    if idx.len() > 0 {
        let prefix = idx.drop_last();
        lemma_select_packs_each_face_once(faces, texinfos, samples_len, prefix);
        let prev = spec_select(faces, texinfos, samples_len, prefix).0;
        let items = spec_select(faces, texinfos, samples_len, idx).0;
        assert forall|i: int| 0 <= i < prev.len() implies idx.contains(#[trigger] prev[i].face) by {
            let k = choose|k: int| 0 <= k < prefix.len() && prefix[k] == prev[i].face;
            assert(idx[k] == prefix[k]);
        }
        if !prefix.contains(idx.last()) {
            match spec_face_lighting(faces, texinfos, samples_len, idx.last()) {
                FaceLighting::Packed(item) => {
                    assert(items == prev.push(item));
                    assert(item.face == idx.last());
                    assert(idx.contains(idx[idx.len() - 1]));
                    assert forall|i: int| 0 <= i < prev.len() implies #[trigger] prev[i].face != item.face by {
                        assert(prefix.contains(prev[i].face));
                    }
                    assert forall|i: int, j: int| 0 <= i < j < items.len() implies #[trigger] items[i].face
                        != #[trigger] items[j].face by {
                        if j == prev.len() {
                            assert(items[i] == prev[i]);
                            assert(prev[i].face != item.face);
                        } else {
                            assert(items[i] == prev[i] && items[j] == prev[j]);
                        }
                    }
                },
                _ => {},
            }
        }
    }
}

/// Resolve which faces get a rect. Duplicate indices are fine: each face is
/// considered once, at its first occurrence. Unlit and out-of-range faces are
/// counted and skipped rather than failing the build.
pub fn select_faces(faces: &Vec<DFace>, texinfos: &Vec<TexInfo>, samples_len: usize, face_indices: &Vec<u32>) -> (r:
    LightmapSelection)
    requires
        face_sizes_fit(faces@),
    ensures
        (r.items@, r.faces_unlit as nat, r.faces_bad_range as nat) == spec_select(
            faces@,
            texinfos@,
            samples_len as int,
            face_indices@,
        ),
{
    broadcast use vstd::std_specs::hash::group_hash_axioms;

    let mut seen: std::collections::HashSet<u32> = std::collections::HashSet::new();
    let mut items: Vec<LightmapItem> = Vec::new();
    let mut unlit: usize = 0;
    let mut bad: usize = 0;
    let mut i: usize = 0;
    while i < face_indices.len()
        invariant
            face_sizes_fit(faces@),
            i <= face_indices@.len(),
            seen@ == face_indices@.subrange(0, i as int).to_set(),
            unlit + bad <= i,
            (items@, unlit as nat, bad as nat) == spec_select(
                faces@,
                texinfos@,
                samples_len as int,
                face_indices@.subrange(0, i as int),
            ),
        decreases face_indices@.len() - i,
    {
        let f = face_indices[i];
        let ghost prefix = face_indices@.subrange(0, i as int);
        let ghost next = face_indices@.subrange(0, i + 1);
        assert(next.drop_last() =~= prefix);
        assert(next.last() == f);
        let fresh = seen.insert(f);
        assert(prefix.contains(f) == prefix.to_set().contains(f));
        if fresh {
            match face_lighting(faces, texinfos, samples_len, f) {
                FaceLighting::BadRange => {
                    bad = bad + 1;
                },
                FaceLighting::Unlit => {
                    unlit = unlit + 1;
                },
                FaceLighting::Packed(item) => {
                    items.push(item);
                },
            }
        }
        assert(seen@ =~= next.to_set()) by {
            assert(next =~= prefix.push(f));
        }
        i = i + 1;
    }
    assert(face_indices@.subrange(0, face_indices@.len() as int) =~= face_indices@);
    LightmapSelection { items, faces_unlit: unlit, faces_bad_range: bad }
}

/// The packing order: tallest first, ties broken by face index.
pub open spec fn item_key_le(a: LightmapItem, b: LightmapItem) -> bool {
    a.height > b.height || (a.height == b.height && a.face <= b.face)
}

/// Items in packing order.
pub open spec fn sorted_by_key(s: Seq<LightmapItem>) -> bool {
    forall|i: int, j: int| 0 <= i < j < s.len() ==> item_key_le(s[i], s[j])
}

/// Where [`sort_items`] inserts `x` into `s`: before the first item from
/// `from` on that packs after it.
pub open spec fn insert_pos(s: Seq<LightmapItem>, x: LightmapItem, from: int) -> int
    decreases s.len() - from,
{
    if from >= s.len() || from < 0 {
        s.len() as int
    } else if !item_key_le(s[from], x) {
        from
    } else {
        insert_pos(s, x, from + 1)
    }
}

/// The items in packing order, equal items kept in input order.
pub open spec fn spec_sort(items: Seq<LightmapItem>) -> Seq<LightmapItem>
    decreases items.len(),
{
    if items.len() == 0 {
        Seq::empty()
    } else {
        let s = spec_sort(items.drop_last());
        s.insert(insert_pos(s, items.last(), 0), items.last())
    }
}

/// Put items in packing order: tallest first, ties broken by face index,
/// equal items kept in input order.
pub fn sort_items(items: Vec<LightmapItem>) -> (r: Vec<LightmapItem>)
    ensures
        r@ == spec_sort(items@),
        sorted_by_key(r@),
        r@.to_multiset() == items@.to_multiset(),
{
    broadcast use vstd::seq_lib::group_to_multiset_ensures;

    let mut out: Vec<LightmapItem> = Vec::new();
    let mut i: usize = 0;
    while i < items.len()
        invariant
            i <= items@.len(),
            sorted_by_key(out@),
            out@.to_multiset() == items@.subrange(0, i as int).to_multiset(),
            out@ == spec_sort(items@.subrange(0, i as int)),
        decreases items@.len() - i,
    {
        let x = items[i];
        // The first position holding an item that packs after `x`.
        let mut p: usize = 0;
        while p < out.len() && (out[p].height > x.height || (out[p].height == x.height && out[p].face <= x.face))
            invariant
                p <= out@.len(),
                forall|k: int| 0 <= k < p ==> item_key_le(#[trigger] out@[k], x),
                insert_pos(out@, x, 0) == insert_pos(out@, x, p as int),
            decreases out@.len() - p,
        {
            p = p + 1;
        }
        assert(insert_pos(out@, x, p as int) == p);
        let ghost before = out@;
        out.insert(p, x);
        proof {
            assert(out@ == before.insert(p as int, x));
            assert forall|a: int, b: int| 0 <= a < b < out@.len() implies item_key_le(out@[a], out@[b]) by {
                if a < p && b == p {
                } else if a == p {
                    // Everything from `p` on in `before` packs after `x`.
                    assert(!item_key_le(before[p as int], x));
                    assert(item_key_le(before[p as int], before[b - 1]) || p as int == b - 1);
                } else if b < p {
                } else if a < p {
                    assert(out@[b] == before[b - 1]);
                } else {
                    assert(out@[a] == before[a - 1]);
                    assert(out@[b] == before[b - 1]);
                }
            }
            vstd::seq_lib::to_multiset_insert(before, p as int, x);
            assert(items@.subrange(0, i + 1) =~= items@.subrange(0, i as int).push(x));
            assert(items@.subrange(0, i + 1).drop_last() =~= items@.subrange(0, i as int));
            vstd::seq_lib::to_multiset_build(items@.subrange(0, i as int), x);
        }
        i = i + 1;
    }
    assert(items@.subrange(0, items@.len() as int) =~= items@);
    out
}

/// Sum of the padded areas of `items`.
pub open spec fn padded_area_sum(items: Seq<LightmapItem>) -> int
    decreases items.len(),
{
    if items.len() == 0 {
        0
    } else {
        padded_area_sum(items.drop_last()) + (items.last().width + 2 * BORDER) * (items.last().height + 2
            * BORDER)
    }
}

/// The widest item's width, or 1 when there are none.
pub open spec fn widest_item(items: Seq<LightmapItem>) -> int
    decreases items.len(),
{
    if items.len() == 0 {
        1
    } else if items.len() == 1 {
        items[0].width as int
    } else {
        spec_max(widest_item(items.drop_last()), items.last().width as int)
    }
}

/// The rects [`Shelf::place`] hands out for `items` in order, and the packer
/// state after them.
pub open spec fn place_all(s: Shelf, items: Seq<LightmapItem>) -> (Shelf, Seq<LightmapRect>)
    decreases items.len(),
{
    if items.len() == 0 {
        (s, Seq::empty())
    } else {
        let (s1, rects) = place_all(s, items.drop_last());
        (
            spec_place_shelf(s1, items.last().width, items.last().height),
            rects.push(spec_place_rect(s1, items.last().width, items.last().height)),
        )
    }
}

/// Sizes every item must have for the packer: a real grid, at most
/// [`MAX_FACE_DIM`] on a side.
pub open spec fn items_well_sized(items: Seq<LightmapItem>) -> bool {
    forall|i: int| 0 <= i < items.len() ==> 1 <= #[trigger] items[i].width <= 512 && 1 <= items[i].height <= 512
}

proof fn lemma_pow2_at_least_ge(x: int, p: int)
    requires
        p >= 1,
    ensures
        pow2_at_least(x, p) >= x,
        pow2_at_least(x, p) >= p,
    decreases if x > p { x - p } else { 0 },
{
    if p < x {
        lemma_pow2_at_least_ge(x, 2 * p);
    }
}

/// No item is wider than [`widest_item`], which is at least 1.
proof fn lemma_widest_item_bounds(items: Seq<LightmapItem>)
    requires
        items_well_sized(items),
    ensures
        forall|k: int| 0 <= k < items.len() ==> #[trigger] items[k].width <= widest_item(items),
        1 <= widest_item(items) <= 512,
    decreases items.len(),
{
    if items.len() > 1 {
        let pre = items.drop_last();
        assert forall|k: int| 0 <= k < pre.len() implies 1 <= #[trigger] pre[k].width <= 512 && 1 <= pre[k].height
            <= 512 by {
            assert(pre[k] == items[k]);
        }
        lemma_widest_item_bounds(pre);
        assert forall|k: int| 0 <= k < items.len() implies #[trigger] items[k].width <= widest_item(items) by {
            if k < pre.len() {
                assert(pre[k] == items[k]);
            }
        }
    }
}

/// The atlas width [`layout_atlas`] picks for `items`.
pub open spec fn layout_width(items: Seq<LightmapItem>) -> int {
    spec_choose_width(padded_area_sum(items) + 9, widest_item(items) + 2 * BORDER)
}

/// The shelf packer's state, `(cursor_x, shelf_y, shelf_height)`, over
/// unbounded integers, after a 1 × 1 block and then `items` are placed in an
/// atlas `width` wide.
pub open spec fn ipack(width: int, items: Seq<LightmapItem>) -> (int, int, int)
    decreases items.len(),
{
    if items.len() == 0 {
        (1 + 2 * BORDER, 0, 1 + 2 * BORDER)
    } else {
        let (cx, y, h) = ipack(width, items.drop_last());
        let pw = items.last().width + 2 * BORDER;
        let ph = items.last().height + 2 * BORDER;
        if cx + pw > width && cx > 0 {
            (pw, y + h, ph)
        } else {
            (cx + pw, y, spec_max(h, ph))
        }
    }
}

/// The height of the packed atlas: the bottom of the last shelf.
pub open spec fn packed_height(width: int, items: Seq<LightmapItem>) -> int {
    ipack(width, items).1 + ipack(width, items).2
}

proof fn lemma_ipack_bounds(width: int, items: Seq<LightmapItem>)
    requires
        width >= 64,
        forall|m: int| 0 <= m < items.len() ==> #[trigger] items[m].width + 2 * BORDER <= width,
        items_well_sized(items),
    ensures
        0 < ipack(width, items).0 <= width,
        0 <= ipack(width, items).1,
        0 < ipack(width, items).2 <= 514,
        packed_height(width, items) <= 3 + 514 * items.len(),
    decreases items.len(),
{
    if items.len() > 0 {
        let pre = items.drop_last();
        assert forall|m: int| 0 <= m < pre.len() implies #[trigger] pre[m].width + 2 * BORDER <= width && 1
            <= pre[m].width <= 512 && 1 <= pre[m].height <= 512 by {
            assert(pre[m] == items[m]);
        }
        lemma_ipack_bounds(width, pre);
        assert(items.last() == items[items.len() - 1]);
    }
}

proof fn lemma_packed_height_grows(width: int, items: Seq<LightmapItem>, k: int)
    requires
        0 <= k <= items.len(),
    ensures
        packed_height(width, items.subrange(0, k)) <= packed_height(width, items),
    decreases items.len() - k,
{
    if k < items.len() {
        lemma_packed_height_grows(width, items, k + 1);
        let a = items.subrange(0, k + 1);
        assert(a.drop_last() =~= items.subrange(0, k));
        assert(packed_height(width, items.subrange(0, k)) <= packed_height(width, a));
    } else {
        assert(items.subrange(0, k) =~= items);
    }
}

proof fn lemma_width_caps(a: int, w: int)
    requires
        a > MAX_ATLAS_DIM * MAX_ATLAS_DIM,
        w >= 0,
    ensures
        spec_choose_width(a, w) == MAX_ATLAS_DIM,
{
    lemma_ceil_sqrt_exists(a);
    let s = choose|s: int| is_ceil_sqrt(a, s);
    if s <= MAX_ATLAS_DIM {
        assert(s * s <= MAX_ATLAS_DIM * MAX_ATLAS_DIM) by (nonlinear_arith)
            requires 0 <= s <= MAX_ATLAS_DIM;
    }
    lemma2_to64();
    assert(pow2(0) == 1);
    lemma_pow2_at_least_shape(spec_max(s, w), 0);
}

/// Where every rect of a lightmap atlas goes.
pub struct AtlasLayout {
    pub width: u32,
    pub height: u32,
    /// A single white pixel for faces with no bake.
    pub fullbright: LightmapRect,
    /// Every packed item, in packing order, with its interior rect.
    pub items: Vec<LightmapItem>,
    pub rects: Vec<LightmapRect>,
}

/// Whether `layout` is the atlas layout of `items`: the computed width, the
/// items in packing order, their shelf-packed rects after a 1 × 1 fullbright
/// block, and the packed height; every rect, border included, inside the
/// atlas and apart from every other.
pub open spec fn is_layout_of(items: Seq<LightmapItem>, layout: AtlasLayout) -> bool {
    let s0 = Shelf { width: layout.width, cursor_x: 0, shelf_y: 0, shelf_height: 0 };
    let s1 = spec_place_shelf(s0, 1, 1);
    &&& layout.width == layout_width(items)
    &&& layout.fullbright == spec_place_rect(s0, 1, 1)
    &&& layout.items@ == spec_sort(items)
    &&& sorted_by_key(layout.items@)
    &&& layout.items@.to_multiset() == items.to_multiset()
    &&& layout.rects@ == place_all(s1, layout.items@).1
    &&& layout.height == place_all(s1, layout.items@).0.shelf_y + place_all(s1, layout.items@).0.shelf_height
    &&& layout.height == packed_height(layout.width as int, layout.items@)
    &&& layout.height <= MAX_ATLAS_DIM
    &&& padded_right(layout.fullbright) <= layout.width && padded_bottom(layout.fullbright) <= layout.height
    &&& forall|i: int| 0 <= i < layout.rects@.len() ==> padded_disjoint(layout.fullbright, #[trigger] layout.rects@[i])
        && padded_left(layout.rects@[i]) >= 0 && padded_top(layout.rects@[i]) >= 0
        && padded_right(layout.rects@[i]) <= layout.width && padded_bottom(layout.rects@[i]) <= layout.height
    &&& forall|i: int, j: int| 0 <= i < j < layout.rects@.len() ==> padded_disjoint(
        #[trigger] layout.rects@[i],
        #[trigger] layout.rects@[j],
    )
}

/// Whether `e` is the refusal for `items`: the packed height, held at
/// `u32::MAX`, is over [`MAX_ATLAS_DIM`].
pub open spec fn is_too_large_for(items: Seq<LightmapItem>, e: BspError) -> bool {
    let h = packed_height(layout_width(items), spec_sort(items));
    e matches BspError::LightmapAtlasTooLarge { width, height, max } && width == layout_width(items) && max
        == MAX_ATLAS_DIM && height == if h <= u32::MAX {
        h
    } else {
        u32::MAX as int
    }
}

/// Lay out an atlas: pick a width, sort the items tallest first, and shelf-
/// pack a 1 × 1 fullbright block followed by every item. Fails exactly when
/// the packed height is over [`MAX_ATLAS_DIM`], reporting that height (held
/// at `u32::MAX` past the range of a `u32`).
///
/// Every rect, border included, lies inside the atlas and overlaps no other.
pub fn layout_atlas(items: Vec<LightmapItem>) -> (r: Result<AtlasLayout, BspError>)
    requires
        items_well_sized(items@),
    ensures
        (r is Ok) == (packed_height(layout_width(items@), spec_sort(items@)) <= MAX_ATLAS_DIM),
        match r {
            Ok(layout) => is_layout_of(items@, layout),
            Err(e) => is_too_large_for(items@, e),
        },
{
    // Area (held once it passes the point where the width is capped anyway)
    // and widest item.
    let cap: u64 = 0x400_0001;
    let mut area: u64 = 9;
    let mut widest: u32 = 1;
    let mut i: usize = 0;
    while i < items.len()
        invariant
            i <= items@.len(),
            items_well_sized(items@),
            cap == MAX_ATLAS_DIM * MAX_ATLAS_DIM + 1,
            area as int == if padded_area_sum(items@.subrange(0, i as int)) + 9 < cap {
                padded_area_sum(items@.subrange(0, i as int)) + 9
            } else {
                cap as int
            },
            padded_area_sum(items@.subrange(0, i as int)) >= 0,
            widest as int == widest_item(items@.subrange(0, i as int)),
            1 <= widest <= 512,
        decreases items@.len() - i,
    {
        let it = items[i];
        let ghost pre = items@.subrange(0, i as int);
        assert(items@.subrange(0, i + 1).drop_last() =~= pre);
        assert((it.width + 2) * (it.height + 2) <= 514 * 514) by (nonlinear_arith)
            requires it.width <= 512, it.height <= 512;
        assert((it.width + 2) * (it.height + 2) >= 0) by (nonlinear_arith)
            requires it.width >= 0, it.height >= 0;
        let add = ((it.width + 2) as u64) * ((it.height + 2) as u64);
        area = if area >= cap - add { cap } else { area + add };
        if i == 0 {
            widest = it.width;
        } else if it.width > widest {
            widest = it.width;
        }
        i = i + 1;
    }
    assert(items@.subrange(0, items@.len() as int) =~= items@);
    let width = choose_width(area, widest + 2 * BORDER);
    proof {
        if area == cap {
            lemma_width_caps(area as int, widest + 2);
            lemma_width_caps(padded_area_sum(items@) + 9, widest + 2);
        }
        assert(width == layout_width(items@));
    }
    let sorted = sort_items(items);
    proof {
        lemma_pow2_at_least_ge(spec_max(choose|s: int| is_ceil_sqrt(area as int, s), widest + 2), 1);
        lemma_widest_item_bounds(items@);
        assert forall|k: int| 0 <= k < sorted@.len() implies 1 <= #[trigger] sorted@[k].width <= 512 && 1
            <= sorted@[k].height <= 512 && sorted@[k].width + 2 <= width by {
            vstd::seq_lib::to_multiset_contains(sorted@, sorted@[k]);
            vstd::seq_lib::to_multiset_contains(items@, sorted@[k]);
            let j = choose|j: int| 0 <= j < items@.len() && items@[j] == sorted@[k];
            assert(items@[j].width <= widest_item(items@));
        }
        vstd::seq_lib::to_multiset_len(sorted@);
        vstd::seq_lib::to_multiset_len(items@);
    }
    // First the height alone, in integers wide enough for any item count.
    let mut cx: u128 = 3;
    let mut y: u128 = 0;
    let mut h: u128 = 3;
    let mut k: usize = 0;
    while k < sorted.len()
        invariant
            k <= sorted@.len(),
            items_well_sized(sorted@),
            64 <= width <= MAX_ATLAS_DIM,
            forall|m: int| 0 <= m < sorted@.len() ==> #[trigger] sorted@[m].width + 2 <= width,
            (cx as int, y as int, h as int) == ipack(width as int, sorted@.subrange(0, k as int)),
            y + h <= 3 + 514 * k,
            cx <= width,
        decreases sorted@.len() - k,
    {
        let it = sorted[k];
        proof {
            let pre = sorted@.subrange(0, k + 1);
            assert(pre.drop_last() =~= sorted@.subrange(0, k as int));
            assert(pre.last() == it);
        }
        let pw = (it.width + 2) as u128;
        let ph = (it.height + 2) as u128;
        if cx + pw > width as u128 && cx > 0 {
            y = y + h;
            h = ph;
            cx = pw;
        } else {
            cx = cx + pw;
            if ph > h {
                h = ph;
            }
        }
        k = k + 1;
    }
    assert(sorted@.subrange(0, sorted@.len() as int) =~= sorted@);
    let total = y + h;
    if total > MAX_ATLAS_DIM as u128 {
        let height: u32 = if total > u32::MAX as u128 { u32::MAX } else { total as u32 };
        return Err(BspError::LightmapAtlasTooLarge { width, height, max: MAX_ATLAS_DIM });
    }
    let ghost s0 = Shelf { width, cursor_x: 0, shelf_y: 0, shelf_height: 0 };
    let mut shelf = Shelf::new(width);
    let fullbright = shelf.place(1, 1);
    let ghost s1 = shelf;
    let mut rects: Vec<LightmapRect> = Vec::new();
    let mut k: usize = 0;
    while k < sorted.len()
        invariant
            k <= sorted@.len(),
            items_well_sized(sorted@),
            64 <= width <= MAX_ATLAS_DIM,
            widest_item(items@) + 2 <= width,
            forall|m: int| 0 <= m < sorted@.len() ==> #[trigger] sorted@[m].width + 2 <= width,
            packed_height(width as int, sorted@) <= MAX_ATLAS_DIM,
            (shelf, rects@) == place_all(s1, sorted@.subrange(0, k as int)),
            (shelf.cursor_x as int, shelf.shelf_y as int, shelf.shelf_height as int) == ipack(
                width as int,
                sorted@.subrange(0, k as int),
            ),
            shelf.width == width,
            shelf.cursor_x <= width,
            is_behind(shelf, fullbright),
            padded_left(fullbright) >= 0 && padded_top(fullbright) >= 0 && padded_right(fullbright) <= width,
            forall|m: int| 0 <= m < rects@.len() ==> is_behind(shelf, #[trigger] rects@[m]) && padded_disjoint(
                fullbright,
                rects@[m],
            ) && padded_left(rects@[m]) >= 0 && padded_top(rects@[m]) >= 0 && padded_right(rects@[m]) <= width,
            forall|a: int, b: int| 0 <= a < b < rects@.len() ==> padded_disjoint(
                #[trigger] rects@[a],
                #[trigger] rects@[b],
            ),
        decreases sorted@.len() - k,
    {
        let it = sorted[k];
        let ghost old_shelf = shelf;
        let ghost old_rects = rects@;
        proof {
            lemma_packed_height_grows(width as int, sorted@, k as int);
            let pre = sorted@.subrange(0, k + 1);
            assert(pre.drop_last() =~= sorted@.subrange(0, k as int));
            assert(pre.last() == it);
            lemma_packed_height_grows(width as int, sorted@, k + 1);
            lemma_place_disjoint(old_shelf, it.width, it.height, fullbright);
            lemma_place_within_width(old_shelf, it.width, it.height);
            assert forall|m: int| 0 <= m < old_rects.len() implies padded_disjoint(
                old_rects[m],
                spec_place_rect(old_shelf, it.width, it.height),
            ) && is_behind(spec_place_shelf(old_shelf, it.width, it.height), #[trigger] old_rects[m]) by {
                lemma_place_disjoint(old_shelf, it.width, it.height, old_rects[m]);
            }
            lemma_place_disjoint(old_shelf, it.width, it.height, fullbright);
        }
        let rect = shelf.place(it.width, it.height);
        rects.push(rect);
        proof {
            assert(sorted@.subrange(0, k + 1).drop_last() =~= sorted@.subrange(0, k as int));
            assert(rects@ == old_rects.push(rect));
            assert forall|a: int, b: int| 0 <= a < b < rects@.len() implies padded_disjoint(
                #[trigger] rects@[a],
                #[trigger] rects@[b],
            ) by {
                if b == old_rects.len() {
                    assert(rects@[a] == old_rects[a]);
                } else {
                    assert(rects@[a] == old_rects[a]);
                    assert(rects@[b] == old_rects[b]);
                }
            }
            assert forall|m: int| 0 <= m < rects@.len() implies is_behind(shelf, #[trigger] rects@[m]) && padded_disjoint(
                fullbright,
                rects@[m],
            ) && padded_left(rects@[m]) >= 0 && padded_top(rects@[m]) >= 0 && padded_right(rects@[m]) <= width by {
                if m < old_rects.len() {
                    assert(rects@[m] == old_rects[m]);
                }
            }
        }
        k = k + 1;
    }
    assert(sorted@.subrange(0, sorted@.len() as int) =~= sorted@);
    let height = shelf.height();
    Ok(AtlasLayout { width, height, fullbright, items: sorted, rects })
}


/// The lighting lump an atlas reads: the HDR bake when asked for and not
/// empty, the LDR one otherwise.
pub open spec fn lighting_lump(bytes: Seq<u8>, lighting: Lighting) -> LumpId {
    if lighting is Hdr && records_readable::<ColorRgbExp32>(bytes, LumpId::LightingHdr) && lump_records::<
        ColorRgbExp32,
    >(bytes, LumpId::LightingHdr).len() > 0 {
        LumpId::LightingHdr
    } else {
        LumpId::Lighting
    }
}

/// Whether every lump an atlas build reads decodes: faces, texinfos, the
/// HDR lighting when asked for, and the lighting lump finally used.
pub open spec fn atlas_lumps_readable(bytes: Seq<u8>, lighting: Lighting) -> bool {
    &&& records_readable::<DFace>(bytes, LumpId::Faces)
    &&& records_readable::<TexInfo>(bytes, LumpId::TexInfo)
    &&& lighting is Hdr ==> records_readable::<ColorRgbExp32>(bytes, LumpId::LightingHdr)
    &&& records_readable::<ColorRgbExp32>(bytes, lighting_lump(bytes, lighting))
}

/// Whether `e` is the lump error an atlas build gives: that of the first
/// lump, in the order FACES, TEXINFO, the HDR lighting when asked for, and
/// the lighting lump finally used, that does not decode.
pub open spec fn atlas_lump_error(bytes: Seq<u8>, lighting: Lighting, e: BspError) -> bool {
    if !records_readable::<DFace>(bytes, LumpId::Faces) {
        records_error::<DFace>(bytes, LumpId::Faces, e)
    } else if !records_readable::<TexInfo>(bytes, LumpId::TexInfo) {
        records_error::<TexInfo>(bytes, LumpId::TexInfo, e)
    } else if lighting is Hdr && !records_readable::<ColorRgbExp32>(bytes, LumpId::LightingHdr) {
        records_error::<ColorRgbExp32>(bytes, LumpId::LightingHdr, e)
    } else {
        records_error::<ColorRgbExp32>(bytes, lighting_lump(bytes, lighting), e)
    }
}

/// The items an atlas build packs for the faces named in `idx`.
pub open spec fn atlas_selection(bytes: Seq<u8>, lighting: Lighting, idx: Seq<u32>) -> (Seq<LightmapItem>, nat, nat) {
    spec_select(
        lump_records::<DFace>(bytes, LumpId::Faces),
        lump_records::<TexInfo>(bytes, LumpId::TexInfo),
        lump_records::<ColorRgbExp32>(bytes, lighting_lump(bytes, lighting)).len() as int,
        idx,
    )
}

/// Luxels in `items`: the sum of their grid sizes.
pub open spec fn luxel_sum(items: Seq<LightmapItem>) -> int
    decreases items.len(),
{
    if items.len() == 0 {
        0
    } else {
        luxel_sum(items.drop_last()) + items.last().width * items.last().height
    }
}

/// `v`, held at `usize::MAX`.
pub open spec fn held(v: int) -> usize {
    if v <= usize::MAX {
        v as usize
    } else {
        usize::MAX
    }
}

/// Counters for an atlas build.
#[derive(Clone, Copy, Debug, PartialEq, Eq)]
pub struct AtlasStats {
    /// Faces given their own rect.
    pub faces_packed: usize,
    /// Faces the compiler never lit, pointed at the fullbright block.
    pub faces_unlit: usize,
    /// Faces whose sample range fell outside the lighting lump, or whose luxel
    /// grid was implausibly large.
    pub faces_bad_range: usize,
    /// Luxels copied out of the lighting lump.
    pub luxels: usize,
    /// Pixels occupied by rects and their borders.
    pub used_pixels: usize,
    /// Which lump the samples came from, after the HDR fallback.
    pub source: Lighting,
}

/// Everything an atlas build decides before any pixel is written.
pub struct AtlasPlan {
    pub layout: AtlasLayout,
    /// The samples of the lighting lump used.
    pub samples: Vec<ColorRgbExp32>,
    pub stats: AtlasStats,
}

/// Plan the lightmap atlas of the faces named in `face_indices`: read the
/// lighting (HDR falls back to LDR when the map has no HDR bake), pick the
/// faces that have a bake, and lay the atlas out. Fails on a lump that does
/// not decode, in the order faces, texinfos, lighting, and when the atlas
/// would be taller than [`MAX_ATLAS_DIM`].
pub fn plan_atlas(bsp: &Bsp, face_indices: &Vec<u32>, lighting: Lighting) -> (r: Result<AtlasPlan, BspError>)
    requires
        bsp.wf(),
        records_readable::<DFace>(bsp.bytes(), LumpId::Faces) ==> face_sizes_fit(
            lump_records::<DFace>(bsp.bytes(), LumpId::Faces),
        ),
    ensures
        ({
            let b = bsp.bytes();
            let (items, unlit, bad) = atlas_selection(b, lighting, face_indices@);
            &&& (r is Ok) == (atlas_lumps_readable(b, lighting) && packed_height(layout_width(items), spec_sort(items))
                <= MAX_ATLAS_DIM)
            &&& r matches Err(e) ==> if atlas_lumps_readable(b, lighting) {
                is_too_large_for(items, e)
            } else {
                is_lump_error(e) && atlas_lump_error(b, lighting, e)
            }
            &&& r matches Ok(p) ==> {
                &&& p.samples@ == lump_records::<ColorRgbExp32>(b, lighting_lump(b, lighting))
                &&& is_layout_of(items, p.layout)
                &&& p.stats == AtlasStats {
                    faces_packed: items.len() as usize,
                    faces_unlit: unlit as usize,
                    faces_bad_range: bad as usize,
                    luxels: held(luxel_sum(items)),
                    used_pixels: held(9 + padded_area_sum(items)),
                    source: if lighting_lump(b, lighting) == LumpId::LightingHdr {
                        Lighting::Hdr
                    } else {
                        Lighting::Ldr
                    },
                }
            }
        }),
{
    let faces = bsp.faces()?;
    let texinfos = bsp.texinfos()?;
    let (samples, source) = match lighting {
        Lighting::Hdr => {
            let hdr = bsp.lighting_hdr()?;
            if hdr.len() > 0 {
                (hdr, Lighting::Hdr)
            } else {
                (bsp.lighting()?, Lighting::Ldr)
            }
        },
        Lighting::Ldr => (bsp.lighting()?, Lighting::Ldr),
    };
    let selection = select_faces(&faces, &texinfos, samples.len(), face_indices);
    let ghost items = selection.items@;
    proof {
        lemma_select_well_sized(faces@, texinfos@, samples@.len() as int, face_indices@);
    }
    let mut luxels: usize = 0;
    let mut used: usize = 9;
    let mut i: usize = 0;
    while i < selection.items.len()
        invariant
            items == selection.items@,
            items_well_sized(items),
            i <= items.len(),
            luxels == held(luxel_sum(items.subrange(0, i as int))),
            used == held(9 + padded_area_sum(items.subrange(0, i as int))),
            luxel_sum(items.subrange(0, i as int)) >= 0,
            padded_area_sum(items.subrange(0, i as int)) >= 0,
        decreases items.len() - i,
    {
        let it = selection.items[i];
        proof {
            assert(items.subrange(0, i + 1).drop_last() =~= items.subrange(0, i as int));
            assert(items.subrange(0, i + 1).last() == it);
        }
        let w: u64 = it.width as u64;
        let h: u64 = it.height as u64;
        assert(w * h <= 512 * 512 && (w + 2) * (h + 2) <= 514 * 514) by (nonlinear_arith)
            requires
                1 <= w <= 512,
                1 <= h <= 512,
        ;
        let lx = w * h;
        let px = (w + 2) * (h + 2);
        luxels = if lx as u128 + luxels as u128 > usize::MAX as u128 { usize::MAX } else { luxels + lx as usize };
        used = if px as u128 + used as u128 > usize::MAX as u128 { usize::MAX } else { used + px as usize };
        i = i + 1;
    }
    assert(items.subrange(0, items.len() as int) =~= items);
    let unlit = selection.faces_unlit;
    let bad = selection.faces_bad_range;
    let packed = selection.items.len();
    proof {
        lemma_select_well_sized(faces@, texinfos@, samples@.len() as int, face_indices@);
    }
    let layout = layout_atlas(selection.items)?;
    Ok(AtlasPlan {
        layout,
        samples,
        stats: AtlasStats { faces_packed: packed, faces_unlit: unlit, faces_bad_range: bad, luxels, used_pixels: used, source },
    })
}

/// Every item a selection packs has a real grid of at most
/// [`MAX_FACE_DIM`] a side.
proof fn lemma_select_well_sized(faces: Seq<DFace>, texinfos: Seq<TexInfo>, samples_len: int, idx: Seq<u32>)
    ensures
        items_well_sized(spec_select(faces, texinfos, samples_len, idx).0),
    decreases idx.len(),
{
    if idx.len() > 0 {
        let prev = idx.drop_last();
        lemma_select_well_sized(faces, texinfos, samples_len, prev);
        let items = spec_select(faces, texinfos, samples_len, prev).0;
        if !prev.contains(idx.last()) {
            if let FaceLighting::Packed(item) = spec_face_lighting(faces, texinfos, samples_len, idx.last()) {
                assert(1 <= item.width <= 512 && 1 <= item.height <= 512);
                assert forall|i: int| 0 <= i < items.push(item).len() implies 1 <= #[trigger] items.push(item)[i].width
                    <= 512 && 1 <= items.push(item)[i].height <= 512 by {
                    if i < items.len() {
                        assert(items.push(item)[i] == items[i]);
                    }
                }
            }
        }
    }
}

/// Every distinct face named is counted exactly once: packed, unlit or out
/// of range, however often its index repeats.
pub proof fn lemma_select_counts_distinct(faces: Seq<DFace>, texinfos: Seq<TexInfo>, samples_len: int, idx: Seq<u32>)
    ensures
        ({
            let (items, unlit, bad) = spec_select(faces, texinfos, samples_len, idx);
            items.len() + unlit + bad == idx.to_set().len()
        }),
    decreases idx.len(),
{
    broadcast use vstd::set::group_set_axioms;

    if idx.len() == 0 {
        assert(idx.to_set() =~= Set::<u32>::empty());
    } else {
        let prev = idx.drop_last();
        lemma_select_counts_distinct(faces, texinfos, samples_len, prev);
        assert(idx =~= prev.push(idx.last()));
        prev.lemma_push_to_set_commute(idx.last());
        vstd::seq_lib::seq_to_set_is_finite(prev);
        assert(prev.to_set().contains(idx.last()) == prev.contains(idx.last()));
    }
}

/// A packed face's samples are where its `lightofs` says: `lightofs` counts
/// bytes and a sample takes 4, so the item starts at sample `lightofs / 4`,
/// its grid is the face's luxel extent plus one on each side, and all
/// `width * height` of its samples lie inside the lighting lump.
pub proof fn lemma_packed_face_samples(faces: Seq<DFace>, texinfos: Seq<TexInfo>, samples_len: int, face_index: u32)
    requires
        spec_face_lighting(faces, texinfos, samples_len, face_index) is Packed,
    ensures
        ({
            let item = spec_face_lighting(faces, texinfos, samples_len, face_index)->Packed_0;
            let f = faces[face_index as int];
            &&& face_index < faces.len()
            &&& item.face == face_index
            &&& item.start * 4 == f.lightofs
            &&& item.width == f.lightmap_texture_size_in_luxels[0] + 1
            &&& item.height == f.lightmap_texture_size_in_luxels[1] + 1
            &&& 1 <= item.width <= 512 && 1 <= item.height <= 512
            &&& item.start + item.width * item.height <= samples_len
        }),
{
}

/// Every item a selection packs names a face of the map, starts at sample
/// `lightofs / 4` of that face, and has all its samples inside the lighting
/// lump.
pub proof fn lemma_selected_items_samples(faces: Seq<DFace>, texinfos: Seq<TexInfo>, samples_len: int, idx: Seq<u32>)
    ensures
        forall|k: int|
            0 <= k < spec_select(faces, texinfos, samples_len, idx).0.len() ==> {
                let item = #[trigger] spec_select(faces, texinfos, samples_len, idx).0[k];
                &&& item.face < faces.len()
                &&& item.start * 4 == faces[item.face as int].lightofs
                &&& item.width == faces[item.face as int].lightmap_texture_size_in_luxels[0] + 1
                &&& item.height == faces[item.face as int].lightmap_texture_size_in_luxels[1] + 1
                &&& item.start + item.width * item.height <= samples_len
            },
    decreases idx.len(),
{
    if idx.len() > 0 {
        let prev = idx.drop_last();
        lemma_selected_items_samples(faces, texinfos, samples_len, prev);
        let items = spec_select(faces, texinfos, samples_len, prev).0;
        if !prev.contains(idx.last()) {
            if spec_face_lighting(faces, texinfos, samples_len, idx.last()) is Packed {
                lemma_packed_face_samples(faces, texinfos, samples_len, idx.last());
                let item = spec_face_lighting(faces, texinfos, samples_len, idx.last())->Packed_0;
                assert forall|k: int| 0 <= k < items.push(item).len() implies {
                    let it = #[trigger] items.push(item)[k];
                    &&& it.face < faces.len()
                    &&& it.start * 4 == faces[it.face as int].lightofs
                    &&& it.width == faces[it.face as int].lightmap_texture_size_in_luxels[0] + 1
                    &&& it.height == faces[it.face as int].lightmap_texture_size_in_luxels[1] + 1
                    &&& it.start + it.width * it.height <= samples_len
                } by {
                    if k < items.len() {
                        assert(items.push(item)[k] == items[k]);
                    }
                }
            }
        }
    }
}

/// A face with a usable bake is packed: it exists, its texinfo exists and is
/// not `TEX_SPECIAL`, its first style is not 255, its byte offset is a
/// non-negative multiple of 4, its grid is 1 to 512 luxels a side, and its
/// samples fit in the lighting lump.
pub proof fn lemma_usable_face_is_packed(faces: Seq<DFace>, texinfos: Seq<TexInfo>, samples_len: int, face_index: u32)
    requires
        face_index < faces.len(),
        ({
            let f = faces[face_index as int];
            let w = f.lightmap_texture_size_in_luxels[0] + 1;
            let h = f.lightmap_texture_size_in_luxels[1] + 1;
            &&& 0 <= f.texinfo < texinfos.len()
            &&& texinfos[f.texinfo as int].flags & TEX_SPECIAL == 0
            &&& f.styles[0] != 255
            &&& f.lightofs >= 0 && f.lightofs % 4 == 0
            &&& 1 <= w <= 512 && 1 <= h <= 512
            &&& f.lightofs / 4 + w * h <= samples_len
        }),
    ensures
        spec_face_lighting(faces, texinfos, samples_len, face_index) is Packed,
{
}

/// A face is counted unlit exactly when it exists and its texinfo is missing
/// or `TEX_SPECIAL`, its first style is 255, or its byte offset is negative.
pub proof fn lemma_unlit_faces(faces: Seq<DFace>, texinfos: Seq<TexInfo>, samples_len: int, face_index: u32)
    ensures
        (spec_face_lighting(faces, texinfos, samples_len, face_index) is Unlit) == (face_index < faces.len() && ({
            let f = faces[face_index as int];
            ||| f.texinfo < 0
            ||| f.texinfo >= texinfos.len()
            ||| texinfos[f.texinfo as int].flags & TEX_SPECIAL != 0
            ||| f.styles[0] == 255
            ||| f.lightofs < 0
        })),
{
}

} // verus!
