//! Lighting records of the `VBSP` reader: lightmap samples and ambient cubes.

use vstd::prelude::*;

use crate::le::{le_i8, le_u16, le_u8, read_i8, read_u16, read_u8};
use crate::raw::Record;
use vstd::arithmetic::power2::{lemma2_to64, lemma_pow2_strictly_increases, lemma_pow2_unfold, pow2};

verus! {

/// One lightmap sample: linear RGB bytes scaled by `2^exponent`.
#[derive(Debug, Default, Clone, Copy, PartialEq, Eq)]
pub struct ColorRGBExp32 {
    pub r: u8,
    pub g: u8,
    pub b: u8,
    pub exponent: i8,
}

impl Record for ColorRGBExp32 {
    open spec fn spec_size() -> nat {
        4
    }

    open spec fn spec_read(s: Seq<u8>, at: int) -> Self {
        ColorRGBExp32 { r: le_u8(s, at), g: le_u8(s, at + 1), b: le_u8(s, at + 2), exponent: le_i8(s, at + 3) }
    }

    fn size() -> (r: usize) {
        4
    }

    fn read(bytes: &[u8], at: usize) -> (r: Self) {
        let _len = bytes.len();
        ColorRGBExp32 {
            r: read_u8(bytes, at),
            g: read_u8(bytes, at + 1),
            b: read_u8(bytes, at + 2),
            exponent: read_i8(bytes, at + 3),
        }
    }
}

/// `2^k` for `k <= 30`.
fn pow2_u32(k: u32) -> (r: u32)
    requires
        k <= 30,
    ensures
        r == pow2(k as nat),
        r <= 0x4000_0000,
{
    let mut p: u32 = 1;
    let mut i: u32 = 0;
    proof {
        lemma2_to64();
    }
    while i < k
        invariant
            i <= k <= 30,
            p == pow2(i as nat),
            p <= 0x4000_0000,
            pow2(30) == 0x4000_0000,
        decreases k - i,
    {
        proof {
            lemma_pow2_unfold((i + 1) as nat);
            if i + 1 < 30 {
                lemma_pow2_strictly_increases((i + 1) as nat, 30);
            }
        }
        p = p * 2;
        i = i + 1;
    }
    p
}

/// The RGBM encoding of a sample, with the shared exponent moved into an
/// alpha multiplier of `2^(exponent + 8)`. A negative multiplier exponent
/// divides the colour instead, with alpha 1; one too small to divide by
/// (past `2^7`) gives black.
pub open spec fn spec_rgbm(c: ColorRGBExp32) -> [u8; 4] {
    let exp = c.exponent + 8;
    if exp < 0 {
        if -exp <= 7 {
            let scale = pow2((-exp) as nat);
            [(c.r as nat / scale) as u8, (c.g as nat / scale) as u8, (c.b as nat / scale) as u8, 1]
        } else {
            [0, 0, 0, 0]
        }
    } else {
        [c.r, c.g, c.b, if exp <= 7 { pow2(exp as nat) as u8 } else { 255 }]
    }
}

impl ColorRGBExp32 {
    /// The sample as RGBM bytes, see [`spec_rgbm`].
    pub fn to_rgbm32f(&self) -> (r: [u8; 4])
        requires
            -38 <= self.exponent <= 22,
        ensures
            r == spec_rgbm(*self),
    {
        proof {
            lemma2_to64();
        }
        let exp: i8 = self.exponent + 8;
        if exp < 0 {
            let scale = pow2_u32((-exp) as u32);
            if scale > 255 {
                proof {
                    if -exp <= 7 {
                        lemma_pow2_strictly_increases((-exp) as nat, 8);
                    }
                }
                return [0, 0, 0, 0];
            }
            proof {
                if -exp > 7 {
                    lemma_pow2_strictly_increases(8, (-exp) as nat);
                }
            }
            let s = scale as u8;
            [self.r / s, self.g / s, self.b / s, 1]
        } else {
            let p = pow2_u32(exp as u32);
            let scale: u8 = if p > 255 {
                255
            } else {
                p as u8
            };
            proof {
                if exp <= 7 {
                    if exp < 8 {
                        lemma_pow2_strictly_increases(exp as nat, 8);
                    }
                } else if exp > 8 {
                    lemma_pow2_strictly_increases(8, exp as nat);
                }
            }
            [self.r, self.g, self.b, scale]
        }
    }
}

/// Six samples, one per axis direction: an ambient light cube.
#[derive(Debug, Default, Clone, Copy, PartialEq, Eq)]
pub struct CompressedLightCube {
    pub color: [ColorRGBExp32; 6],
}

impl Record for CompressedLightCube {
    open spec fn spec_size() -> nat {
        24
    }

    open spec fn spec_read(s: Seq<u8>, at: int) -> Self {
        CompressedLightCube {
            color: [
                ColorRGBExp32::spec_read(s, at),
                ColorRGBExp32::spec_read(s, at + 4),
                ColorRGBExp32::spec_read(s, at + 8),
                ColorRGBExp32::spec_read(s, at + 12),
                ColorRGBExp32::spec_read(s, at + 16),
                ColorRGBExp32::spec_read(s, at + 20),
            ],
        }
    }

    fn size() -> (r: usize) {
        24
    }

    fn read(bytes: &[u8], at: usize) -> (r: Self) {
        let _len = bytes.len();
        CompressedLightCube {
            color: [
                ColorRGBExp32::read(bytes, at),
                ColorRGBExp32::read(bytes, at + 4),
                ColorRGBExp32::read(bytes, at + 8),
                ColorRGBExp32::read(bytes, at + 12),
                ColorRGBExp32::read(bytes, at + 16),
                ColorRGBExp32::read(bytes, at + 20),
            ],
        }
    }
}

/// A leaf's run of ambient samples in LEAF_AMBIENT_LIGHTING.
#[derive(Debug, Default, Clone, Copy, PartialEq, Eq)]
pub struct LeafAmbientIndex {
    pub count: u16,
    pub start: u16,
}

impl Record for LeafAmbientIndex {
    open spec fn spec_size() -> nat {
        4
    }

    open spec fn spec_read(s: Seq<u8>, at: int) -> Self {
        LeafAmbientIndex { count: le_u16(s, at), start: le_u16(s, at + 2) }
    }

    fn size() -> (r: usize) {
        4
    }

    fn read(bytes: &[u8], at: usize) -> (r: Self) {
        let _len = bytes.len();
        LeafAmbientIndex { count: read_u16(bytes, at), start: read_u16(bytes, at + 2) }
    }
}

} // verus!
