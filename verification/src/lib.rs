//! Readers and verified building blocks for BSP map files: Valve's Source
//! `VBSP` format and the Quake-family formats (BSP29, BSP2, BSP30, BSP38).

pub mod displacement;
pub mod file;
pub mod flags;
pub mod geometry;
pub mod le;
pub mod lightmap;
pub mod lump;
pub mod lzma;
pub mod qbsp;
pub mod raw;
pub mod text;
pub mod vbsp;

pub use file::{Bsp, BspError, BSP_VERSION, MAX_BSP_VERSION, MIN_BSP_VERSION, VBSP_IDENT};
pub use lump::LumpId;

use vstd::prelude::*;

verus! {

} // verus!
