# bsp

Readers for game map files, verified with Verus:

- `VBSP`, the Source engine format (Team Fortress 2 and friends): the header
  and lump directory, LZMA-compressed lumps, the raw lump records, and the
  integer side of building meshes from them: which faces are built and how
  they group by material, displacement grids and their triangles, and the
  lightmap atlas layout.
- The Quake family (`BSP29`, `BSP2`, GoldSrc's `BSP30`, Quake 2's `BSP38` and
  Qbism): the format-dependent record parsers, the whole-file reader
  (`qbsp::data::BspData::parse`), BSPX extension lumps with their
  `RGBLIGHTING` colored lighting, embedded textures, lighting and `.lit`
  files, and run-length encoded visibility.

## Layout

- `src/` is the verified library. `file.rs`, `lump.rs`, `raw.rs` and `lzma.rs`
  read a `VBSP` file; `geometry.rs`, `displacement.rs` and `lightmap.rs` plan
  meshes and the atlas; `qbsp/` holds the Quake-family readers and `vbsp/` a
  second, lighter `VBSP` reader.
- `app/` is the unverified rest: opening files, and the floating-point work
  (positions, UVs, normals, luxel decoding) on top of the library's plans.
- `tests/` exercises the library from outside.

Record fields that hold `f32` values are kept as their bit patterns in the
library and decoded in `app/`.
