//! The lump directory slots as the VBSP reader names them.

use vstd::prelude::*;

verus! {

/// One slot of the lump directory. The variant order is the file order.
#[derive(Clone, Copy, Debug, PartialEq, Eq, Hash)]
pub enum LumpType {
    Entities,
    Planes,
    TextureData,
    Vertices,
    Visibility,
    Nodes,
    TextureInfo,
    Faces,
    Lighting,
    Occlusion,
    Leaves,
    FaceIds,
    Edges,
    SurfaceEdges,
    Models,
    WorldLights,
    LeafFaces,
    LeafBrushes,
    Brushes,
    BrushSides,
    Areas,
    AreaPortals,
    Unused0,
    Unused1,
    Unused2,
    Unused3,
    DisplacementInfo,
    OriginalFaces,
    PhysDisplacement,
    PhysCollide,
    VertNormals,
    VertNormalIndices,
    DisplacementLightMapAlphas,
    DisplacementVertices,
    DisplacementLightMapSamplePositions,
    GameLump,
    LeafWaterData,
    Primitives,
    PrimVertices,
    PrimIndices,
    PakFile,
    ClipPortalVertices,
    CubeMaps,
    TextureDataStringData,
    TextureDataStringTable,
    Overlays,
    LeafMinimumDistanceToWater,
    FaceMacroTextureInfo,
    DisplacementTris,
    PhysicsCollideSurface,
    WaterOverlays,
    LeafAmbientIndexHdr,
    LeafAmbientIndex,
    LightingHdr,
    WorldLightsHdr,
    LeafAmbientLightingHdr,
    LeafAmbientLighting,
    XZipPakFile,
    FacesHdr,
    MapFlags,
    OverlayFades,
    OverlaySystemLevels,
    PhysLevel,
    DisplacementMultiBlend,
}

/// A lump number that names no slot.
#[derive(Debug, Copy, Clone, PartialEq, Eq)]
pub struct LumpTypeOutOfBounds(pub u32);

impl LumpType {
    /// Position of this lump's entry in the directory.
    pub open spec fn spec_index(self) -> int {
        match self {
            LumpType::Entities => 0,
            LumpType::Planes => 1,
            LumpType::TextureData => 2,
            LumpType::Vertices => 3,
            LumpType::Visibility => 4,
            LumpType::Nodes => 5,
            LumpType::TextureInfo => 6,
            LumpType::Faces => 7,
            LumpType::Lighting => 8,
            LumpType::Occlusion => 9,
            LumpType::Leaves => 10,
            LumpType::FaceIds => 11,
            LumpType::Edges => 12,
            LumpType::SurfaceEdges => 13,
            LumpType::Models => 14,
            LumpType::WorldLights => 15,
            LumpType::LeafFaces => 16,
            LumpType::LeafBrushes => 17,
            LumpType::Brushes => 18,
            LumpType::BrushSides => 19,
            LumpType::Areas => 20,
            LumpType::AreaPortals => 21,
            LumpType::Unused0 => 22,
            LumpType::Unused1 => 23,
            LumpType::Unused2 => 24,
            LumpType::Unused3 => 25,
            LumpType::DisplacementInfo => 26,
            LumpType::OriginalFaces => 27,
            LumpType::PhysDisplacement => 28,
            LumpType::PhysCollide => 29,
            LumpType::VertNormals => 30,
            LumpType::VertNormalIndices => 31,
            LumpType::DisplacementLightMapAlphas => 32,
            LumpType::DisplacementVertices => 33,
            LumpType::DisplacementLightMapSamplePositions => 34,
            LumpType::GameLump => 35,
            LumpType::LeafWaterData => 36,
            LumpType::Primitives => 37,
            LumpType::PrimVertices => 38,
            LumpType::PrimIndices => 39,
            LumpType::PakFile => 40,
            LumpType::ClipPortalVertices => 41,
            LumpType::CubeMaps => 42,
            LumpType::TextureDataStringData => 43,
            LumpType::TextureDataStringTable => 44,
            LumpType::Overlays => 45,
            LumpType::LeafMinimumDistanceToWater => 46,
            LumpType::FaceMacroTextureInfo => 47,
            LumpType::DisplacementTris => 48,
            LumpType::PhysicsCollideSurface => 49,
            LumpType::WaterOverlays => 50,
            LumpType::LeafAmbientIndexHdr => 51,
            LumpType::LeafAmbientIndex => 52,
            LumpType::LightingHdr => 53,
            LumpType::WorldLightsHdr => 54,
            LumpType::LeafAmbientLightingHdr => 55,
            LumpType::LeafAmbientLighting => 56,
            LumpType::XZipPakFile => 57,
            LumpType::FacesHdr => 58,
            LumpType::MapFlags => 59,
            LumpType::OverlayFades => 60,
            LumpType::OverlaySystemLevels => 61,
            LumpType::PhysLevel => 62,
            LumpType::DisplacementMultiBlend => 63,
        }
    }

    /// Position of this lump's entry in the directory.
    pub fn index(self) -> (r: usize)
        ensures
            r == self.spec_index(),
            r < 64,
    {
        match self {
            LumpType::Entities => 0,
            LumpType::Planes => 1,
            LumpType::TextureData => 2,
            LumpType::Vertices => 3,
            LumpType::Visibility => 4,
            LumpType::Nodes => 5,
            LumpType::TextureInfo => 6,
            LumpType::Faces => 7,
            LumpType::Lighting => 8,
            LumpType::Occlusion => 9,
            LumpType::Leaves => 10,
            LumpType::FaceIds => 11,
            LumpType::Edges => 12,
            LumpType::SurfaceEdges => 13,
            LumpType::Models => 14,
            LumpType::WorldLights => 15,
            LumpType::LeafFaces => 16,
            LumpType::LeafBrushes => 17,
            LumpType::Brushes => 18,
            LumpType::BrushSides => 19,
            LumpType::Areas => 20,
            LumpType::AreaPortals => 21,
            LumpType::Unused0 => 22,
            LumpType::Unused1 => 23,
            LumpType::Unused2 => 24,
            LumpType::Unused3 => 25,
            LumpType::DisplacementInfo => 26,
            LumpType::OriginalFaces => 27,
            LumpType::PhysDisplacement => 28,
            LumpType::PhysCollide => 29,
            LumpType::VertNormals => 30,
            LumpType::VertNormalIndices => 31,
            LumpType::DisplacementLightMapAlphas => 32,
            LumpType::DisplacementVertices => 33,
            LumpType::DisplacementLightMapSamplePositions => 34,
            LumpType::GameLump => 35,
            LumpType::LeafWaterData => 36,
            LumpType::Primitives => 37,
            LumpType::PrimVertices => 38,
            LumpType::PrimIndices => 39,
            LumpType::PakFile => 40,
            LumpType::ClipPortalVertices => 41,
            LumpType::CubeMaps => 42,
            LumpType::TextureDataStringData => 43,
            LumpType::TextureDataStringTable => 44,
            LumpType::Overlays => 45,
            LumpType::LeafMinimumDistanceToWater => 46,
            LumpType::FaceMacroTextureInfo => 47,
            LumpType::DisplacementTris => 48,
            LumpType::PhysicsCollideSurface => 49,
            LumpType::WaterOverlays => 50,
            LumpType::LeafAmbientIndexHdr => 51,
            LumpType::LeafAmbientIndex => 52,
            LumpType::LightingHdr => 53,
            LumpType::WorldLightsHdr => 54,
            LumpType::LeafAmbientLightingHdr => 55,
            LumpType::LeafAmbientLighting => 56,
            LumpType::XZipPakFile => 57,
            LumpType::FacesHdr => 58,
            LumpType::MapFlags => 59,
            LumpType::OverlayFades => 60,
            LumpType::OverlaySystemLevels => 61,
            LumpType::PhysLevel => 62,
            LumpType::DisplacementMultiBlend => 63,
        }
    }

    /// The lump at directory position `value`.
    pub open spec fn spec_try_from(value: u32) -> Result<LumpType, LumpTypeOutOfBounds> {
        
        if value == 0 {
            Ok(LumpType::Entities)
        } else if value == 1 {
            Ok(LumpType::Planes)
        } else if value == 2 {
            Ok(LumpType::TextureData)
        } else if value == 3 {
            Ok(LumpType::Vertices)
        } else if value == 4 {
            Ok(LumpType::Visibility)
        } else if value == 5 {
            Ok(LumpType::Nodes)
        } else if value == 6 {
            Ok(LumpType::TextureInfo)
        } else if value == 7 {
            Ok(LumpType::Faces)
        } else if value == 8 {
            Ok(LumpType::Lighting)
        } else if value == 9 {
            Ok(LumpType::Occlusion)
        } else if value == 10 {
            Ok(LumpType::Leaves)
        } else if value == 11 {
            Ok(LumpType::FaceIds)
        } else if value == 12 {
            Ok(LumpType::Edges)
        } else if value == 13 {
            Ok(LumpType::SurfaceEdges)
        } else if value == 14 {
            Ok(LumpType::Models)
        } else if value == 15 {
            Ok(LumpType::WorldLights)
        } else if value == 16 {
            Ok(LumpType::LeafFaces)
        } else if value == 17 {
            Ok(LumpType::LeafBrushes)
        } else if value == 18 {
            Ok(LumpType::Brushes)
        } else if value == 19 {
            Ok(LumpType::BrushSides)
        } else if value == 20 {
            Ok(LumpType::Areas)
        } else if value == 21 {
            Ok(LumpType::AreaPortals)
        } else if value == 22 {
            Ok(LumpType::Unused0)
        } else if value == 23 {
            Ok(LumpType::Unused1)
        } else if value == 24 {
            Ok(LumpType::Unused2)
        } else if value == 25 {
            Ok(LumpType::Unused3)
        } else if value == 26 {
            Ok(LumpType::DisplacementInfo)
        } else if value == 27 {
            Ok(LumpType::OriginalFaces)
        } else if value == 28 {
            Ok(LumpType::PhysDisplacement)
        } else if value == 29 {
            Ok(LumpType::PhysCollide)
        } else if value == 30 {
            Ok(LumpType::VertNormals)
        } else if value == 31 {
            Ok(LumpType::VertNormalIndices)
        } else if value == 32 {
            Ok(LumpType::DisplacementLightMapAlphas)
        } else if value == 33 {
            Ok(LumpType::DisplacementVertices)
        } else if value == 34 {
            Ok(LumpType::DisplacementLightMapSamplePositions)
        } else if value == 35 {
            Ok(LumpType::GameLump)
        } else if value == 36 {
            Ok(LumpType::LeafWaterData)
        } else if value == 37 {
            Ok(LumpType::Primitives)
        } else if value == 38 {
            Ok(LumpType::PrimVertices)
        } else if value == 39 {
            Ok(LumpType::PrimIndices)
        } else if value == 40 {
            Ok(LumpType::PakFile)
        } else if value == 41 {
            Ok(LumpType::ClipPortalVertices)
        } else if value == 42 {
            Ok(LumpType::CubeMaps)
        } else if value == 43 {
            Ok(LumpType::TextureDataStringData)
        } else if value == 44 {
            Ok(LumpType::TextureDataStringTable)
        } else if value == 45 {
            Ok(LumpType::Overlays)
        } else if value == 46 {
            Ok(LumpType::LeafMinimumDistanceToWater)
        } else if value == 47 {
            Ok(LumpType::FaceMacroTextureInfo)
        } else if value == 48 {
            Ok(LumpType::DisplacementTris)
        } else if value == 49 {
            Ok(LumpType::PhysicsCollideSurface)
        } else if value == 50 {
            Ok(LumpType::WaterOverlays)
        } else if value == 51 {
            Ok(LumpType::LeafAmbientIndexHdr)
        } else if value == 52 {
            Ok(LumpType::LeafAmbientIndex)
        } else if value == 53 {
            Ok(LumpType::LightingHdr)
        } else if value == 54 {
            Ok(LumpType::WorldLightsHdr)
        } else if value == 55 {
            Ok(LumpType::LeafAmbientLightingHdr)
        } else if value == 56 {
            Ok(LumpType::LeafAmbientLighting)
        } else if value == 57 {
            Ok(LumpType::XZipPakFile)
        } else if value == 58 {
            Ok(LumpType::FacesHdr)
        } else if value == 59 {
            Ok(LumpType::MapFlags)
        } else if value == 60 {
            Ok(LumpType::OverlayFades)
        } else if value == 61 {
            Ok(LumpType::OverlaySystemLevels)
        } else if value == 62 {
            Ok(LumpType::PhysLevel)
        } else if value == 63 {
            Ok(LumpType::DisplacementMultiBlend)
        } else {
            Err(LumpTypeOutOfBounds(value))
        }
    }

    /// The lump at directory position `value`.
    pub fn try_from(value: u32) -> (r: Result<LumpType, LumpTypeOutOfBounds>)
        ensures
            r == Self::spec_try_from(value),
    {
        match value {
            0 => Ok(LumpType::Entities),
            1 => Ok(LumpType::Planes),
            2 => Ok(LumpType::TextureData),
            3 => Ok(LumpType::Vertices),
            4 => Ok(LumpType::Visibility),
            5 => Ok(LumpType::Nodes),
            6 => Ok(LumpType::TextureInfo),
            7 => Ok(LumpType::Faces),
            8 => Ok(LumpType::Lighting),
            9 => Ok(LumpType::Occlusion),
            10 => Ok(LumpType::Leaves),
            11 => Ok(LumpType::FaceIds),
            12 => Ok(LumpType::Edges),
            13 => Ok(LumpType::SurfaceEdges),
            14 => Ok(LumpType::Models),
            15 => Ok(LumpType::WorldLights),
            16 => Ok(LumpType::LeafFaces),
            17 => Ok(LumpType::LeafBrushes),
            18 => Ok(LumpType::Brushes),
            19 => Ok(LumpType::BrushSides),
            20 => Ok(LumpType::Areas),
            21 => Ok(LumpType::AreaPortals),
            22 => Ok(LumpType::Unused0),
            23 => Ok(LumpType::Unused1),
            24 => Ok(LumpType::Unused2),
            25 => Ok(LumpType::Unused3),
            26 => Ok(LumpType::DisplacementInfo),
            27 => Ok(LumpType::OriginalFaces),
            28 => Ok(LumpType::PhysDisplacement),
            29 => Ok(LumpType::PhysCollide),
            30 => Ok(LumpType::VertNormals),
            31 => Ok(LumpType::VertNormalIndices),
            32 => Ok(LumpType::DisplacementLightMapAlphas),
            33 => Ok(LumpType::DisplacementVertices),
            34 => Ok(LumpType::DisplacementLightMapSamplePositions),
            35 => Ok(LumpType::GameLump),
            36 => Ok(LumpType::LeafWaterData),
            37 => Ok(LumpType::Primitives),
            38 => Ok(LumpType::PrimVertices),
            39 => Ok(LumpType::PrimIndices),
            40 => Ok(LumpType::PakFile),
            41 => Ok(LumpType::ClipPortalVertices),
            42 => Ok(LumpType::CubeMaps),
            43 => Ok(LumpType::TextureDataStringData),
            44 => Ok(LumpType::TextureDataStringTable),
            45 => Ok(LumpType::Overlays),
            46 => Ok(LumpType::LeafMinimumDistanceToWater),
            47 => Ok(LumpType::FaceMacroTextureInfo),
            48 => Ok(LumpType::DisplacementTris),
            49 => Ok(LumpType::PhysicsCollideSurface),
            50 => Ok(LumpType::WaterOverlays),
            51 => Ok(LumpType::LeafAmbientIndexHdr),
            52 => Ok(LumpType::LeafAmbientIndex),
            53 => Ok(LumpType::LightingHdr),
            54 => Ok(LumpType::WorldLightsHdr),
            55 => Ok(LumpType::LeafAmbientLightingHdr),
            56 => Ok(LumpType::LeafAmbientLighting),
            57 => Ok(LumpType::XZipPakFile),
            58 => Ok(LumpType::FacesHdr),
            59 => Ok(LumpType::MapFlags),
            60 => Ok(LumpType::OverlayFades),
            61 => Ok(LumpType::OverlaySystemLevels),
            62 => Ok(LumpType::PhysLevel),
            63 => Ok(LumpType::DisplacementMultiBlend),
            _ => Err(LumpTypeOutOfBounds(value)),
        }
    }

    pub open spec fn spec_name(self) -> Seq<char> {
        match self {
            LumpType::Entities => "entities"@,
            LumpType::Planes => "planes"@,
            LumpType::TextureData => "texturedata"@,
            LumpType::Vertices => "vertices"@,
            LumpType::Visibility => "visibility"@,
            LumpType::Nodes => "nodes"@,
            LumpType::TextureInfo => "textureinfo"@,
            LumpType::Faces => "faces"@,
            LumpType::Lighting => "lighting"@,
            LumpType::Occlusion => "occlusion"@,
            LumpType::Leaves => "leaves"@,
            LumpType::FaceIds => "faceids"@,
            LumpType::Edges => "edges"@,
            LumpType::SurfaceEdges => "surfaceedges"@,
            LumpType::Models => "models"@,
            LumpType::WorldLights => "worldlights"@,
            LumpType::LeafFaces => "leaffaces"@,
            LumpType::LeafBrushes => "leafbrushes"@,
            LumpType::Brushes => "brushes"@,
            LumpType::BrushSides => "brushsides"@,
            LumpType::Areas => "areas"@,
            LumpType::AreaPortals => "areaportals"@,
            LumpType::Unused0 => "unused0"@,
            LumpType::Unused1 => "unused1"@,
            LumpType::Unused2 => "unused2"@,
            LumpType::Unused3 => "unused3"@,
            LumpType::DisplacementInfo => "displacementinfo"@,
            LumpType::OriginalFaces => "originalfaces"@,
            LumpType::PhysDisplacement => "physdisplacement"@,
            LumpType::PhysCollide => "physcollide"@,
            LumpType::VertNormals => "vertnormals"@,
            LumpType::VertNormalIndices => "vertnormalindices"@,
            LumpType::DisplacementLightMapAlphas => "displacementlightmapalphas"@,
            LumpType::DisplacementVertices => "displacementvertices"@,
            LumpType::DisplacementLightMapSamplePositions => "displacementlightmapsamplepositions"@,
            LumpType::GameLump => "gamelump"@,
            LumpType::LeafWaterData => "leafwaterdata"@,
            LumpType::Primitives => "primitives"@,
            LumpType::PrimVertices => "primvertices"@,
            LumpType::PrimIndices => "primindices"@,
            LumpType::PakFile => "pakfile"@,
            LumpType::ClipPortalVertices => "clipportalvertices"@,
            LumpType::CubeMaps => "cubemaps"@,
            LumpType::TextureDataStringData => "texturedatastringdata"@,
            LumpType::TextureDataStringTable => "texturedatastringtable"@,
            LumpType::Overlays => "overlays"@,
            LumpType::LeafMinimumDistanceToWater => "leafminimumdistancetowater"@,
            LumpType::FaceMacroTextureInfo => "facemacrotextureinfo"@,
            LumpType::DisplacementTris => "displacementtris"@,
            LumpType::PhysicsCollideSurface => "physicscollidesurface"@,
            LumpType::WaterOverlays => "wateroverlays"@,
            LumpType::LeafAmbientIndexHdr => "leafambientindexhdr"@,
            LumpType::LeafAmbientIndex => "leafambientindex"@,
            LumpType::LightingHdr => "lightinghdr"@,
            LumpType::WorldLightsHdr => "worldlightshdr"@,
            LumpType::LeafAmbientLightingHdr => "leafambientlightinghdr"@,
            LumpType::LeafAmbientLighting => "leafambientlighting"@,
            LumpType::XZipPakFile => "xzippakfile"@,
            LumpType::FacesHdr => "faceshdr"@,
            LumpType::MapFlags => "mapflags"@,
            LumpType::OverlayFades => "overlayfades"@,
            LumpType::OverlaySystemLevels => "overlaysystemlevels"@,
            LumpType::PhysLevel => "physlevel"@,
            LumpType::DisplacementMultiBlend => "displacementmultiblend"@,
        }
    }

    /// The lump's lower-case name.
    pub fn name(&self) -> (r: &'static str)
        ensures
            r@ == self.spec_name(),
    {
        match self {
            LumpType::Entities => "entities",
            LumpType::Planes => "planes",
            LumpType::TextureData => "texturedata",
            LumpType::Vertices => "vertices",
            LumpType::Visibility => "visibility",
            LumpType::Nodes => "nodes",
            LumpType::TextureInfo => "textureinfo",
            LumpType::Faces => "faces",
            LumpType::Lighting => "lighting",
            LumpType::Occlusion => "occlusion",
            LumpType::Leaves => "leaves",
            LumpType::FaceIds => "faceids",
            LumpType::Edges => "edges",
            LumpType::SurfaceEdges => "surfaceedges",
            LumpType::Models => "models",
            LumpType::WorldLights => "worldlights",
            LumpType::LeafFaces => "leaffaces",
            LumpType::LeafBrushes => "leafbrushes",
            LumpType::Brushes => "brushes",
            LumpType::BrushSides => "brushsides",
            LumpType::Areas => "areas",
            LumpType::AreaPortals => "areaportals",
            LumpType::Unused0 => "unused0",
            LumpType::Unused1 => "unused1",
            LumpType::Unused2 => "unused2",
            LumpType::Unused3 => "unused3",
            LumpType::DisplacementInfo => "displacementinfo",
            LumpType::OriginalFaces => "originalfaces",
            LumpType::PhysDisplacement => "physdisplacement",
            LumpType::PhysCollide => "physcollide",
            LumpType::VertNormals => "vertnormals",
            LumpType::VertNormalIndices => "vertnormalindices",
            LumpType::DisplacementLightMapAlphas => "displacementlightmapalphas",
            LumpType::DisplacementVertices => "displacementvertices",
            LumpType::DisplacementLightMapSamplePositions => "displacementlightmapsamplepositions",
            LumpType::GameLump => "gamelump",
            LumpType::LeafWaterData => "leafwaterdata",
            LumpType::Primitives => "primitives",
            LumpType::PrimVertices => "primvertices",
            LumpType::PrimIndices => "primindices",
            LumpType::PakFile => "pakfile",
            LumpType::ClipPortalVertices => "clipportalvertices",
            LumpType::CubeMaps => "cubemaps",
            LumpType::TextureDataStringData => "texturedatastringdata",
            LumpType::TextureDataStringTable => "texturedatastringtable",
            LumpType::Overlays => "overlays",
            LumpType::LeafMinimumDistanceToWater => "leafminimumdistancetowater",
            LumpType::FaceMacroTextureInfo => "facemacrotextureinfo",
            LumpType::DisplacementTris => "displacementtris",
            LumpType::PhysicsCollideSurface => "physicscollidesurface",
            LumpType::WaterOverlays => "wateroverlays",
            LumpType::LeafAmbientIndexHdr => "leafambientindexhdr",
            LumpType::LeafAmbientIndex => "leafambientindex",
            LumpType::LightingHdr => "lightinghdr",
            LumpType::WorldLightsHdr => "worldlightshdr",
            LumpType::LeafAmbientLightingHdr => "leafambientlightinghdr",
            LumpType::LeafAmbientLighting => "leafambientlighting",
            LumpType::XZipPakFile => "xzippakfile",
            LumpType::FacesHdr => "faceshdr",
            LumpType::MapFlags => "mapflags",
            LumpType::OverlayFades => "overlayfades",
            LumpType::OverlaySystemLevels => "overlaysystemlevels",
            LumpType::PhysLevel => "physlevel",
            LumpType::DisplacementMultiBlend => "displacementmultiblend",
        }
    }
}

/// Converting a lump number back and forth is lossless: every lump type is
/// found again from its number, and every number below 64 names a lump.
pub proof fn lemma_lump_type_roundtrip(t: LumpType, value: u32)
    ensures
        LumpType::spec_try_from(t.spec_index() as u32) == Ok::<LumpType, LumpTypeOutOfBounds>(t),
        value < 64 ==> (LumpType::spec_try_from(value) matches Ok(u) && u.spec_index() == value),
        value >= 64 ==> LumpType::spec_try_from(value) == Err::<LumpType, LumpTypeOutOfBounds>(LumpTypeOutOfBounds(value)),
{
}

/// The 64 names [`LumpType::name`] gives are distinct: two lump types with
/// the same name are the same lump type.
#[verifier::rlimit(100)]
pub proof fn lemma_name_injective(a: LumpType, b: LumpType)
    requires
        a.spec_name() == b.spec_name(),
    ensures
        a == b,
{
    reveal_strlit("entities");
    reveal_strlit("planes");
    reveal_strlit("texturedata");
    reveal_strlit("vertices");
    reveal_strlit("visibility");
    reveal_strlit("nodes");
    reveal_strlit("textureinfo");
    reveal_strlit("faces");
    reveal_strlit("lighting");
    reveal_strlit("occlusion");
    reveal_strlit("leaves");
    reveal_strlit("faceids");
    reveal_strlit("edges");
    reveal_strlit("surfaceedges");
    reveal_strlit("models");
    reveal_strlit("worldlights");
    reveal_strlit("leaffaces");
    reveal_strlit("leafbrushes");
    reveal_strlit("brushes");
    reveal_strlit("brushsides");
    reveal_strlit("areas");
    reveal_strlit("areaportals");
    reveal_strlit("unused0");
    reveal_strlit("unused1");
    reveal_strlit("unused2");
    reveal_strlit("unused3");
    reveal_strlit("displacementinfo");
    reveal_strlit("originalfaces");
    reveal_strlit("physdisplacement");
    reveal_strlit("physcollide");
    reveal_strlit("vertnormals");
    reveal_strlit("vertnormalindices");
    reveal_strlit("displacementlightmapalphas");
    reveal_strlit("displacementvertices");
    reveal_strlit("displacementlightmapsamplepositions");
    reveal_strlit("gamelump");
    reveal_strlit("leafwaterdata");
    reveal_strlit("primitives");
    reveal_strlit("primvertices");
    reveal_strlit("primindices");
    reveal_strlit("pakfile");
    reveal_strlit("clipportalvertices");
    reveal_strlit("cubemaps");
    reveal_strlit("texturedatastringdata");
    reveal_strlit("texturedatastringtable");
    reveal_strlit("overlays");
    reveal_strlit("leafminimumdistancetowater");
    reveal_strlit("facemacrotextureinfo");
    reveal_strlit("displacementtris");
    reveal_strlit("physicscollidesurface");
    reveal_strlit("wateroverlays");
    reveal_strlit("leafambientindexhdr");
    reveal_strlit("leafambientindex");
    reveal_strlit("lightinghdr");
    reveal_strlit("worldlightshdr");
    reveal_strlit("leafambientlightinghdr");
    reveal_strlit("leafambientlighting");
    reveal_strlit("xzippakfile");
    reveal_strlit("faceshdr");
    reveal_strlit("mapflags");
    reveal_strlit("overlayfades");
    reveal_strlit("overlaysystemlevels");
    reveal_strlit("physlevel");
    reveal_strlit("displacementmultiblend");
    let sa = a.spec_name();
    let sb = b.spec_name();
    assert(sa.len() == sb.len());
    assert(sa[0] == sb[0]);
    assert(sa[1] == sb[1]);
    assert(sa[2] == sb[2]);
    assert(sa[3] == sb[3]);
    assert(sa[4] == sb[4]);
    assert(sa[5] == sb[5]);
    assert(sa[6] == sb[6]);
    assert(sa[7] == sb[7]);
    assert(sa[8] == sb[8]);
    assert(sa[9] == sb[9]);
    assert(sa[10] == sb[10]);
    assert(sa[11] == sb[11]);
    assert(sa[12] == sb[12]);
    assert(sa[13] == sb[13]);
    assert(sa[14] == sb[14]);
    assert(sa[15] == sb[15]);
    assert(sa[16] == sb[16]);
    assert(sa[17] == sb[17]);
    assert(sa[18] == sb[18]);
    assert(sa[19] == sb[19]);
    assert(sa[20] == sb[20]);
    assert(sa[21] == sb[21]);
    assert(sa[22] == sb[22]);
    assert(sa[23] == sb[23]);
    assert(sa[24] == sb[24]);
    assert(sa[25] == sb[25]);
    assert(sa[26] == sb[26]);
    assert(sa[27] == sb[27]);
    assert(sa[28] == sb[28]);
    assert(sa[29] == sb[29]);
    assert(sa[30] == sb[30]);
    assert(sa[31] == sb[31]);
    assert(sa[32] == sb[32]);
    assert(sa[33] == sb[33]);
    assert(sa[34] == sb[34]);
    assert(sa[35] == sb[35]);
}

} // verus!
