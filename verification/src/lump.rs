//! The 64 slots of the Source lump directory, in file order.

use vstd::prelude::*;

verus! {

/// One slot of the lump directory. The variant order is the file order.
#[derive(Clone, Copy, Debug, PartialEq, Eq)]
pub enum LumpId {
    Entities,
    Planes,
    TexData,
    Vertexes,
    Visibility,
    Nodes,
    TexInfo,
    Faces,
    Lighting,
    Occlusion,
    Leafs,
    FaceIds,
    Edges,
    SurfEdges,
    Models,
    WorldLights,
    LeafFaces,
    LeafBrushes,
    Brushes,
    BrushSides,
    Areas,
    AreaPortals,
    Portals,
    Clusters,
    PortalVerts,
    ClusterPortals,
    DispInfo,
    OriginalFaces,
    PhysDisp,
    PhysCollide,
    VertNormals,
    VertNormalIndices,
    DispLightmapAlphas,
    DispVerts,
    DispLightmapSamplePositions,
    GameLump,
    LeafWaterData,
    Primitives,
    PrimVerts,
    PrimIndices,
    PakFile,
    ClipPortalVerts,
    Cubemaps,
    TexDataStringData,
    TexDataStringTable,
    Overlays,
    LeafMinDistToWater,
    FaceMacroTextureInfo,
    DispTris,
    PhysCollideSurface,
    WaterOverlays,
    LeafAmbientIndexHdr,
    LeafAmbientIndex,
    LightingHdr,
    WorldLightsHdr,
    LeafAmbientLightingHdr,
    LeafAmbientLighting,
    XzipPakFile,
    FacesHdr,
    MapFlags,
    OverlayFades,
    OverlaySystemLevels,
    PhysLevel,
    DispMultiBlend,
}

impl LumpId {
    /// Every lump, in directory order.
    pub const ALL: [LumpId; 64] = [
        LumpId::Entities,
        LumpId::Planes,
        LumpId::TexData,
        LumpId::Vertexes,
        LumpId::Visibility,
        LumpId::Nodes,
        LumpId::TexInfo,
        LumpId::Faces,
        LumpId::Lighting,
        LumpId::Occlusion,
        LumpId::Leafs,
        LumpId::FaceIds,
        LumpId::Edges,
        LumpId::SurfEdges,
        LumpId::Models,
        LumpId::WorldLights,
        LumpId::LeafFaces,
        LumpId::LeafBrushes,
        LumpId::Brushes,
        LumpId::BrushSides,
        LumpId::Areas,
        LumpId::AreaPortals,
        LumpId::Portals,
        LumpId::Clusters,
        LumpId::PortalVerts,
        LumpId::ClusterPortals,
        LumpId::DispInfo,
        LumpId::OriginalFaces,
        LumpId::PhysDisp,
        LumpId::PhysCollide,
        LumpId::VertNormals,
        LumpId::VertNormalIndices,
        LumpId::DispLightmapAlphas,
        LumpId::DispVerts,
        LumpId::DispLightmapSamplePositions,
        LumpId::GameLump,
        LumpId::LeafWaterData,
        LumpId::Primitives,
        LumpId::PrimVerts,
        LumpId::PrimIndices,
        LumpId::PakFile,
        LumpId::ClipPortalVerts,
        LumpId::Cubemaps,
        LumpId::TexDataStringData,
        LumpId::TexDataStringTable,
        LumpId::Overlays,
        LumpId::LeafMinDistToWater,
        LumpId::FaceMacroTextureInfo,
        LumpId::DispTris,
        LumpId::PhysCollideSurface,
        LumpId::WaterOverlays,
        LumpId::LeafAmbientIndexHdr,
        LumpId::LeafAmbientIndex,
        LumpId::LightingHdr,
        LumpId::WorldLightsHdr,
        LumpId::LeafAmbientLightingHdr,
        LumpId::LeafAmbientLighting,
        LumpId::XzipPakFile,
        LumpId::FacesHdr,
        LumpId::MapFlags,
        LumpId::OverlayFades,
        LumpId::OverlaySystemLevels,
        LumpId::PhysLevel,
        LumpId::DispMultiBlend,
    ];

    /// Position of this lump's entry in the directory.
    pub open spec fn spec_index(self) -> int {
        match self {
            LumpId::Entities => 0,
            LumpId::Planes => 1,
            LumpId::TexData => 2,
            LumpId::Vertexes => 3,
            LumpId::Visibility => 4,
            LumpId::Nodes => 5,
            LumpId::TexInfo => 6,
            LumpId::Faces => 7,
            LumpId::Lighting => 8,
            LumpId::Occlusion => 9,
            LumpId::Leafs => 10,
            LumpId::FaceIds => 11,
            LumpId::Edges => 12,
            LumpId::SurfEdges => 13,
            LumpId::Models => 14,
            LumpId::WorldLights => 15,
            LumpId::LeafFaces => 16,
            LumpId::LeafBrushes => 17,
            LumpId::Brushes => 18,
            LumpId::BrushSides => 19,
            LumpId::Areas => 20,
            LumpId::AreaPortals => 21,
            LumpId::Portals => 22,
            LumpId::Clusters => 23,
            LumpId::PortalVerts => 24,
            LumpId::ClusterPortals => 25,
            LumpId::DispInfo => 26,
            LumpId::OriginalFaces => 27,
            LumpId::PhysDisp => 28,
            LumpId::PhysCollide => 29,
            LumpId::VertNormals => 30,
            LumpId::VertNormalIndices => 31,
            LumpId::DispLightmapAlphas => 32,
            LumpId::DispVerts => 33,
            LumpId::DispLightmapSamplePositions => 34,
            LumpId::GameLump => 35,
            LumpId::LeafWaterData => 36,
            LumpId::Primitives => 37,
            LumpId::PrimVerts => 38,
            LumpId::PrimIndices => 39,
            LumpId::PakFile => 40,
            LumpId::ClipPortalVerts => 41,
            LumpId::Cubemaps => 42,
            LumpId::TexDataStringData => 43,
            LumpId::TexDataStringTable => 44,
            LumpId::Overlays => 45,
            LumpId::LeafMinDistToWater => 46,
            LumpId::FaceMacroTextureInfo => 47,
            LumpId::DispTris => 48,
            LumpId::PhysCollideSurface => 49,
            LumpId::WaterOverlays => 50,
            LumpId::LeafAmbientIndexHdr => 51,
            LumpId::LeafAmbientIndex => 52,
            LumpId::LightingHdr => 53,
            LumpId::WorldLightsHdr => 54,
            LumpId::LeafAmbientLightingHdr => 55,
            LumpId::LeafAmbientLighting => 56,
            LumpId::XzipPakFile => 57,
            LumpId::FacesHdr => 58,
            LumpId::MapFlags => 59,
            LumpId::OverlayFades => 60,
            LumpId::OverlaySystemLevels => 61,
            LumpId::PhysLevel => 62,
            LumpId::DispMultiBlend => 63,
        }
    }

    /// Position of this lump's entry in the directory.
    pub fn index(self) -> (r: usize)
        ensures
            r == self.spec_index(),
            r < 64,
    {
        match self {
            LumpId::Entities => 0,
            LumpId::Planes => 1,
            LumpId::TexData => 2,
            LumpId::Vertexes => 3,
            LumpId::Visibility => 4,
            LumpId::Nodes => 5,
            LumpId::TexInfo => 6,
            LumpId::Faces => 7,
            LumpId::Lighting => 8,
            LumpId::Occlusion => 9,
            LumpId::Leafs => 10,
            LumpId::FaceIds => 11,
            LumpId::Edges => 12,
            LumpId::SurfEdges => 13,
            LumpId::Models => 14,
            LumpId::WorldLights => 15,
            LumpId::LeafFaces => 16,
            LumpId::LeafBrushes => 17,
            LumpId::Brushes => 18,
            LumpId::BrushSides => 19,
            LumpId::Areas => 20,
            LumpId::AreaPortals => 21,
            LumpId::Portals => 22,
            LumpId::Clusters => 23,
            LumpId::PortalVerts => 24,
            LumpId::ClusterPortals => 25,
            LumpId::DispInfo => 26,
            LumpId::OriginalFaces => 27,
            LumpId::PhysDisp => 28,
            LumpId::PhysCollide => 29,
            LumpId::VertNormals => 30,
            LumpId::VertNormalIndices => 31,
            LumpId::DispLightmapAlphas => 32,
            LumpId::DispVerts => 33,
            LumpId::DispLightmapSamplePositions => 34,
            LumpId::GameLump => 35,
            LumpId::LeafWaterData => 36,
            LumpId::Primitives => 37,
            LumpId::PrimVerts => 38,
            LumpId::PrimIndices => 39,
            LumpId::PakFile => 40,
            LumpId::ClipPortalVerts => 41,
            LumpId::Cubemaps => 42,
            LumpId::TexDataStringData => 43,
            LumpId::TexDataStringTable => 44,
            LumpId::Overlays => 45,
            LumpId::LeafMinDistToWater => 46,
            LumpId::FaceMacroTextureInfo => 47,
            LumpId::DispTris => 48,
            LumpId::PhysCollideSurface => 49,
            LumpId::WaterOverlays => 50,
            LumpId::LeafAmbientIndexHdr => 51,
            LumpId::LeafAmbientIndex => 52,
            LumpId::LightingHdr => 53,
            LumpId::WorldLightsHdr => 54,
            LumpId::LeafAmbientLightingHdr => 55,
            LumpId::LeafAmbientLighting => 56,
            LumpId::XzipPakFile => 57,
            LumpId::FacesHdr => 58,
            LumpId::MapFlags => 59,
            LumpId::OverlayFades => 60,
            LumpId::OverlaySystemLevels => 61,
            LumpId::PhysLevel => 62,
            LumpId::DispMultiBlend => 63,
        }
    }

    /// The lump at directory position `index`.
    pub open spec fn spec_from_index(index: int) -> Option<LumpId> {
        
        if index == 0 {
            Some(LumpId::Entities)
        } else if index == 1 {
            Some(LumpId::Planes)
        } else if index == 2 {
            Some(LumpId::TexData)
        } else if index == 3 {
            Some(LumpId::Vertexes)
        } else if index == 4 {
            Some(LumpId::Visibility)
        } else if index == 5 {
            Some(LumpId::Nodes)
        } else if index == 6 {
            Some(LumpId::TexInfo)
        } else if index == 7 {
            Some(LumpId::Faces)
        } else if index == 8 {
            Some(LumpId::Lighting)
        } else if index == 9 {
            Some(LumpId::Occlusion)
        } else if index == 10 {
            Some(LumpId::Leafs)
        } else if index == 11 {
            Some(LumpId::FaceIds)
        } else if index == 12 {
            Some(LumpId::Edges)
        } else if index == 13 {
            Some(LumpId::SurfEdges)
        } else if index == 14 {
            Some(LumpId::Models)
        } else if index == 15 {
            Some(LumpId::WorldLights)
        } else if index == 16 {
            Some(LumpId::LeafFaces)
        } else if index == 17 {
            Some(LumpId::LeafBrushes)
        } else if index == 18 {
            Some(LumpId::Brushes)
        } else if index == 19 {
            Some(LumpId::BrushSides)
        } else if index == 20 {
            Some(LumpId::Areas)
        } else if index == 21 {
            Some(LumpId::AreaPortals)
        } else if index == 22 {
            Some(LumpId::Portals)
        } else if index == 23 {
            Some(LumpId::Clusters)
        } else if index == 24 {
            Some(LumpId::PortalVerts)
        } else if index == 25 {
            Some(LumpId::ClusterPortals)
        } else if index == 26 {
            Some(LumpId::DispInfo)
        } else if index == 27 {
            Some(LumpId::OriginalFaces)
        } else if index == 28 {
            Some(LumpId::PhysDisp)
        } else if index == 29 {
            Some(LumpId::PhysCollide)
        } else if index == 30 {
            Some(LumpId::VertNormals)
        } else if index == 31 {
            Some(LumpId::VertNormalIndices)
        } else if index == 32 {
            Some(LumpId::DispLightmapAlphas)
        } else if index == 33 {
            Some(LumpId::DispVerts)
        } else if index == 34 {
            Some(LumpId::DispLightmapSamplePositions)
        } else if index == 35 {
            Some(LumpId::GameLump)
        } else if index == 36 {
            Some(LumpId::LeafWaterData)
        } else if index == 37 {
            Some(LumpId::Primitives)
        } else if index == 38 {
            Some(LumpId::PrimVerts)
        } else if index == 39 {
            Some(LumpId::PrimIndices)
        } else if index == 40 {
            Some(LumpId::PakFile)
        } else if index == 41 {
            Some(LumpId::ClipPortalVerts)
        } else if index == 42 {
            Some(LumpId::Cubemaps)
        } else if index == 43 {
            Some(LumpId::TexDataStringData)
        } else if index == 44 {
            Some(LumpId::TexDataStringTable)
        } else if index == 45 {
            Some(LumpId::Overlays)
        } else if index == 46 {
            Some(LumpId::LeafMinDistToWater)
        } else if index == 47 {
            Some(LumpId::FaceMacroTextureInfo)
        } else if index == 48 {
            Some(LumpId::DispTris)
        } else if index == 49 {
            Some(LumpId::PhysCollideSurface)
        } else if index == 50 {
            Some(LumpId::WaterOverlays)
        } else if index == 51 {
            Some(LumpId::LeafAmbientIndexHdr)
        } else if index == 52 {
            Some(LumpId::LeafAmbientIndex)
        } else if index == 53 {
            Some(LumpId::LightingHdr)
        } else if index == 54 {
            Some(LumpId::WorldLightsHdr)
        } else if index == 55 {
            Some(LumpId::LeafAmbientLightingHdr)
        } else if index == 56 {
            Some(LumpId::LeafAmbientLighting)
        } else if index == 57 {
            Some(LumpId::XzipPakFile)
        } else if index == 58 {
            Some(LumpId::FacesHdr)
        } else if index == 59 {
            Some(LumpId::MapFlags)
        } else if index == 60 {
            Some(LumpId::OverlayFades)
        } else if index == 61 {
            Some(LumpId::OverlaySystemLevels)
        } else if index == 62 {
            Some(LumpId::PhysLevel)
        } else if index == 63 {
            Some(LumpId::DispMultiBlend)
        } else {
            None
        }
    }

    /// The lump at directory position `index`, if there is one.
    pub fn from_index(index: usize) -> (r: Option<LumpId>)
        ensures
            r == Self::spec_from_index(index as int),
    {
        match index {
            0 => Some(LumpId::Entities),
            1 => Some(LumpId::Planes),
            2 => Some(LumpId::TexData),
            3 => Some(LumpId::Vertexes),
            4 => Some(LumpId::Visibility),
            5 => Some(LumpId::Nodes),
            6 => Some(LumpId::TexInfo),
            7 => Some(LumpId::Faces),
            8 => Some(LumpId::Lighting),
            9 => Some(LumpId::Occlusion),
            10 => Some(LumpId::Leafs),
            11 => Some(LumpId::FaceIds),
            12 => Some(LumpId::Edges),
            13 => Some(LumpId::SurfEdges),
            14 => Some(LumpId::Models),
            15 => Some(LumpId::WorldLights),
            16 => Some(LumpId::LeafFaces),
            17 => Some(LumpId::LeafBrushes),
            18 => Some(LumpId::Brushes),
            19 => Some(LumpId::BrushSides),
            20 => Some(LumpId::Areas),
            21 => Some(LumpId::AreaPortals),
            22 => Some(LumpId::Portals),
            23 => Some(LumpId::Clusters),
            24 => Some(LumpId::PortalVerts),
            25 => Some(LumpId::ClusterPortals),
            26 => Some(LumpId::DispInfo),
            27 => Some(LumpId::OriginalFaces),
            28 => Some(LumpId::PhysDisp),
            29 => Some(LumpId::PhysCollide),
            30 => Some(LumpId::VertNormals),
            31 => Some(LumpId::VertNormalIndices),
            32 => Some(LumpId::DispLightmapAlphas),
            33 => Some(LumpId::DispVerts),
            34 => Some(LumpId::DispLightmapSamplePositions),
            35 => Some(LumpId::GameLump),
            36 => Some(LumpId::LeafWaterData),
            37 => Some(LumpId::Primitives),
            38 => Some(LumpId::PrimVerts),
            39 => Some(LumpId::PrimIndices),
            40 => Some(LumpId::PakFile),
            41 => Some(LumpId::ClipPortalVerts),
            42 => Some(LumpId::Cubemaps),
            43 => Some(LumpId::TexDataStringData),
            44 => Some(LumpId::TexDataStringTable),
            45 => Some(LumpId::Overlays),
            46 => Some(LumpId::LeafMinDistToWater),
            47 => Some(LumpId::FaceMacroTextureInfo),
            48 => Some(LumpId::DispTris),
            49 => Some(LumpId::PhysCollideSurface),
            50 => Some(LumpId::WaterOverlays),
            51 => Some(LumpId::LeafAmbientIndexHdr),
            52 => Some(LumpId::LeafAmbientIndex),
            53 => Some(LumpId::LightingHdr),
            54 => Some(LumpId::WorldLightsHdr),
            55 => Some(LumpId::LeafAmbientLightingHdr),
            56 => Some(LumpId::LeafAmbientLighting),
            57 => Some(LumpId::XzipPakFile),
            58 => Some(LumpId::FacesHdr),
            59 => Some(LumpId::MapFlags),
            60 => Some(LumpId::OverlayFades),
            61 => Some(LumpId::OverlaySystemLevels),
            62 => Some(LumpId::PhysLevel),
            63 => Some(LumpId::DispMultiBlend),
            _ => None,
        }
    }

    pub open spec fn spec_name(self) -> Seq<char> {
        match self {
            LumpId::Entities => "LUMP_ENTITIES"@,
            LumpId::Planes => "LUMP_PLANES"@,
            LumpId::TexData => "LUMP_TEXDATA"@,
            LumpId::Vertexes => "LUMP_VERTEXES"@,
            LumpId::Visibility => "LUMP_VISIBILITY"@,
            LumpId::Nodes => "LUMP_NODES"@,
            LumpId::TexInfo => "LUMP_TEXINFO"@,
            LumpId::Faces => "LUMP_FACES"@,
            LumpId::Lighting => "LUMP_LIGHTING"@,
            LumpId::Occlusion => "LUMP_OCCLUSION"@,
            LumpId::Leafs => "LUMP_LEAFS"@,
            LumpId::FaceIds => "LUMP_FACEIDS"@,
            LumpId::Edges => "LUMP_EDGES"@,
            LumpId::SurfEdges => "LUMP_SURFEDGES"@,
            LumpId::Models => "LUMP_MODELS"@,
            LumpId::WorldLights => "LUMP_WORLDLIGHTS"@,
            LumpId::LeafFaces => "LUMP_LEAFFACES"@,
            LumpId::LeafBrushes => "LUMP_LEAFBRUSHES"@,
            LumpId::Brushes => "LUMP_BRUSHES"@,
            LumpId::BrushSides => "LUMP_BRUSHSIDES"@,
            LumpId::Areas => "LUMP_AREAS"@,
            LumpId::AreaPortals => "LUMP_AREAPORTALS"@,
            LumpId::Portals => "LUMP_PORTALS"@,
            LumpId::Clusters => "LUMP_CLUSTERS"@,
            LumpId::PortalVerts => "LUMP_PORTALVERTS"@,
            LumpId::ClusterPortals => "LUMP_CLUSTERPORTALS"@,
            LumpId::DispInfo => "LUMP_DISPINFO"@,
            LumpId::OriginalFaces => "LUMP_ORIGINALFACES"@,
            LumpId::PhysDisp => "LUMP_PHYSDISP"@,
            LumpId::PhysCollide => "LUMP_PHYSCOLLIDE"@,
            LumpId::VertNormals => "LUMP_VERTNORMALS"@,
            LumpId::VertNormalIndices => "LUMP_VERTNORMALINDICES"@,
            LumpId::DispLightmapAlphas => "LUMP_DISP_LIGHTMAP_ALPHAS"@,
            LumpId::DispVerts => "LUMP_DISP_VERTS"@,
            LumpId::DispLightmapSamplePositions => "LUMP_DISP_LIGHTMAP_SAMPLE_POSITIONS"@,
            LumpId::GameLump => "LUMP_GAME_LUMP"@,
            LumpId::LeafWaterData => "LUMP_LEAFWATERDATA"@,
            LumpId::Primitives => "LUMP_PRIMITIVES"@,
            LumpId::PrimVerts => "LUMP_PRIMVERTS"@,
            LumpId::PrimIndices => "LUMP_PRIMINDICES"@,
            LumpId::PakFile => "LUMP_PAKFILE"@,
            LumpId::ClipPortalVerts => "LUMP_CLIPPORTALVERTS"@,
            LumpId::Cubemaps => "LUMP_CUBEMAPS"@,
            LumpId::TexDataStringData => "LUMP_TEXDATA_STRING_DATA"@,
            LumpId::TexDataStringTable => "LUMP_TEXDATA_STRING_TABLE"@,
            LumpId::Overlays => "LUMP_OVERLAYS"@,
            LumpId::LeafMinDistToWater => "LUMP_LEAFMINDISTTOWATER"@,
            LumpId::FaceMacroTextureInfo => "LUMP_FACE_MACRO_TEXTURE_INFO"@,
            LumpId::DispTris => "LUMP_DISP_TRIS"@,
            LumpId::PhysCollideSurface => "LUMP_PHYSCOLLIDESURFACE"@,
            LumpId::WaterOverlays => "LUMP_WATEROVERLAYS"@,
            LumpId::LeafAmbientIndexHdr => "LUMP_LEAF_AMBIENT_INDEX_HDR"@,
            LumpId::LeafAmbientIndex => "LUMP_LEAF_AMBIENT_INDEX"@,
            LumpId::LightingHdr => "LUMP_LIGHTING_HDR"@,
            LumpId::WorldLightsHdr => "LUMP_WORLDLIGHTS_HDR"@,
            LumpId::LeafAmbientLightingHdr => "LUMP_LEAF_AMBIENT_LIGHTING_HDR"@,
            LumpId::LeafAmbientLighting => "LUMP_LEAF_AMBIENT_LIGHTING"@,
            LumpId::XzipPakFile => "LUMP_XZIPPAKFILE"@,
            LumpId::FacesHdr => "LUMP_FACES_HDR"@,
            LumpId::MapFlags => "LUMP_MAP_FLAGS"@,
            LumpId::OverlayFades => "LUMP_OVERLAY_FADES"@,
            LumpId::OverlaySystemLevels => "LUMP_OVERLAY_SYSTEM_LEVELS"@,
            LumpId::PhysLevel => "LUMP_PHYSLEVEL"@,
            LumpId::DispMultiBlend => "LUMP_DISP_MULTIBLEND"@,
        }
    }

    /// The `LUMP_*` name from `bspfile.h`.
    pub fn name(self) -> (r: &'static str)
        ensures
            r@ == self.spec_name(),
    {
        match self {
            LumpId::Entities => "LUMP_ENTITIES",
            LumpId::Planes => "LUMP_PLANES",
            LumpId::TexData => "LUMP_TEXDATA",
            LumpId::Vertexes => "LUMP_VERTEXES",
            LumpId::Visibility => "LUMP_VISIBILITY",
            LumpId::Nodes => "LUMP_NODES",
            LumpId::TexInfo => "LUMP_TEXINFO",
            LumpId::Faces => "LUMP_FACES",
            LumpId::Lighting => "LUMP_LIGHTING",
            LumpId::Occlusion => "LUMP_OCCLUSION",
            LumpId::Leafs => "LUMP_LEAFS",
            LumpId::FaceIds => "LUMP_FACEIDS",
            LumpId::Edges => "LUMP_EDGES",
            LumpId::SurfEdges => "LUMP_SURFEDGES",
            LumpId::Models => "LUMP_MODELS",
            LumpId::WorldLights => "LUMP_WORLDLIGHTS",
            LumpId::LeafFaces => "LUMP_LEAFFACES",
            LumpId::LeafBrushes => "LUMP_LEAFBRUSHES",
            LumpId::Brushes => "LUMP_BRUSHES",
            LumpId::BrushSides => "LUMP_BRUSHSIDES",
            LumpId::Areas => "LUMP_AREAS",
            LumpId::AreaPortals => "LUMP_AREAPORTALS",
            LumpId::Portals => "LUMP_PORTALS",
            LumpId::Clusters => "LUMP_CLUSTERS",
            LumpId::PortalVerts => "LUMP_PORTALVERTS",
            LumpId::ClusterPortals => "LUMP_CLUSTERPORTALS",
            LumpId::DispInfo => "LUMP_DISPINFO",
            LumpId::OriginalFaces => "LUMP_ORIGINALFACES",
            LumpId::PhysDisp => "LUMP_PHYSDISP",
            LumpId::PhysCollide => "LUMP_PHYSCOLLIDE",
            LumpId::VertNormals => "LUMP_VERTNORMALS",
            LumpId::VertNormalIndices => "LUMP_VERTNORMALINDICES",
            LumpId::DispLightmapAlphas => "LUMP_DISP_LIGHTMAP_ALPHAS",
            LumpId::DispVerts => "LUMP_DISP_VERTS",
            LumpId::DispLightmapSamplePositions => "LUMP_DISP_LIGHTMAP_SAMPLE_POSITIONS",
            LumpId::GameLump => "LUMP_GAME_LUMP",
            LumpId::LeafWaterData => "LUMP_LEAFWATERDATA",
            LumpId::Primitives => "LUMP_PRIMITIVES",
            LumpId::PrimVerts => "LUMP_PRIMVERTS",
            LumpId::PrimIndices => "LUMP_PRIMINDICES",
            LumpId::PakFile => "LUMP_PAKFILE",
            LumpId::ClipPortalVerts => "LUMP_CLIPPORTALVERTS",
            LumpId::Cubemaps => "LUMP_CUBEMAPS",
            LumpId::TexDataStringData => "LUMP_TEXDATA_STRING_DATA",
            LumpId::TexDataStringTable => "LUMP_TEXDATA_STRING_TABLE",
            LumpId::Overlays => "LUMP_OVERLAYS",
            LumpId::LeafMinDistToWater => "LUMP_LEAFMINDISTTOWATER",
            LumpId::FaceMacroTextureInfo => "LUMP_FACE_MACRO_TEXTURE_INFO",
            LumpId::DispTris => "LUMP_DISP_TRIS",
            LumpId::PhysCollideSurface => "LUMP_PHYSCOLLIDESURFACE",
            LumpId::WaterOverlays => "LUMP_WATEROVERLAYS",
            LumpId::LeafAmbientIndexHdr => "LUMP_LEAF_AMBIENT_INDEX_HDR",
            LumpId::LeafAmbientIndex => "LUMP_LEAF_AMBIENT_INDEX",
            LumpId::LightingHdr => "LUMP_LIGHTING_HDR",
            LumpId::WorldLightsHdr => "LUMP_WORLDLIGHTS_HDR",
            LumpId::LeafAmbientLightingHdr => "LUMP_LEAF_AMBIENT_LIGHTING_HDR",
            LumpId::LeafAmbientLighting => "LUMP_LEAF_AMBIENT_LIGHTING",
            LumpId::XzipPakFile => "LUMP_XZIPPAKFILE",
            LumpId::FacesHdr => "LUMP_FACES_HDR",
            LumpId::MapFlags => "LUMP_MAP_FLAGS",
            LumpId::OverlayFades => "LUMP_OVERLAY_FADES",
            LumpId::OverlaySystemLevels => "LUMP_OVERLAY_SYSTEM_LEVELS",
            LumpId::PhysLevel => "LUMP_PHYSLEVEL",
            LumpId::DispMultiBlend => "LUMP_DISP_MULTIBLEND",
        }
    }

    /// Size in bytes of one record of this lump at lump format `version`, for
    /// the lumps that are arrays of fixed-size records.
    pub open spec fn spec_stride(self, version: i32) -> Option<usize> {
        match self {
            LumpId::Planes => Some(20),
            LumpId::TexData => Some(32),
            LumpId::Vertexes => Some(12),
            LumpId::Nodes => Some(32),
            LumpId::TexInfo => Some(72),
            LumpId::Faces => Some(56),
            LumpId::Lighting => Some(4),
            LumpId::Leafs => if version == 0 {
                Some(56)
            } else if version == 1 {
                Some(32)
            } else {
                None
            },
            LumpId::Edges => Some(4),
            LumpId::SurfEdges => Some(4),
            LumpId::Models => Some(48),
            LumpId::LeafFaces => Some(2),
            LumpId::LeafBrushes => Some(2),
            LumpId::Brushes => Some(12),
            LumpId::BrushSides => Some(8),
            LumpId::DispInfo => Some(176),
            LumpId::OriginalFaces => Some(56),
            LumpId::DispVerts => Some(20),
            LumpId::Cubemaps => Some(16),
            LumpId::TexDataStringTable => Some(4),
            LumpId::DispTris => Some(2),
            LumpId::LightingHdr => Some(4),
            LumpId::FacesHdr => Some(56),
            _ => None,
        }
    }

    /// Size in bytes of one record of this lump at lump format `version`, or
    /// `None` for lumps that are not arrays of fixed-size records (and for a
    /// `LEAFS` version this reader does not know).
    pub fn stride(self, version: i32) -> (r: Option<usize>)
        ensures
            r == self.spec_stride(version),
    {
        match self {
            LumpId::Planes => Some(20),
            LumpId::TexData => Some(32),
            LumpId::Vertexes => Some(12),
            LumpId::Nodes => Some(32),
            LumpId::TexInfo => Some(72),
            LumpId::Faces => Some(56),
            LumpId::Lighting => Some(4),
            LumpId::Leafs => if version == 0 {
                Some(56)
            } else if version == 1 {
                Some(32)
            } else {
                None
            },
            LumpId::Edges => Some(4),
            LumpId::SurfEdges => Some(4),
            LumpId::Models => Some(48),
            LumpId::LeafFaces => Some(2),
            LumpId::LeafBrushes => Some(2),
            LumpId::Brushes => Some(12),
            LumpId::BrushSides => Some(8),
            LumpId::DispInfo => Some(176),
            LumpId::OriginalFaces => Some(56),
            LumpId::DispVerts => Some(20),
            LumpId::Cubemaps => Some(16),
            LumpId::TexDataStringTable => Some(4),
            LumpId::DispTris => Some(2),
            LumpId::LightingHdr => Some(4),
            LumpId::FacesHdr => Some(56),
            _ => None,
        }
    }
}

/// The directory position identifies the lump: `from_index` undoes `index`.
pub proof fn lemma_lump_index_roundtrip(id: LumpId)
    ensures
        LumpId::spec_from_index(id.spec_index()) == Some(id),
        0 <= id.spec_index() < 64,
{
}

} // verus!
