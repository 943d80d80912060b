//! The catalog of tilesets and their fixed metadata.
use vstd::prelude::*;

verus! {

/// The tilesets that Maptiler Cloud serves.
#[derive(Debug, Copy, Clone, PartialEq, Eq)]
pub enum TileSet {
    /// A contour map of the world; tiles are `.pbf` files.
    Contours,
    /// A (beta) map of the countries of the world; tiles are `.pbf` files.
    Countries,
    /// Hills as a transparent shaded relief; tiles are `.png` files.
    Hillshading,
    /// Land against water; tiles are `.pbf` files.
    Land,
    /// What grows where; tiles are `.pbf` files.
    Landcover,
    /// General purpose map; tiles are `.pbf` files.
    MaptilerPlanet,
    /// Like `MaptilerPlanet`, with extra data in the upper zoom levels only;
    /// tiles are `.pbf` files.
    MaptilerPlanetLite,
    /// The OpenMapTiles schema; tiles are `.pbf` files.
    OpenMapTiles,
    /// `OpenMapTiles` in the WGS84 projection; tiles are `.pbf` files.
    OpenMapTilesWGS84,
    /// Maps for hiking, cycling and the like; tiles are `.pbf` files.
    Outdoor,
    /// Satellite imagery; tiles are `.jpg` files.
    Satellite,
    /// Medium resolution satellite imagery from 2016; tiles are `.jpg` files.
    SatelliteMediumRes2016,
    /// Medium resolution satellite imagery from 2018; tiles are `.jpg` files.
    SatelliteMediumRes2018,
    /// Terrain elevation as TIN polygons; tiles are quantized meshes.
    Terrain3D,
    /// Terrain elevation encoded in RGB,
    /// `height = -10000 + (R * 256 * 256 + G * 256 + B) * 0.1`;
    /// tiles are `.png` files.
    TerrainRGB,
    /// A tileset that the caller names; no check is made on the strings.
    Custom {
        /// The tile endpoint, for satellite imagery `"satellite"`.
        endpoint: &'static str,
        /// The file extension that the endpoint serves, such as `"png"`.
        extension: &'static str,
    },
}

/// The largest zoom level that any tileset of the catalog accepts.
pub const CATALOG_MAX_ZOOM: u32 = 20;

impl TileSet {
    /// The path segment that names the tileset in a tile address.
    pub open spec fn spec_endpoint(self) -> Seq<char> {
        match self {
            TileSet::Contours => "contours"@,
            TileSet::Countries => "countries"@,
            TileSet::Hillshading => "hillshades"@,
            TileSet::Land => "land"@,
            TileSet::Landcover => "landcover"@,
            TileSet::MaptilerPlanet => "v3"@,
            TileSet::MaptilerPlanetLite => "v3-lite"@,
            TileSet::OpenMapTiles => "v3-openmaptiles"@,
            TileSet::OpenMapTilesWGS84 => "v3-4326"@,
            TileSet::Outdoor => "outdoor"@,
            TileSet::Satellite => "satellite"@,
            TileSet::SatelliteMediumRes2016 => "satellite-mediumres"@,
            TileSet::SatelliteMediumRes2018 => "satellite-mediumres-2018"@,
            TileSet::Terrain3D => "terrain-quantized-mesh"@,
            TileSet::TerrainRGB => "terrain-rgb"@,
            TileSet::Custom { endpoint, .. } => endpoint@,
        }
    }

    /// The largest zoom level that the tileset serves.
    pub open spec fn spec_max_zoom(self) -> u32 {
        match self {
            TileSet::Contours => 14,
            TileSet::Countries => 11,
            TileSet::Hillshading => 12,
            TileSet::Land => 14,
            TileSet::Landcover => 9,
            TileSet::MaptilerPlanet => 14,
            TileSet::MaptilerPlanetLite => 10,
            TileSet::OpenMapTiles => 14,
            TileSet::OpenMapTilesWGS84 => 13,
            TileSet::Outdoor => 14,
            TileSet::Satellite => 20,
            TileSet::SatelliteMediumRes2016 => 13,
            TileSet::SatelliteMediumRes2018 => 13,
            TileSet::Terrain3D => 13,
            TileSet::TerrainRGB => 12,
            TileSet::Custom { .. } => 20,
        }
    }

    /// The smallest zoom level that the tileset serves.
    pub open spec fn spec_min_zoom(self) -> u32 {
        match self {
            TileSet::Contours => 9,
            TileSet::Outdoor => 5,
            _ => 0,
        }
    }

    /// The extension of the files that the tileset serves.
    pub open spec fn spec_file_extension(self) -> Seq<char> {
        match self {
            TileSet::Contours
            | TileSet::Countries
            | TileSet::Land
            | TileSet::Landcover
            | TileSet::MaptilerPlanet
            | TileSet::MaptilerPlanetLite
            | TileSet::OpenMapTiles
            | TileSet::OpenMapTilesWGS84
            | TileSet::Outdoor => "pbf"@,
            TileSet::Hillshading | TileSet::TerrainRGB => "png"@,
            TileSet::Satellite
            | TileSet::SatelliteMediumRes2016
            | TileSet::SatelliteMediumRes2018 => "jpg"@,
            TileSet::Terrain3D => "quantized-mesh-1.0"@,
            TileSet::Custom { extension, .. } => extension@,
        }
    }

    /// The name under which the tileset is shown to people.
    pub open spec fn spec_display_name(self) -> Seq<char> {
        match self {
            TileSet::Contours => "Contours"@,
            TileSet::Countries => "Countries"@,
            TileSet::Hillshading => "Hillshading"@,
            TileSet::Land => "Land"@,
            TileSet::Landcover => "Landcover"@,
            TileSet::MaptilerPlanet => "MaptilerPlanet"@,
            TileSet::MaptilerPlanetLite => "MaptilerPlanetLite"@,
            TileSet::OpenMapTiles => "OpenMapTiles"@,
            TileSet::OpenMapTilesWGS84 => "OpenMapTilesWGS84"@,
            TileSet::Outdoor => "Outdoor"@,
            TileSet::Satellite => "Satellite"@,
            TileSet::SatelliteMediumRes2016 => "SatelliteMediumRes2016"@,
            TileSet::SatelliteMediumRes2018 => "SatelliteMediumRes2018"@,
            TileSet::Terrain3D => "Terrain3D"@,
            TileSet::TerrainRGB => "TerrainRGB"@,
            TileSet::Custom { endpoint, .. } => endpoint@,
        }
    }

    /// Returns the endpoint that names this tileset in an API request.
    ///
    /// For the satellite tileset it is `"satellite"`.
    pub fn endpoint(&self) -> (r: &'static str)
        ensures
            r@ == self.spec_endpoint(),
    {
        match self {
            TileSet::Contours => "contours",
            TileSet::Countries => "countries",
            TileSet::Hillshading => "hillshades",
            TileSet::Land => "land",
            TileSet::Landcover => "landcover",
            TileSet::MaptilerPlanet => "v3",
            TileSet::MaptilerPlanetLite => "v3-lite",
            TileSet::OpenMapTiles => "v3-openmaptiles",
            TileSet::OpenMapTilesWGS84 => "v3-4326",
            TileSet::Outdoor => "outdoor",
            TileSet::Satellite => "satellite",
            TileSet::SatelliteMediumRes2016 => "satellite-mediumres",
            TileSet::SatelliteMediumRes2018 => "satellite-mediumres-2018",
            TileSet::Terrain3D => "terrain-quantized-mesh",
            TileSet::TerrainRGB => "terrain-rgb",
            TileSet::Custom { endpoint, extension: _ } => endpoint,
        }
    }

    /// Returns the largest zoom level that this tileset supports.
    ///
    /// A custom tileset is given the catalog's largest zoom level here; the
    /// server may serve fewer.
    pub fn max_zoom(&self) -> (r: u32)
        ensures
            r == self.spec_max_zoom(),
    {
        match self {
            TileSet::Contours => 14,
            TileSet::Countries => 11,
            TileSet::Hillshading => 12,
            TileSet::Land => 14,
            TileSet::Landcover => 9,
            TileSet::MaptilerPlanet => 14,
            TileSet::MaptilerPlanetLite => 10,
            TileSet::OpenMapTiles => 14,
            TileSet::OpenMapTilesWGS84 => 13,
            TileSet::Outdoor => 14,
            TileSet::Satellite => 20,
            TileSet::SatelliteMediumRes2016 => 13,
            TileSet::SatelliteMediumRes2018 => 13,
            TileSet::Terrain3D => 13,
            TileSet::TerrainRGB => 12,
            TileSet::Custom { endpoint: _, extension: _ } => CATALOG_MAX_ZOOM,
        }
    }

    /// Returns the smallest zoom level that this tileset supports.
    ///
    /// A custom tileset is given zoom level 0 here; the server may ask for
    /// more.
    pub fn min_zoom(&self) -> (r: u32)
        ensures
            r == self.spec_min_zoom(),
    {
        match self {
            TileSet::Contours => 9,
            TileSet::Countries => 0,
            TileSet::Hillshading => 0,
            TileSet::Land => 0,
            TileSet::Landcover => 0,
            TileSet::MaptilerPlanet => 0,
            TileSet::MaptilerPlanetLite => 0,
            TileSet::OpenMapTiles => 0,
            TileSet::OpenMapTilesWGS84 => 0,
            TileSet::Outdoor => 5,
            TileSet::Satellite => 0,
            TileSet::SatelliteMediumRes2016 => 0,
            TileSet::SatelliteMediumRes2018 => 0,
            TileSet::Terrain3D => 0,
            TileSet::TerrainRGB => 0,
            TileSet::Custom { endpoint: _, extension: _ } => 0,
        }
    }

    /// Returns the extension of the files that this tileset serves, such as
    /// `"png"`, `"jpg"` or `"pbf"`.
    pub fn file_extension(&self) -> (r: &'static str)
        ensures
            r@ == self.spec_file_extension(),
    {
        match self {
            TileSet::Contours
            | TileSet::Countries
            | TileSet::Land
            | TileSet::Landcover
            | TileSet::MaptilerPlanet
            | TileSet::MaptilerPlanetLite
            | TileSet::OpenMapTiles
            | TileSet::OpenMapTilesWGS84
            | TileSet::Outdoor => "pbf",
            TileSet::Hillshading | TileSet::TerrainRGB => "png",
            TileSet::Satellite
            | TileSet::SatelliteMediumRes2016
            | TileSet::SatelliteMediumRes2018 => "jpg",
            TileSet::Terrain3D => "quantized-mesh-1.0",
            TileSet::Custom { endpoint: _, extension } => extension,
        }
    }

    /// Returns the name under which this tileset is shown; a custom tileset
    /// is shown by its endpoint.
    pub fn display_name(&self) -> (r: &'static str)
        ensures
            r@ == self.spec_display_name(),
    {
        match self {
            TileSet::Contours => "Contours",
            TileSet::Countries => "Countries",
            TileSet::Hillshading => "Hillshading",
            TileSet::Land => "Land",
            TileSet::Landcover => "Landcover",
            TileSet::MaptilerPlanet => "MaptilerPlanet",
            TileSet::MaptilerPlanetLite => "MaptilerPlanetLite",
            TileSet::OpenMapTiles => "OpenMapTiles",
            TileSet::OpenMapTilesWGS84 => "OpenMapTilesWGS84",
            TileSet::Outdoor => "Outdoor",
            TileSet::Satellite => "Satellite",
            TileSet::SatelliteMediumRes2016 => "SatelliteMediumRes2016",
            TileSet::SatelliteMediumRes2018 => "SatelliteMediumRes2018",
            TileSet::Terrain3D => "Terrain3D",
            TileSet::TerrainRGB => "TerrainRGB",
            TileSet::Custom { endpoint, extension: _ } => endpoint,
        }
    }
}

/// Every tileset, custom ones included, has a zoom range that is not empty
/// and lies within `0..=20`.
pub proof fn lemma_zoom_range_well_formed(set: TileSet)
    ensures
        set.spec_min_zoom() <= set.spec_max_zoom() <= CATALOG_MAX_ZOOM,
{
}

/// The metadata of a tileset depend on the tileset alone: equal tilesets
/// give equal endpoints, extensions and zoom bounds, however often they are
/// asked for.
pub proof fn lemma_metadata_stable(a: TileSet, b: TileSet)
    requires
        a == b,
    ensures
        a.spec_endpoint() == b.spec_endpoint(),
        a.spec_file_extension() == b.spec_file_extension(),
        a.spec_min_zoom() == b.spec_min_zoom(),
        a.spec_max_zoom() == b.spec_max_zoom(),
{
}

} // verus!
