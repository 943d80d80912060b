use maptiler_cloud::errors::ArgumentError;
use maptiler_cloud::{TileRequest, TileSet};

fn built_in() -> Vec<TileSet> {
    vec![
        TileSet::Contours,
        TileSet::Countries,
        TileSet::Hillshading,
        TileSet::Land,
        TileSet::Landcover,
        TileSet::MaptilerPlanet,
        TileSet::MaptilerPlanetLite,
        TileSet::OpenMapTiles,
        TileSet::OpenMapTilesWGS84,
        TileSet::Outdoor,
        TileSet::Satellite,
        TileSet::SatelliteMediumRes2016,
        TileSet::SatelliteMediumRes2018,
        TileSet::Terrain3D,
        TileSet::TerrainRGB,
    ]
}

#[test]
fn zoom_ranges_within_catalog_bounds() {
    for set in built_in() {
        assert!(set.min_zoom() <= set.max_zoom());
        assert!(set.max_zoom() <= 20);
    }
}

#[test]
fn catalog_table() {
    let expected: Vec<(TileSet, &str, &str, u32, u32)> = vec![
        (TileSet::Contours, "contours", "pbf", 9, 14),
        (TileSet::Countries, "countries", "pbf", 0, 11),
        (TileSet::Hillshading, "hillshades", "png", 0, 12),
        (TileSet::Land, "land", "pbf", 0, 14),
        (TileSet::Landcover, "landcover", "pbf", 0, 9),
        (TileSet::MaptilerPlanet, "v3", "pbf", 0, 14),
        (TileSet::MaptilerPlanetLite, "v3-lite", "pbf", 0, 10),
        (TileSet::OpenMapTiles, "v3-openmaptiles", "pbf", 0, 14),
        (TileSet::OpenMapTilesWGS84, "v3-4326", "pbf", 0, 13),
        (TileSet::Outdoor, "outdoor", "pbf", 5, 14),
        (TileSet::Satellite, "satellite", "jpg", 0, 20),
        (TileSet::SatelliteMediumRes2016, "satellite-mediumres", "jpg", 0, 13),
        (TileSet::SatelliteMediumRes2018, "satellite-mediumres-2018", "jpg", 0, 13),
        (TileSet::Terrain3D, "terrain-quantized-mesh", "quantized-mesh-1.0", 0, 13),
        (TileSet::TerrainRGB, "terrain-rgb", "png", 0, 12),
    ];
    for (set, endpoint, extension, min, max) in expected {
        assert_eq!(set.endpoint(), endpoint);
        assert_eq!(set.file_extension(), extension);
        assert_eq!(set.min_zoom(), min);
        assert_eq!(set.max_zoom(), max);
    }
}

#[test]
fn custom_metadata() {
    let set = TileSet::Custom { endpoint: "foo", extension: "bar" };
    assert_eq!(set.endpoint(), "foo");
    assert_eq!(set.file_extension(), "bar");
    assert_eq!(set.min_zoom(), 0);
    assert_eq!(set.max_zoom(), 20);
    assert_eq!(set.display_name(), "foo");
}

#[test]
fn display_names() {
    assert_eq!(TileSet::Hillshading.display_name(), "Hillshading");
    assert_eq!(TileSet::OpenMapTilesWGS84.display_name(), "OpenMapTilesWGS84");
    assert_eq!(TileSet::Satellite.display_name(), "Satellite");
}

#[test]
fn metadata_stable_across_calls() {
    for set in built_in() {
        let first = (set.endpoint(), set.file_extension(), set.min_zoom(), set.max_zoom());
        for _ in 0..3 {
            let again = (set.endpoint(), set.file_extension(), set.min_zoom(), set.max_zoom());
            assert_eq!(first, again);
        }
    }
}

#[test]
fn zoom_one_above_max_and_below_min() {
    for set in built_in() {
        let above = set.max_zoom() + 1;
        assert_eq!(
            TileRequest::new(set, 0, 0, above),
            Err(ArgumentError::ZoomTooLarge(above, set, set.max_zoom()))
        );
        if set.min_zoom() > 0 {
            let below = set.min_zoom() - 1;
            assert_eq!(
                TileRequest::new(set, 0, 0, below),
                Err(ArgumentError::ZoomTooSmall(below, set, set.min_zoom()))
            );
        }
    }
}

#[test]
fn zoom_too_large_checked_before_coordinates() {
    assert_eq!(
        TileRequest::new(TileSet::Landcover, 100_000, 100_000, 10),
        Err(ArgumentError::ZoomTooLarge(10, TileSet::Landcover, 9))
    );
    assert_eq!(
        TileRequest::new(TileSet::Contours, 100_000, 100_000, 8),
        Err(ArgumentError::ZoomTooSmall(8, TileSet::Contours, 9))
    );
}
