use maptiler_cloud::errors::ArgumentError;
use maptiler_cloud::{TileRequest, TileSet};

#[test]
fn zoom_zero_accepts_only_origin() {
    let request = TileRequest::new(TileSet::Satellite, 0, 0, 0).unwrap();
    assert_eq!((request.x(), request.y(), request.zoom()), (0, 0, 0));
    assert_eq!(
        TileRequest::new(TileSet::Satellite, 1, 0, 0),
        Err(ArgumentError::XTooLarge(1, 0, 0))
    );
    assert_eq!(
        TileRequest::new(TileSet::Satellite, 0, 1, 0),
        Err(ArgumentError::YTooLarge(1, 0, 0))
    );
}

#[test]
fn bound_is_power_of_two_inclusive() {
    for zoom in 1..=20u32 {
        let max = 1u32 << zoom;
        let request = TileRequest::new(TileSet::Satellite, max, max, zoom).unwrap();
        assert_eq!((request.x(), request.y(), request.zoom()), (max, max, zoom));
        assert_eq!(
            TileRequest::new(TileSet::Satellite, max + 1, 0, zoom),
            Err(ArgumentError::XTooLarge(max + 1, zoom, max))
        );
        assert_eq!(
            TileRequest::new(TileSet::Satellite, 0, max + 1, zoom),
            Err(ArgumentError::YTooLarge(max + 1, zoom, max))
        );
    }
}

#[test]
fn largest_zoom_bound() {
    assert_eq!(
        TileRequest::new(TileSet::Satellite, 1_048_577, 0, 20),
        Err(ArgumentError::XTooLarge(1_048_577, 20, 1_048_576))
    );
    assert!(TileRequest::new(TileSet::Satellite, 1_048_576, 1_048_576, 20).is_ok());
}

#[test]
fn x_checked_before_y() {
    assert_eq!(
        TileRequest::new(TileSet::Satellite, 9, 9, 3),
        Err(ArgumentError::XTooLarge(9, 3, 8))
    );
}

#[test]
fn accepted_request_keeps_arguments() {
    let request = TileRequest::new(TileSet::Outdoor, 17, 31, 5).unwrap();
    assert_eq!(request.x(), 17);
    assert_eq!(request.y(), 31);
    assert_eq!(request.zoom(), 5);
    assert_eq!(request.tileset(), TileSet::Outdoor);
}

#[test]
fn error_messages() {
    assert_eq!(
        ArgumentError::ZoomTooLarge(21, TileSet::Satellite, 20).message(),
        "Zoom level 21 is too large for the tilset Satellite (max: 20)"
    );
    assert_eq!(
        ArgumentError::ZoomTooSmall(2, TileSet::Outdoor, 5).message(),
        "Zoom level 2 is too small for the tilset Outdoor (min: 5)"
    );
    assert_eq!(
        ArgumentError::XTooLarge(5, 2, 4).message(),
        "X coordinate 5 is too large for the zoom level 2 (max X: 4)"
    );
    assert_eq!(
        ArgumentError::YTooLarge(1048577, 20, 1048576).message(),
        "Y coordinate 1048577 is too large for the zoom level 20 (max Y: 1048576)"
    );
}

#[test]
fn max_coordinate_by_zoom() {
    assert_eq!(TileRequest::max_coordinate_with_zoom(0), 0);
    assert_eq!(TileRequest::max_coordinate_with_zoom(1), 2);
    assert_eq!(TileRequest::max_coordinate_with_zoom(2), 4);
    assert_eq!(TileRequest::max_coordinate_with_zoom(3), 8);
    assert_eq!(TileRequest::max_coordinate_with_zoom(20), 1_048_576);
    assert_eq!(TileRequest::max_coordinate_with_zoom(31), 2_147_483_648);
}
