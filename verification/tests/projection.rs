use track_overlay::projection::{
    bounding_box, BoundingBox, Canvas, InsufficientDataError, PixelOffset, ProjectionMapper, Scale,
};
use track_overlay::track::{GeoPoint, TrackPoint};

fn point(lat_e7: i64, lon_e7: i64) -> TrackPoint {
    TrackPoint::new(lat_e7, lon_e7, None, None).unwrap()
}

fn canvas() -> Canvas {
    Canvas::new(300, 300, 20).unwrap()
}

#[test]
fn box_is_the_smallest_around_the_points() {
    let track = vec![point(5, -7), point(-3, 2), point(4, 9), point(0, 0)];
    assert_eq!(
        bounding_box(&track),
        Ok(BoundingBox { min_lon: -7, max_lon: 9, min_lat: -3, max_lat: 5 })
    );
}

#[test]
fn fewer_than_two_points_are_too_few() {
    assert_eq!(bounding_box(&vec![]), Err(InsufficientDataError::TooFewPoints));
    assert_eq!(bounding_box(&vec![point(1, 1)]), Err(InsufficientDataError::TooFewPoints));
    assert_eq!(
        ProjectionMapper::new(&vec![point(1, 1)], canvas()),
        Err(InsufficientDataError::TooFewPoints)
    );
}

#[test]
fn wider_box_is_scaled_by_its_width() {
    let track = vec![point(0, 0), point(5_000_000, 10_000_000)];
    let m = ProjectionMapper::new(&track, canvas()).unwrap();
    assert_eq!(m.scale, Scale { num: 260, den: 10_000_000 });
    assert_eq!(m.canvas, canvas());
    assert_eq!(
        m.pixel(GeoPoint { lat_e7: 5_000_000, lon_e7: 10_000_000 }),
        PixelOffset { x: 28_000, y: 2_000 }
    );
    assert_eq!(m.pixel(GeoPoint { lat_e7: 0, lon_e7: 0 }), PixelOffset { x: 2_000, y: 15_000 });
    assert_eq!(
        m.pixel(GeoPoint { lat_e7: 2_500_000, lon_e7: 2_500_000 }),
        PixelOffset { x: 8_500, y: 8_500 }
    );
}

#[test]
fn taller_box_is_scaled_by_its_height() {
    let track = vec![point(0, 0), point(10_000_000, 5_000_000)];
    let m = ProjectionMapper::new(&track, canvas()).unwrap();
    assert_eq!(m.scale, Scale { num: 260, den: 10_000_000 });
    assert_eq!(
        m.pixel(GeoPoint { lat_e7: 10_000_000, lon_e7: 5_000_000 }),
        PixelOffset { x: 15_000, y: 2_000 }
    );
    assert_eq!(m.pixel(GeoPoint { lat_e7: 0, lon_e7: 0 }), PixelOffset { x: 2_000, y: 28_000 });
}

#[test]
fn north_is_up() {
    let track = vec![point(0, 0), point(1_000, 1_000)];
    let m = ProjectionMapper::new(&track, canvas()).unwrap();
    let south = m.pixel(GeoPoint { lat_e7: 100, lon_e7: 500 });
    let north = m.pixel(GeoPoint { lat_e7: 900, lon_e7: 500 });
    assert!(north.y < south.y);
    assert_eq!(north.x, south.x);
}

#[test]
fn box_without_extent_has_scale_zero() {
    let level = vec![point(7, 0), point(7, 1_000)];
    let m = ProjectionMapper::new(&level, canvas()).unwrap();
    assert_eq!(m.scale, Scale { num: 0, den: 1 });
    assert_eq!(m.pixel(GeoPoint { lat_e7: 7, lon_e7: 600 }), PixelOffset { x: 2_000, y: 2_000 });
    let upright = vec![point(0, 3), point(50, 3)];
    let m = ProjectionMapper::new(&upright, canvas()).unwrap();
    assert_eq!(m.scale, Scale { num: 0, den: 1 });
    let same = vec![point(1, 1), point(1, 1)];
    assert_eq!(ProjectionMapper::new(&same, canvas()).unwrap().scale, Scale { num: 0, den: 1 });
}

#[test]
fn places_are_rounded_down() {
    let track = vec![point(0, 0), point(3, 3)];
    let m = ProjectionMapper::new(&track, Canvas::new(1, 1, 0).unwrap()).unwrap();
    assert_eq!(m.scale, Scale { num: 1, den: 3 });
    assert_eq!(m.pixel(GeoPoint { lat_e7: 3, lon_e7: 1 }), PixelOffset { x: 33, y: 0 });
    assert_eq!(m.pixel(GeoPoint { lat_e7: 1, lon_e7: 2 }), PixelOffset { x: 66, y: 66 });
    // outside the box, to the west and to the north
    assert_eq!(m.pixel(GeoPoint { lat_e7: 4, lon_e7: -1 }), PixelOffset { x: -34, y: -34 });
    assert_eq!(m.pixel(GeoPoint { lat_e7: 6, lon_e7: -3 }), PixelOffset { x: -100, y: -100 });
}

#[test]
fn points_of_the_track_fall_inside_the_padding() {
    let track = vec![point(-234_567_890, -467_000_000), point(-234_000_000, -466_512_345), point(-234_300_000, -466_900_000)];
    let m = ProjectionMapper::new(&track, canvas()).unwrap();
    for p in track.iter() {
        let at = m.pixel(p.position);
        assert!(2_000 <= at.x && at.x <= 28_000);
        assert!(2_000 <= at.y && at.y <= 28_000);
    }
}

#[test]
fn canvas_needs_room_inside_the_padding() {
    assert_eq!(Canvas::new(300, 300, 150), Some(Canvas { width: 300, height: 300, padding: 150 }));
    assert_eq!(Canvas::new(300, 300, 151), None);
    assert_eq!(Canvas::new(300, 10, 20), None);
    assert_eq!(Canvas::new(1_000_001, 300, 0), None);
    assert_eq!(Canvas::new(0, 0, u32::MAX), None);
}
