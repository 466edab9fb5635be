use beavy_game::cursor::{my_cursor_system, single, CursorCoords, CursorError, QuerySingleError};
use beavy_game::geometry::{Point, Size, Tile};
use beavy_game::picking::pick;

#[test]
fn cursor_starts_at_origin() {
    assert_eq!(CursorCoords::new(), CursorCoords(Point::new(0, 0)));
    assert_eq!(CursorCoords::default().position(), Point::origin());
}

#[test]
fn single_needs_exactly_one_match() {
    assert_eq!(single(0), Err(QuerySingleError::NoEntities));
    assert_eq!(single(1), Ok(()));
    assert_eq!(single(2), Err(QuerySingleError::MultipleEntities));
    assert_eq!(single(usize::MAX), Err(QuerySingleError::MultipleEntities));
}

#[test]
fn present_pointer_replaces_coordinates() {
    let mut coords = CursorCoords::new();
    assert_eq!(my_cursor_system(&mut coords, 1, 1, Some(Point::new(12, -7))), Ok(()));
    assert_eq!(coords, CursorCoords(Point::new(12, -7)));
    assert_eq!(my_cursor_system(&mut coords, 1, 1, Some(Point::new(-1, 3))), Ok(()));
    assert_eq!(coords.position(), Point::new(-1, 3));
}

#[test]
fn cursor_is_sticky_while_pointer_is_absent() {
    let mut coords = CursorCoords::new();
    assert_eq!(my_cursor_system(&mut coords, 1, 1, Some(Point::new(40, 25))), Ok(()));
    for _ in 0..100 {
        assert_eq!(my_cursor_system(&mut coords, 1, 1, None), Ok(()));
        assert_eq!(coords, CursorCoords(Point::new(40, 25)));
    }
    assert_eq!(my_cursor_system(&mut coords, 1, 1, Some(Point::new(1, 1))), Ok(()));
    assert_eq!(coords, CursorCoords(Point::new(1, 1)));
}

#[test]
fn absent_pointer_before_any_resolution_leaves_origin() {
    let mut coords = CursorCoords::new();
    for _ in 0..3 {
        assert_eq!(my_cursor_system(&mut coords, 1, 1, None), Ok(()));
    }
    assert_eq!(coords, CursorCoords(Point::new(0, 0)));
}

#[test]
fn missing_camera_is_reported() {
    let mut coords = CursorCoords(Point::new(3, 4));
    assert_eq!(
        my_cursor_system(&mut coords, 0, 1, Some(Point::new(9, 9))),
        Err(CursorError::Camera(QuerySingleError::NoEntities))
    );
    assert_eq!(coords, CursorCoords(Point::new(3, 4)));
}

#[test]
fn several_cameras_are_reported() {
    let mut coords = CursorCoords(Point::new(3, 4));
    assert_eq!(
        my_cursor_system(&mut coords, 2, 1, Some(Point::new(9, 9))),
        Err(CursorError::Camera(QuerySingleError::MultipleEntities))
    );
    assert_eq!(coords, CursorCoords(Point::new(3, 4)));
}

#[test]
fn missing_window_is_reported() {
    let mut coords = CursorCoords(Point::new(3, 4));
    assert_eq!(
        my_cursor_system(&mut coords, 1, 0, Some(Point::new(9, 9))),
        Err(CursorError::Window(QuerySingleError::NoEntities))
    );
    assert_eq!(coords, CursorCoords(Point::new(3, 4)));
}

#[test]
fn several_windows_are_reported() {
    let mut coords = CursorCoords(Point::new(3, 4));
    assert_eq!(
        my_cursor_system(&mut coords, 1, 5, None),
        Err(CursorError::Window(QuerySingleError::MultipleEntities))
    );
    assert_eq!(coords, CursorCoords(Point::new(3, 4)));
}

#[test]
fn camera_is_looked_up_before_window() {
    let mut coords = CursorCoords::new();
    assert_eq!(
        my_cursor_system(&mut coords, 0, 0, None),
        Err(CursorError::Camera(QuerySingleError::NoEntities))
    );
    assert_eq!(
        my_cursor_system(&mut coords, 3, 0, None),
        Err(CursorError::Camera(QuerySingleError::MultipleEntities))
    );
}

#[test]
fn failed_tick_does_not_stop_the_next() {
    let mut coords = CursorCoords::new();
    assert!(my_cursor_system(&mut coords, 0, 1, Some(Point::new(5, 5))).is_err());
    assert_eq!(my_cursor_system(&mut coords, 1, 1, Some(Point::new(5, 5))), Ok(()));
    assert_eq!(coords, CursorCoords(Point::new(5, 5)));
}

#[test]
fn tile_contains_its_edges_and_corners() {
    let tile = Tile::new(Point::new(10, 20), Size::new(30, 40));
    assert!(tile.contains(&Point::new(10, 20)));
    assert!(tile.contains(&Point::new(40, 60)));
    assert!(tile.contains(&Point::new(10, 60)));
    assert!(tile.contains(&Point::new(40, 20)));
    assert!(tile.contains(&Point::new(25, 40)));
    assert!(!tile.contains(&Point::new(9, 40)));
    assert!(!tile.contains(&Point::new(41, 40)));
    assert!(!tile.contains(&Point::new(25, 19)));
    assert!(!tile.contains(&Point::new(25, 61)));
}

#[test]
fn tile_at_the_end_of_the_range_does_not_overflow() {
    let tile = Tile::new(Point::new(i32::MAX, i32::MAX), Size::new(i32::MAX, i32::MAX));
    assert!(tile.contains(&Point::new(i32::MAX, i32::MAX)));
    assert!(!tile.contains(&Point::new(i32::MAX - 1, i32::MAX)));
    let inverted = Tile::new(Point::new(0, 0), Size::new(-1, 5));
    assert!(!inverted.contains(&Point::new(0, 0)));
}

#[test]
fn cursor_on_right_edge_hits_the_tile() {
    let tiles = vec![Tile::new(Point::new(100, 100), Size::new(32, 32))];
    let cursor = CursorCoords(Point::new(132, 110));
    assert_eq!(pick(&cursor, &tiles), Some(0));
    let outside = CursorCoords(Point::new(133, 110));
    assert_eq!(pick(&outside, &tiles), None);
}

#[test]
fn shared_edge_picks_the_first_tile_in_order() {
    let left = Tile::new(Point::new(0, 0), Size::new(32, 32));
    let right = Tile::new(Point::new(32, 0), Size::new(32, 32));
    let cursor = CursorCoords(Point::new(32, 16));
    assert_eq!(pick(&cursor, &vec![left, right]), Some(0));
    assert_eq!(pick(&cursor, &vec![right, left]), Some(0));
    let in_right = CursorCoords(Point::new(33, 16));
    assert_eq!(pick(&in_right, &vec![left, right]), Some(1));
}

#[test]
fn pick_reports_no_match() {
    let cursor = CursorCoords(Point::new(500, 500));
    let tiles = vec![
        Tile::new(Point::new(0, 0), Size::new(32, 32)),
        Tile::new(Point::new(32, 0), Size::new(32, 32)),
    ];
    assert_eq!(pick(&cursor, &tiles), None);
    assert_eq!(pick(&cursor, &Vec::new()), None);
}

#[test]
fn pick_is_idempotent() {
    let cursor = CursorCoords(Point::new(5, 5));
    let tiles = vec![
        Tile::new(Point::new(10, 10), Size::new(5, 5)),
        Tile::new(Point::new(0, 0), Size::new(10, 10)),
    ];
    let before = tiles.clone();
    let first = pick(&cursor, &tiles);
    let second = pick(&cursor, &tiles);
    assert_eq!(first, Some(1));
    assert_eq!(first, second);
    assert_eq!(tiles, before);
    assert_eq!(cursor, CursorCoords(Point::new(5, 5)));
}

#[test]
fn pointer_at_window_centre_hits_tile_around_origin() {
    // An identity-zoom camera at the origin maps a pixel of an 800 by 600
    // window to the world by moving the origin to the window's centre and
    // turning the vertical axis upwards.
    let (width, height) = (800, 600);
    let (pixel_x, pixel_y) = (400, 300);
    let camera = Point::new(0, 0);
    let world = Point::new(camera.x + pixel_x - width / 2, camera.y + height / 2 - pixel_y);

    let mut coords = CursorCoords::new();
    assert_eq!(my_cursor_system(&mut coords, 1, 1, Some(world)), Ok(()));
    assert_eq!(coords, CursorCoords(Point::new(0, 0)));

    let tiles = vec![
        Tile::new(Point::new(200, 200), Size::new(20, 20)),
        Tile::new(Point::new(-10, -10), Size::new(20, 20)),
    ];
    assert_eq!(pick(&coords, &tiles), Some(1));
}
