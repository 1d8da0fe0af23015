use langton_ant::ant::Direction;
use langton_ant::viewport::{Viewport, VIEW_MOVE_STEP, VIEW_ZOOM_MINUS, VIEW_ZOOM_PLUS};

fn state(v: &Viewport) -> (u64, u32, u32, i64, i64) {
    (v.square_size(), v.squares_per_line(), v.squares_per_column(), v.pos_x(), v.pos_y())
}

fn clamped(v: &Viewport) -> bool {
    let low_x = (v.squares_per_line() / 2) as i64;
    let low_y = (v.squares_per_column() / 2) as i64;
    low_x <= v.pos_x()
        && v.pos_x() <= v.map_width() as i64 - low_x
        && low_y <= v.pos_y()
        && v.pos_y() <= v.map_height() as i64 - low_y
}

#[test]
fn viewport_new_rejects_a_map_without_area() {
    assert!(Viewport::new(800, 600, 0, 5).is_none());
    assert!(Viewport::new(800, 600, 5, 0).is_none());
    assert!(Viewport::new(0, 0, 5, 5).is_some());
}

#[test]
fn fit_takes_the_larger_quotient() {
    let v = Viewport::new(800, 600, 10, 10).unwrap();
    assert_eq!(state(&v), (80, 10, 7, 5, 5));
    let v = Viewport::new(800, 600, 100, 10).unwrap();
    assert_eq!(state(&v), (60, 13, 10, 50, 5));
    assert_eq!((v.screen_width(), v.screen_height()), (800, 600));
    assert_eq!((v.map_width(), v.map_height()), (100, 10));
    assert!(v.follow_ant());
}

#[test]
fn fit_never_goes_under_one_pixel() {
    let v = Viewport::new(800, 600, 5000, 5000).unwrap();
    assert_eq!(state(&v), (1, 800, 600, 2500, 2500));
    let v = Viewport::new(0, 0, 7, 7).unwrap();
    assert_eq!(state(&v), (1, 0, 0, 3, 3));
}

#[test]
fn default_sizes_start_at_one_pixel() {
    let v = Viewport::new(800, 600, 500, 500).unwrap();
    assert_eq!(state(&v), (1, 500, 500, 250, 250));
}

#[test]
fn zoom_in_scales_and_rounds_down() {
    let mut v = Viewport::new(800, 600, 10, 10).unwrap();
    assert!(v.zoom(11, 10));
    assert_eq!(state(&v), (88, 9, 6, 5, 5));
    assert!(v.zoom(3, 2));
    assert_eq!(state(&v), (132, 6, 4, 5, 5));
}

#[test]
fn zoom_nudges_where_rounding_stands_still() {
    let mut v = Viewport::new(800, 600, 500, 500).unwrap();
    assert!(v.zoom(VIEW_ZOOM_PLUS.0, VIEW_ZOOM_PLUS.1));
    assert_eq!(v.square_size(), 2);
    assert_eq!((v.squares_per_line(), v.squares_per_column()), (400, 300));
    assert!(v.zoom(11, 10));
    assert_eq!(v.square_size(), 3);
    for expected in [4, 5, 6, 7, 8, 9, 10, 11, 12, 13, 14, 15, 16, 17, 18, 19, 20, 22, 24] {
        assert!(v.zoom(11, 10));
        assert_eq!(v.square_size(), expected);
    }
}

#[test]
fn zoom_out_scales_down_to_one_pixel_and_stops() {
    let mut v = Viewport::new(800, 600, 10, 10).unwrap();
    assert!(v.zoom(VIEW_ZOOM_MINUS.0, VIEW_ZOOM_MINUS.1));
    assert_eq!(state(&v), (72, 10, 8, 5, 5));
    let mut sizes = vec![];
    while v.zoom(9, 10) {
        assert!(v.square_size() >= 1);
        assert!(clamped(&v));
        sizes.push(v.square_size());
    }
    assert_eq!(&sizes[..6], &[64, 57, 51, 45, 40, 36]);
    assert_eq!(&sizes[sizes.len() - 4..], &[4, 3, 2, 1]);
    assert_eq!(state(&v), (1, 10, 10, 5, 5));
    assert!(!v.zoom(9, 10));
    assert!(!v.zoom(1, 2));
    assert_eq!(state(&v), (1, 10, 10, 5, 5));
}

#[test]
fn zoom_in_stops_at_the_smaller_side_of_the_window() {
    let mut v = Viewport::new(800, 600, 10, 10).unwrap();
    assert!(v.zoom(600, 80));
    assert_eq!(state(&v), (600, 1, 1, 5, 5));
    assert!(!v.zoom(11, 10));
    assert!(!v.zoom(1000, 1));
    assert_eq!(state(&v), (600, 1, 1, 5, 5));
}

#[test]
fn zoom_in_from_under_the_limit_may_pass_it() {
    let mut v = Viewport::new(800, 600, 10, 10).unwrap();
    assert!(v.zoom(599, 80));
    assert_eq!(v.square_size(), 599);
    assert!(v.zoom(11, 10));
    assert_eq!(state(&v), (658, 1, 0, 5, 5));
    assert!(!v.zoom(11, 10));
    assert!(v.zoom(9, 10));
    assert_eq!(v.square_size(), 592);
}

#[test]
fn zoom_by_one_does_nothing() {
    let mut v = Viewport::new(800, 600, 10, 10).unwrap();
    assert!(!v.zoom(1, 1));
    assert!(!v.zoom(7, 7));
    assert_eq!(state(&v), (80, 10, 7, 5, 5));
}

#[test]
fn zoom_takes_the_largest_factors() {
    let mut v = Viewport::new(u32::MAX, u32::MAX, 1, 1).unwrap();
    assert_eq!(v.square_size(), u32::MAX as u64);
    assert!(!v.zoom(u32::MAX, 1));
    assert!(v.zoom(1, 2));
    assert_eq!(v.square_size(), (u32::MAX / 2) as u64);
    assert!(v.zoom(u32::MAX, 1));
    assert_eq!(v.square_size(), (u32::MAX / 2) as u64 * u32::MAX as u64);
    assert_eq!((v.squares_per_line(), v.squares_per_column()), (0, 0));
    assert!(v.zoom(u32::MAX - 1, u32::MAX));
    assert!(v.square_size() < (u32::MAX / 2) as u64 * u32::MAX as u64);
}

#[test]
fn panning_is_off_while_the_camera_follows() {
    let mut v = Viewport::new(100, 100, 50, 50).unwrap();
    assert!(v.follow_ant());
    let before = state(&v);
    for d in [Direction::Up, Direction::Right, Direction::Down, Direction::Left] {
        assert!(!v.move_view(d));
        assert_eq!(state(&v), before);
    }
}

#[test]
fn panning_moves_five_cells_within_the_bounds() {
    assert_eq!(VIEW_MOVE_STEP, 5);
    let mut v = Viewport::new(40, 40, 100, 100).unwrap();
    v.toggle_follow();
    assert!(!v.follow_ant());
    assert_eq!(state(&v), (1, 40, 40, 50, 50));
    assert!(v.move_view(Direction::Up));
    assert_eq!((v.pos_x(), v.pos_y()), (50, 45));
    assert!(v.move_view(Direction::Left));
    assert_eq!((v.pos_x(), v.pos_y()), (45, 45));
    assert!(v.move_view(Direction::Down));
    assert!(v.move_view(Direction::Down));
    assert_eq!((v.pos_x(), v.pos_y()), (45, 55));
    assert!(v.move_view(Direction::Right));
    assert_eq!((v.pos_x(), v.pos_y()), (50, 55));
    for _ in 0..20 {
        assert!(v.move_view(Direction::Up));
        assert!(v.move_view(Direction::Left));
    }
    assert_eq!((v.pos_x(), v.pos_y()), (20, 20));
    for _ in 0..20 {
        assert!(v.move_view(Direction::Down));
        assert!(v.move_view(Direction::Right));
    }
    assert_eq!((v.pos_x(), v.pos_y()), (80, 80));
}

#[test]
fn single_moves_clamp_like_panning() {
    let mut v = Viewport::new(40, 40, 100, 100).unwrap();
    for _ in 0..7 {
        v.move_view_up();
    }
    assert_eq!((v.pos_x(), v.pos_y()), (50, 20));
    for _ in 0..7 {
        v.move_view_left();
    }
    assert_eq!((v.pos_x(), v.pos_y()), (20, 20));
    for _ in 0..13 {
        v.move_view_down();
        v.move_view_right();
    }
    assert_eq!((v.pos_x(), v.pos_y()), (80, 80));
}

#[test]
fn recentring_waits_for_a_quarter_of_the_window() {
    let mut v = Viewport::new(40, 20, 100, 100).unwrap();
    assert_eq!(state(&v), (1, 40, 20, 50, 50));
    for (x, y) in [(50, 50), (40, 45), (60, 55), (40, 55), (60, 45), (55, 47)] {
        v.set_view_above_ant(x, y);
        assert_eq!((v.pos_x(), v.pos_y()), (50, 50), "({}, {})", x, y);
    }
    v.set_view_above_ant(61, 50);
    assert_eq!((v.pos_x(), v.pos_y()), (61, 50));
    v.set_view_above_ant(61, 44);
    assert_eq!((v.pos_x(), v.pos_y()), (61, 44));
    v.set_view_above_ant(50, 44);
    assert_eq!((v.pos_x(), v.pos_y()), (50, 44));
    v.set_view_above_ant(50, 55);
    assert_eq!((v.pos_x(), v.pos_y()), (50, 55));
}

#[test]
fn recentring_keeps_the_window_on_the_grid() {
    let mut v = Viewport::new(40, 20, 100, 100).unwrap();
    v.set_view_above_ant(0, 0);
    assert_eq!((v.pos_x(), v.pos_y()), (20, 10));
    v.set_view_above_ant(99, 99);
    assert_eq!((v.pos_x(), v.pos_y()), (80, 90));
    v.set_view_above_ant(-1000, 5000);
    assert_eq!((v.pos_x(), v.pos_y()), (20, 90));
    v.set_view_above_ant(i64::MAX, i64::MIN);
    assert_eq!((v.pos_x(), v.pos_y()), (80, 10));
    assert!(clamped(&v));
}

#[test]
fn adjust_leaves_a_centre_between_the_bounds_alone() {
    let mut v = Viewport::new(40, 20, 100, 100).unwrap();
    v.set_view_above_ant(70, 30);
    v.adjust_view_position();
    assert_eq!((v.pos_x(), v.pos_y()), (70, 30));
    v.update_scale();
    assert_eq!(state(&v), (1, 40, 20, 70, 30));
    v.fit();
    assert_eq!(v.square_size(), 1);
}

#[test]
fn the_centre_stays_between_its_bounds_through_zooms() {
    let mut v = Viewport::new(640, 480, 500, 300).unwrap();
    v.set_view_above_ant(499, 0);
    assert!(clamped(&v));
    for _ in 0..80 {
        v.zoom(11, 10);
        assert!(clamped(&v));
        assert!(v.squares_per_line() <= 500 && v.squares_per_column() <= 300);
    }
    v.set_view_above_ant(0, 299);
    for _ in 0..80 {
        v.zoom(9, 10);
        assert!(clamped(&v));
        assert!(v.square_size() >= 1);
    }
    assert_eq!(v.square_size(), 1);
}

#[test]
fn a_window_larger_than_the_grid_is_centred_on_it() {
    let mut v = Viewport::new(800, 600, 11, 7).unwrap();
    v.zoom(1, 72);
    assert_eq!(state(&v), (1, 11, 7, 5, 3));
    v.set_view_above_ant(0, 0);
    assert_eq!((v.pos_x(), v.pos_y()), (5, 3));
    v.set_view_above_ant(10, 6);
    assert_eq!((v.pos_x(), v.pos_y()), (6, 4));
}
