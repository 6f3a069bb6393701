use mandelbrot::grid::PixelGrid;

#[test]
fn grid_new_keeps_dimensions() {
    let grid = PixelGrid::new(640, 480).unwrap();
    assert_eq!(grid.width, 640);
    assert_eq!(grid.height, 480);
    assert_eq!(grid.len(), 307200);
}

#[test]
fn grid_new_rejects_zero_dimension() {
    assert!(PixelGrid::new(0, 480).is_none());
    assert!(PixelGrid::new(640, 0).is_none());
    assert!(PixelGrid::new(0, 0).is_none());
}

#[test]
fn grid_new_rejects_pixel_count_past_usize() {
    assert!(PixelGrid::new(usize::MAX, 2).is_none());
    assert!(PixelGrid::new(2, usize::MAX).is_none());
    assert!(PixelGrid::new(usize::MAX, 1).is_some());
}

#[test]
fn index_zero_is_top_left_pixel() {
    let grid = PixelGrid::new(640, 480).unwrap();
    assert_eq!(grid.index_to_pixel(0), (0, 0));
}

#[test]
fn last_index_is_last_column_of_last_row() {
    let grid = PixelGrid::new(640, 480).unwrap();
    assert_eq!(grid.index_to_pixel(640 * 480 - 1), (639, 479));
}

#[test]
fn index_to_pixel_splits_row_major() {
    let grid = PixelGrid::new(1024, 768).unwrap();
    assert_eq!(grid.index_to_pixel(1023), (1023, 0));
    assert_eq!(grid.index_to_pixel(1024), (0, 1));
    assert_eq!(grid.index_to_pixel(5 * 1024 + 17), (17, 5));
    assert_eq!(grid.index_to_pixel(384 * 1024 + 512), (512, 384));
}

#[test]
fn index_past_buffer_lands_below_window() {
    let grid = PixelGrid::new(4, 3).unwrap();
    assert_eq!(grid.index_to_pixel(12), (0, 3));
    assert_eq!(grid.index_to_pixel(14), (2, 3));
}

#[test]
fn every_index_lies_inside_the_window() {
    let grid = PixelGrid::new(7, 5).unwrap();
    for index in 0..grid.len() {
        let (column, row) = grid.index_to_pixel(index);
        assert!(column < 7);
        assert!(row < 5);
        assert_eq!(row * 7 + column, index);
    }
}

#[test]
fn pixel_to_index_is_row_times_width_plus_column() {
    let grid = PixelGrid::new(640, 480).unwrap();
    assert_eq!(grid.pixel_to_index(0, 0), Some(0));
    assert_eq!(grid.pixel_to_index(320, 240), Some(153920));
    assert_eq!(grid.pixel_to_index(639, 479), Some(307199));
}

#[test]
fn pixel_to_index_rejects_pixels_outside_window() {
    let grid = PixelGrid::new(640, 480).unwrap();
    assert_eq!(grid.pixel_to_index(640, 0), None);
    assert_eq!(grid.pixel_to_index(0, 480), None);
    assert_eq!(grid.pixel_to_index(640, 480), None);
}

#[test]
fn pixel_and_index_round_trip() {
    let grid = PixelGrid::new(6, 4).unwrap();
    for row in 0..4 {
        for column in 0..6 {
            let index = grid.pixel_to_index(column, row).unwrap();
            assert_eq!(grid.index_to_pixel(index), (column, row));
        }
    }
}

#[test]
fn middle_halves_both_dimensions() {
    assert_eq!(PixelGrid::new(1024, 768).unwrap().middle(), (512, 384));
    assert_eq!(PixelGrid::new(7, 5).unwrap().middle(), (3, 2));
    assert_eq!(PixelGrid::new(1, 1).unwrap().middle(), (0, 0));
}

#[test]
fn is_valid_tells_usable_grids() {
    assert!(PixelGrid::new(640, 480).unwrap().is_valid());
    assert!(PixelGrid { width: 1, height: 1 }.is_valid());
    assert!(!PixelGrid { width: 0, height: 480 }.is_valid());
    assert!(!PixelGrid { width: 640, height: 0 }.is_valid());
    assert!(!PixelGrid { width: usize::MAX, height: 2 }.is_valid());
}
