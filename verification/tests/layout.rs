use board_view::{pixels, AssetIndex, LayoutRect, View, ViewSettings, UNITS_PER_PIXEL};

fn layout_view() -> View<u32> {
    let outcomes: Vec<Option<u32>> = (0..12).map(Some).collect();
    let textures = AssetIndex::load("pieces", outcomes).unwrap();
    View::new(ViewSettings::default(), textures)
}

fn fit(width: u32, height: u32) -> (u32, u32, u32) {
    let layout = layout_view().calculate_size(width, height);
    (layout.board_size, layout.x_offset, layout.y_offset)
}

#[test]
fn square_viewport_is_width_constrained() {
    let layout = layout_view().calculate_size(1000, 1000);
    assert_eq!(layout, LayoutRect { board_size: 600, x_offset: 200, y_offset: 200 });
}

#[test]
fn short_viewport_is_height_constrained() {
    let layout = layout_view().calculate_size(1000, 400);
    assert_eq!(layout, LayoutRect { board_size: 400, x_offset: 300, y_offset: 0 });
}

#[test]
fn board_that_just_fits_the_height_is_width_constrained() {
    assert_eq!(fit(1000, 600), (600, 200, 0));
}

#[test]
fn board_one_unit_too_tall_switches_to_the_height() {
    assert_eq!(fit(1000, 599), (599, 200, 0));
}

#[test]
fn tall_narrow_viewport_centres_the_board_vertically() {
    assert_eq!(fit(500, 2000), (300, 100, 850));
}

#[test]
fn quotients_round_down() {
    assert_eq!(fit(7, 3), (3, 2, 0));
    assert_eq!(fit(7, 100), (5, 1, 47));
    assert_eq!(fit(4, 10), (4, 0, 3));
    assert_eq!(fit(9, 8), (7, 1, 0));
}

#[test]
fn smallest_viewport_holds_a_board_of_one_unit() {
    assert_eq!(fit(1, 1), (1, 0, 0));
}

#[test]
fn largest_viewport_does_not_overflow() {
    assert_eq!(fit(u32::MAX, u32::MAX), (2576980377, 858993459, 858993459));
    assert_eq!(fit(u32::MAX, 1), (1, 2147483647, 0));
    assert_eq!(fit(1, u32::MAX), (1, 0, 2147483647));
}

#[test]
fn viewport_of_whole_pixels_is_laid_out_without_rounding() {
    let width = pixels(800).unwrap();
    let height = pixels(600).unwrap();
    let layout = layout_view().calculate_size(width, height);
    assert_eq!(layout.board_size, pixels(480).unwrap());
    assert_eq!(layout.x_offset, pixels(160).unwrap());
    assert_eq!(layout.y_offset, pixels(60).unwrap());
    assert_eq!(5 * layout.x_offset, width);
    assert_eq!(2 * layout.y_offset + layout.board_size, height);
}

#[test]
fn board_lies_within_every_viewport_tried() {
    let sizes = [1u32, 2, 3, 4, 5, 6, 7, 9, 10, 11, 39, 40, 41, 99, 640, 1000, 1920, 65535];
    for &width in sizes.iter() {
        for &height in sizes.iter() {
            let layout = layout_view().calculate_size(width, height);
            assert!(layout.board_size <= width.min(height));
            assert!(layout.x_offset + layout.board_size <= width);
            assert!(layout.y_offset + layout.board_size <= height);
            let right = width - layout.board_size - layout.x_offset;
            assert!(right == layout.x_offset || right == layout.x_offset + 1);
        }
    }
}

#[test]
fn pixels_scales_by_the_unit() {
    assert_eq!(UNITS_PER_PIXEL, 40);
    assert_eq!(pixels(0), Some(0));
    assert_eq!(pixels(1), Some(40));
    assert_eq!(pixels(640), Some(25600));
    assert_eq!(pixels(107374182), Some(4294967280));
}

#[test]
fn pixels_reports_what_does_not_fit() {
    assert_eq!(pixels(107374183), None);
    assert_eq!(pixels(u32::MAX), None);
}
