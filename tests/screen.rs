use rust_tracer::raster::{pixel_index, render};
use rust_tracer::screen::{screen_offset, Ratio, ScreenOffset};

fn r(num: i64, den: i64) -> Ratio {
    Ratio { num, den }
}

#[test]
fn square_image_is_not_stretched() {
    // (x + 0.5) / 10, (y + 0.5) / 10
    let o = screen_offset(3, 7, 10, 10);
    assert_eq!(o, ScreenOffset { x: r(7, 20), y: r(15, 20) });
}

#[test]
fn wide_image_stretches_x_around_centre() {
    // (x + 0.5 - 400) / 600 + 0.5, (y + 0.5) / 600
    assert_eq!(screen_offset(400, 300, 800, 600), ScreenOffset { x: r(601, 1200), y: r(601, 1200) });
    assert_eq!(screen_offset(0, 0, 800, 600), ScreenOffset { x: r(-199, 1200), y: r(1, 1200) });
    assert_eq!(screen_offset(799, 599, 800, 600), ScreenOffset { x: r(1399, 1200), y: r(1199, 1200) });
}

#[test]
fn tall_image_stretches_y_around_centre() {
    // (x + 0.5) / 600, (y + 0.5 - 400) / 600 + 0.5
    assert_eq!(screen_offset(300, 400, 600, 800), ScreenOffset { x: r(601, 1200), y: r(601, 1200) });
    assert_eq!(screen_offset(0, 0, 600, 800), ScreenOffset { x: r(1, 1200), y: r(-199, 1200) });
}

#[test]
fn centre_pixel_of_odd_image_maps_to_half() {
    assert_eq!(screen_offset(2, 1, 5, 3), ScreenOffset { x: r(3, 6), y: r(3, 6) });
    assert_eq!(screen_offset(1, 2, 3, 5), ScreenOffset { x: r(3, 6), y: r(3, 6) });
}

#[test]
fn pixel_index_is_row_major() {
    assert_eq!(pixel_index(0, 0, 800, 600), 0);
    assert_eq!(pixel_index(5, 2, 800, 600), 1605);
    assert_eq!(pixel_index(799, 599, 800, 600), 479_999);
}

#[test]
fn render_writes_each_pixel_at_its_index() {
    let img = render(3, 2, |x, y| (10 * y + x) as u8);
    assert_eq!(img, vec![0, 1, 2, 10, 11, 12]);
    assert!(render(0, 5, |_, _| 1).is_empty());
}
