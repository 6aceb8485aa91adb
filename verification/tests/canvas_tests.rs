use iron_rainbow::canvas::PixelCanvas;

const WHITE: (u8, u8, u8) = (255, 255, 255);
const RED: (u8, u8, u8) = (255, 0, 0);

fn painted(c: &PixelCanvas, color: (u8, u8, u8)) -> Vec<(u32, u32)> {
    let (w, h) = c.dimensions();
    let mut out = Vec::new();
    for y in 0..h {
        for x in 0..w {
            if c.pixel(x, y) == Some(color) {
                out.push((x, y));
            }
        }
    }
    out
}

#[test]
fn new_canvas_is_white_and_sized() {
    let c = PixelCanvas::new(4, 3);
    assert_eq!(c.dimensions(), (4, 3));
    for y in 0..3 {
        for x in 0..4 {
            assert_eq!(c.pixel(x, y), Some(WHITE));
        }
    }
    assert_eq!(c.pixel(4, 0), None);
    assert_eq!(c.pixel(0, 3), None);
}

#[test]
fn draw_pixel_sets_only_that_pixel() {
    let mut c = PixelCanvas::new(4, 3);
    c.draw_pixel(2, 1, RED);
    assert_eq!(c.pixel(2, 1), Some(RED));
    assert_eq!(painted(&c, RED), vec![(2, 1)]);
}

#[test]
fn draw_pixel_outside_changes_nothing() {
    let mut c = PixelCanvas::new(4, 3);
    c.draw_pixel(-1, 0, RED);
    c.draw_pixel(4, 0, RED);
    c.draw_pixel(0, 3, RED);
    assert!(painted(&c, RED).is_empty());
}

#[test]
fn in_bounds_matches_size() {
    let c = PixelCanvas::new(4, 3);
    assert!(c.in_bounds(0, 0));
    assert!(c.in_bounds(3, 2));
    assert!(!c.in_bounds(4, 2));
    assert!(!c.in_bounds(-1, 2));
}

#[test]
fn horizontal_line() {
    let mut c = PixelCanvas::new(6, 3);
    c.draw_line(1, 1, 4, 1, RED);
    assert_eq!(painted(&c, RED), vec![(1, 1), (2, 1), (3, 1), (4, 1)]);
}

#[test]
fn diagonal_line_both_directions() {
    let mut c = PixelCanvas::new(5, 5);
    c.draw_line(4, 4, 0, 0, RED);
    assert_eq!(
        painted(&c, RED),
        vec![(0, 0), (1, 1), (2, 2), (3, 3), (4, 4)]
    );
}

#[test]
fn shallow_line_pixels() {
    // from (0,0) to (4,2): x-major, three rows
    let mut c = PixelCanvas::new(5, 3);
    c.draw_line(0, 0, 4, 2, RED);
    assert_eq!(
        painted(&c, RED),
        vec![(0, 0), (1, 0), (2, 1), (3, 1), (4, 2)]
    );
}

#[test]
fn line_is_clipped_to_canvas() {
    let mut c = PixelCanvas::new(3, 3);
    c.draw_line(-2, 1, 5, 1, RED);
    assert_eq!(painted(&c, RED), vec![(0, 1), (1, 1), (2, 1)]);
}

#[test]
fn single_point_line() {
    let mut c = PixelCanvas::new(3, 3);
    c.draw_line(1, 2, 1, 2, RED);
    assert_eq!(painted(&c, RED), vec![(1, 2)]);
}

#[test]
fn filled_circle_radius_one() {
    let mut c = PixelCanvas::new(5, 5);
    c.draw_filled_circle(2, 2, 1, RED);
    assert_eq!(
        painted(&c, RED),
        vec![(2, 1), (1, 2), (2, 2), (3, 2), (2, 3)]
    );
}

#[test]
fn filled_circle_radius_two_is_symmetric() {
    let mut c = PixelCanvas::new(7, 7);
    c.draw_filled_circle(3, 3, 2, RED);
    let cells = painted(&c, RED);
    assert_eq!(cells.len(), 13);
    for &(x, y) in &cells {
        assert!(cells.contains(&(6 - x, y)));
        assert!(cells.contains(&(x, 6 - y)));
    }
}

#[test]
fn filled_circle_negative_radius_draws_nothing() {
    let mut c = PixelCanvas::new(5, 5);
    c.draw_filled_circle(2, 2, -1, RED);
    assert!(painted(&c, RED).is_empty());
}

#[test]
fn filled_circle_near_edge_is_clipped() {
    let mut c = PixelCanvas::new(3, 3);
    c.draw_filled_circle(0, 0, 1, RED);
    assert_eq!(painted(&c, RED), vec![(0, 0), (1, 0), (0, 1)]);
}

#[test]
fn fill_rect_corners_in_any_order() {
    let mut c = PixelCanvas::new(5, 4);
    c.fill_rect(3, 2, 1, 1, RED);
    assert_eq!(
        painted(&c, RED),
        vec![(1, 1), (2, 1), (3, 1), (1, 2), (2, 2), (3, 2)]
    );
}

#[test]
fn fill_rect_is_clipped() {
    let mut c = PixelCanvas::new(3, 2);
    c.fill_rect(-5, -5, 10, 10, RED);
    assert_eq!(painted(&c, RED).len(), 6);
}

#[test]
fn fill_rect_outside_draws_nothing() {
    let mut c = PixelCanvas::new(3, 2);
    c.fill_rect(5, 5, 8, 8, RED);
    assert!(painted(&c, RED).is_empty());
}

#[test]
fn image_buffer_holds_the_pixels() {
    let mut c = PixelCanvas::new(2, 2);
    c.draw_pixel(1, 0, RED);
    let img = &c.image().0;
    assert_eq!(img.width(), 2);
    assert_eq!(img.get_pixel(1, 0).0, [255, 0, 0]);
    assert_eq!(img.get_pixel(0, 0).0, [255, 255, 255]);
}
