use epd47::{Display, DrawMode, Rectangle};

#[test]
fn set_pixel_reads_back_and_taints_row() {
    let mut d = Display::new();
    assert!(!d.is_tainted(7));
    assert_eq!(d.set_pixel(3, 7, 9), Ok(()));
    assert_eq!(d.get_pixel(3, 7), Ok(9));
    assert!(d.is_tainted(7));
    // neighbours keep the all-white default
    assert_eq!(d.get_pixel(2, 7), Ok(15));
    assert_eq!(d.get_pixel(3, 8), Ok(15));
    assert!(!d.is_tainted(8));
}

#[test]
fn set_pixel_even_and_odd_columns_share_a_byte() {
    let mut d = Display::new();
    assert_eq!(d.set_pixel(0, 0, 7), Ok(()));
    assert_eq!(d.get_pixel(0, 0), Ok(7));
    assert_eq!(d.get_pixel(1, 0), Ok(15));
    assert_eq!(d.set_pixel(1, 0, 3), Ok(()));
    assert_eq!(d.get_pixel(1, 0), Ok(3));
    assert_eq!(d.get_pixel(0, 0), Ok(7));
}

#[test]
fn set_pixel_out_of_bounds_is_rejected() {
    let mut d = Display::new();
    assert_eq!(d.set_pixel(960, 0, 5), Err(epd47::Error::OutOfBounds));
    assert_eq!(d.set_pixel(0, 540, 5), Err(epd47::Error::OutOfBounds));
    assert_eq!(d.set_pixel(65535, 65535, 5), Err(epd47::Error::OutOfBounds));
    // nothing changed
    assert_eq!(d.get_pixel(0, 0), Ok(15));
    for row in 0..540 {
        assert!(!d.is_tainted(row));
    }
}

#[test]
fn invalid_color_is_rejected_by_set_pixel_and_fill() {
    let mut d = Display::new();
    assert_eq!(d.set_pixel(1, 1, 16), Err(epd47::Error::InvalidColor));
    assert_eq!(d.set_pixel(1, 1, 255), Err(epd47::Error::InvalidColor));
    assert_eq!(d.fill(16), Err(epd47::Error::InvalidColor));
    assert_eq!(d.fill(255), Err(epd47::Error::InvalidColor));
    assert_eq!(d.get_pixel(1, 1), Ok(15));
    assert!(!d.is_tainted(1));
}

#[test]
fn fill_sets_every_pixel_and_taints_every_row() {
    let mut d = Display::new();
    assert_eq!(d.fill(5), Ok(()));
    assert_eq!(d.get_pixel(0, 0), Ok(5));
    assert_eq!(d.get_pixel(959, 539), Ok(5));
    assert_eq!(d.get_pixel(480, 270), Ok(5));
    for row in 0..540 {
        assert!(d.is_tainted(row));
    }
}

#[test]
fn fill_then_flush_taints_then_clears_every_row() {
    let mut d = Display::new();
    assert_eq!(d.fill(3), Ok(()));
    for row in 0..540 {
        assert!(d.is_tainted(row));
    }
    assert_eq!(d.flush(DrawMode::BlackOnWhite), Ok(()));
    for row in 0..540 {
        assert!(!d.is_tainted(row));
    }
    assert_eq!(d.get_pixel(0, 0), Ok(15));
    assert_eq!(d.get_pixel(959, 539), Ok(15));
    assert_eq!(d.get_pixel(123, 456), Ok(15));
}

#[test]
fn bounding_box_covers_the_panel() {
    let r = epd47::display::bounding_box();
    assert_eq!(
        r,
        Rectangle { x: 0, y: 0, width: 960, height: 540 }
    );
}
