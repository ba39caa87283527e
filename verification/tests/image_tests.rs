use raylib::Image;

#[test]
fn new_image_has_rgba_buffer_shape() {
    let image = Image::new(16, 9);
    assert_eq!(image.width(), 16);
    assert_eq!(image.height(), 9);
    assert_eq!(image.buf().len(), 16 * 9 * 4);
    assert!(image.buf().iter().all(|&b| b == 0));
}

#[test]
fn new_image_zero_width() {
    let image = Image::new(0, 7);
    assert_eq!(image.width(), 0);
    assert_eq!(image.height(), 7);
    assert_eq!(image.buf().len(), 0);
}

#[test]
fn set_pixel_then_get_pixel_round_trips() {
    let mut image = Image::new(4, 3);
    image.set_pixel(2, 1, (10, 20, 30, 255));
    assert_eq!(image.get_pixel(2, 1), [10, 20, 30, 255]);
    // Row-major layout: pixel (2, 1) starts at byte 4 * (1 * 4 + 2).
    let start: usize = 4 * (1 * 4 + 2);
    assert_eq!(&image.buf()[start..start + 4], &[10, 20, 30, 255]);
}

#[test]
fn set_pixel_leaves_other_pixels_unchanged() {
    let mut image = Image::new(4, 3);
    image.set_pixel(0, 0, (1, 2, 3, 4));
    image.set_pixel(3, 2, (5, 6, 7, 8));
    assert_eq!(image.get_pixel(0, 0), [1, 2, 3, 4]);
    assert_eq!(image.get_pixel(3, 2), [5, 6, 7, 8]);
    assert_eq!(image.get_pixel(1, 0), [0, 0, 0, 0]);
    assert_eq!(image.get_pixel(2, 2), [0, 0, 0, 0]);
}

#[test]
fn set_line_fills_exactly_one_row() {
    let mut image = Image::new(3, 3);
    let line: Vec<u8> = vec![
        11, 12, 13, 255, //
        21, 22, 23, 255, //
        31, 32, 33, 255,
    ];
    image.set_line(1, line);
    assert_eq!(image.get_pixel(0, 1), [11, 12, 13, 255]);
    assert_eq!(image.get_pixel(1, 1), [21, 22, 23, 255]);
    assert_eq!(image.get_pixel(2, 1), [31, 32, 33, 255]);
    for x in 0..3 {
        assert_eq!(image.get_pixel(x, 0), [0, 0, 0, 0]);
        assert_eq!(image.get_pixel(x, 2), [0, 0, 0, 0]);
    }
}

#[test]
fn set_line_uses_only_the_leading_row_bytes() {
    let mut image = Image::new(2, 1);
    let line: Vec<u8> = vec![1, 2, 3, 4, 5, 6, 7, 8, 99, 99, 99, 99];
    image.set_line(0, line);
    assert_eq!(image.buf().as_slice(), &[1, 2, 3, 4, 5, 6, 7, 8]);
}

#[test]
fn overwriting_a_row_replaces_its_bytes() {
    let mut image = Image::new(2, 2);
    image.set_line(0, vec![1, 1, 1, 1, 2, 2, 2, 2]);
    image.set_line(0, vec![9, 9, 9, 9, 8, 8, 8, 8]);
    assert_eq!(image.get_pixel(0, 0), [9, 9, 9, 9]);
    assert_eq!(image.get_pixel(1, 0), [8, 8, 8, 8]);
    assert_eq!(image.get_pixel(0, 1), [0, 0, 0, 0]);
}
