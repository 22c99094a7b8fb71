use rtc::Canvas;

#[test]
fn test_set_get_pixel() {
    let mut canvas = Canvas::new(10, 10);
    canvas.set_pixel(5, 5, 255, 0, 0);

    assert_eq!(canvas.get_pixel(5, 5), Some((255, 0, 0)));
    assert_eq!(canvas.get_pixel(0, 0), Some((0, 0, 0)));
}

#[test]
fn test_save_as_ppm() {
    let mut canvas = Canvas::new(3, 3);
    canvas.set_pixel(0, 0, 255, 0, 0);
    canvas.set_pixel(1, 0, 0, 255, 0);
    canvas.set_pixel(2, 0, 0, 0, 255);

    let contents = String::from_utf8(canvas.to_ppm()).unwrap();
    let expected_output = "P3\n3 3\n255\n255 0 0\n0 255 0\n0 0 255\n0 0 0\n0 0 0\n0 0 0\n0 0 0\n0 0 0\n0 0 0\n";

    assert_eq!(contents, expected_output);
}

#[test]
fn new_canvas_has_its_size_and_is_black() {
    let canvas = Canvas::new(4, 2);
    assert_eq!(canvas.width(), 4);
    assert_eq!(canvas.height(), 2);
    for y in 0..2 {
        for x in 0..4 {
            assert_eq!(canvas.get_pixel(x, y), Some((0, 0, 0)));
        }
    }
}

#[test]
fn get_pixel_outside_is_none() {
    let canvas = Canvas::new(4, 2);
    assert_eq!(canvas.get_pixel(4, 0), None);
    assert_eq!(canvas.get_pixel(0, 2), None);
    assert_eq!(canvas.get_pixel(usize::MAX, usize::MAX), None);
}

#[test]
fn set_pixel_outside_changes_nothing() {
    let mut canvas = Canvas::new(2, 2);
    canvas.set_pixel(2, 0, 1, 2, 3);
    canvas.set_pixel(0, 2, 1, 2, 3);
    assert_eq!(String::from_utf8(canvas.to_ppm()).unwrap(), "P3\n2 2\n255\n0 0 0\n0 0 0\n0 0 0\n0 0 0\n");
}

#[test]
fn set_pixel_keeps_all_three_channels_and_other_cells() {
    let mut canvas = Canvas::new(3, 2);
    canvas.set_pixel(2, 1, 12, 34, 56);
    canvas.set_pixel(0, 1, 255, 128, 7);
    assert_eq!(canvas.get_pixel(2, 1), Some((12, 34, 56)));
    assert_eq!(canvas.get_pixel(0, 1), Some((255, 128, 7)));
    assert_eq!(canvas.get_pixel(1, 1), Some((0, 0, 0)));
    canvas.set_pixel(2, 1, 0, 0, 1);
    assert_eq!(canvas.get_pixel(2, 1), Some((0, 0, 1)));
}

#[test]
fn ppm_of_row_major_pixels_with_multi_digit_sizes() {
    let mut canvas = Canvas::new(12, 1);
    canvas.set_pixel(11, 0, 9, 10, 100);
    let text = String::from_utf8(canvas.to_ppm()).unwrap();
    let mut expected = String::from("P3\n12 1\n255\n");
    for _ in 0..11 {
        expected.push_str("0 0 0\n");
    }
    expected.push_str("9 10 100\n");
    assert_eq!(text, expected);
}

#[test]
fn ppm_of_empty_canvas_is_header_only() {
    let canvas = Canvas::new(0, 5);
    assert_eq!(String::from_utf8(canvas.to_ppm()).unwrap(), "P3\n0 5\n255\n");
}

#[test]
fn ppm_rows_come_top_to_bottom() {
    let mut canvas = Canvas::new(2, 2);
    canvas.set_pixel(0, 1, 1, 1, 1);
    canvas.set_pixel(1, 0, 2, 2, 2);
    assert_eq!(
        String::from_utf8(canvas.to_ppm()).unwrap(),
        "P3\n2 2\n255\n0 0 0\n2 2 2\n1 1 1\n0 0 0\n"
    );
}
