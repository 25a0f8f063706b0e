use disk_art::canvas::Canvas;

#[test]
fn new_canvas_is_all_zero() {
    let canvas = Canvas::new(4);
    assert_eq!(canvas.size(), 4);
    for r in 0..4 {
        for c in 0..4 {
            for ch in 0..3 {
                assert_eq!(canvas.channel_word(r, c, ch), 0);
            }
        }
    }
}

#[test]
fn set_pixel_overwrites_only_its_pixel() {
    let mut canvas = Canvas::new(3);
    canvas.set_pixel(1, 2, (10, 20, 30));
    assert_eq!(canvas.pixel(1, 2), (10, 20, 30));
    for r in 0..3 {
        for c in 0..3 {
            if (r, c) != (1, 2) {
                assert_eq!(canvas.pixel(r, c), (0, 0, 0));
            }
        }
    }
    // a second write overwrites, it does not blend
    canvas.set_pixel(1, 2, (7, 8, 9));
    assert_eq!(canvas.pixel(1, 2), (7, 8, 9));
}
