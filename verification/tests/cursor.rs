use kcshot::cursor::{overlay_cursor, CursorImage, ScreenBounds};

#[test]
fn opaque_cursor_pixels_replace_the_screenshot() {
    // A 2 x 1 cursor whose hotspot is its first pixel: opaque red, then transparent.
    let cursor = CursorImage {
        x: 1,
        y: 1,
        xhot: 0,
        yhot: 0,
        width: 2,
        height: 1,
        pixels: vec![0xff00_00ff, 0x0000_ff00],
    };
    let bounds = ScreenBounds { x: 0, y: 0, w: 3, h: 2 };
    let mut screenshot = vec![9u8; 4 * 3 * 2];
    overlay_cursor(&cursor, &mut screenshot, bounds);
    let mut expected = vec![9u8; 24];
    // Pixel (1, 1) starts at byte 4 * 3 * 1 + 4 * 1 = 16.
    expected[16] = 0xff;
    expected[17] = 0;
    expected[18] = 0;
    assert_eq!(screenshot, expected);
}

#[test]
fn translucent_cursor_pixels_are_blended() {
    let cursor = CursorImage {
        x: 0,
        y: 0,
        xhot: 0,
        yhot: 0,
        width: 1,
        height: 1,
        pixels: vec![0x8000_0000],
    };
    let bounds = ScreenBounds { x: 0, y: 0, w: 1, h: 1 };
    let mut screenshot = vec![200u8, 100, 50, 7];
    overlay_cursor(&cursor, &mut screenshot, bounds);
    // target 0 + (source * 127 + 127) / 255, each channel over its own old byte.
    let red = (200 * 127 + 127) / 255;
    let green = (100 * 127 + 127) / 255;
    let blue = (50 * 127 + 127) / 255;
    assert_eq!(screenshot, vec![red as u8, green as u8, blue as u8, 7]);
}

#[test]
fn translucent_blue_keeps_its_own_channel() {
    let cursor = CursorImage {
        x: 0,
        y: 0,
        xhot: 0,
        yhot: 0,
        width: 1,
        height: 1,
        pixels: vec![0x8000_0000],
    };
    let bounds = ScreenBounds { x: 0, y: 0, w: 1, h: 1 };
    let mut screenshot = vec![0u8, 100, 0, 0];
    overlay_cursor(&cursor, &mut screenshot, bounds);
    assert_eq!(screenshot, vec![0, 50, 0, 0]);
}

#[test]
fn cursors_are_clipped_at_the_edges() {
    let cursor = CursorImage {
        x: 1,
        y: 0,
        xhot: 0,
        yhot: 0,
        width: 2,
        height: 1,
        pixels: vec![0xff01_0203, 0xff04_0506],
    };
    let bounds = ScreenBounds { x: 0, y: 0, w: 2, h: 1 };
    let mut screenshot = vec![0u8; 8];
    overlay_cursor(&cursor, &mut screenshot, bounds);
    assert_eq!(screenshot, vec![0, 0, 0, 0, 3, 2, 1, 0]);
}

#[test]
fn cursors_fit_only_on_their_screen() {
    let cursor = CursorImage { x: 5, y: 5, xhot: 1, yhot: 1, width: 2, height: 2, pixels: vec![0; 4] };
    let bounds = ScreenBounds { x: 0, y: 0, w: 10, h: 10 };
    assert!(kcshot::cursor::cursor_fits(&cursor, bounds, 400));
    assert!(!kcshot::cursor::cursor_fits(&cursor, bounds, 100));
    let elsewhere = ScreenBounds { x: 20, y: 0, w: 10, h: 10 };
    assert!(!kcshot::cursor::cursor_fits(&cursor, elsewhere, 400));
    let short = CursorImage { pixels: vec![0; 3], ..cursor };
    assert!(!kcshot::cursor::cursor_fits(&short, bounds, 400));
}
