use kcshot::pixelops::{blur_rgb, pad_to_whole_pixels, pixelate};

#[test]
fn padding_always_adds_zeros_up_to_whole_pixels() {
    let mut pixels = vec![1u8, 2, 3, 4];
    pad_to_whole_pixels(&mut pixels);
    assert_eq!(pixels, vec![1, 2, 3, 4, 0, 0]);
    let mut whole = vec![1u8, 2, 3];
    pad_to_whole_pixels(&mut whole);
    assert_eq!(whole, vec![1, 2, 3, 0, 0, 0]);
}

#[test]
fn blurring_a_flat_image_keeps_it() {
    let pixels = vec![40u8, 80, 120].repeat(6);
    let (blurred, stride) = blur_rgb(pixels.clone(), 3, 2, 9, 2);
    assert_eq!(stride, 9);
    assert_eq!(blurred, pixels);
}

#[test]
fn blurring_spreads_a_bright_pixel() {
    let mut pixels = vec![0u8; 9];
    pixels[3] = 255;
    pixels[4] = 255;
    pixels[5] = 255;
    let (blurred, stride) = blur_rgb(pixels, 3, 1, 9, 1);
    assert_eq!(stride, 9);
    assert_eq!(blurred.len(), 9);
    assert!(blurred[0] > 0, "the blur should reach the left neighbour: {blurred:?}");
    assert!(blurred[4] < 255, "the blur should dim the bright pixel: {blurred:?}");
    assert_eq!(blurred[0], blurred[1]);
    assert_eq!(blurred[0], blurred[2]);
}

#[test]
fn blurring_skips_row_padding() {
    // Two rows of one red pixel, each row padded to 4 bytes.
    let pixels = vec![255u8, 0, 0, 77, 255, 0, 0, 0];
    let pixels = {
        let mut p = pixels;
        p.push(0);
        p
    };
    let (blurred, stride) = blur_rgb(pixels, 1, 2, 4, 1);
    assert_eq!(stride, 3);
    assert_eq!(blurred, vec![255, 0, 0, 255, 0, 0]);
}

#[test]
fn pixelating_makes_boxes_uniform() {
    // A 4 x 4 RGB image, rows 12 bytes apart, every pixel different.
    let before: Vec<u8> = (0..48).map(|i| i as u8).collect();
    let mut pixels = before.clone();
    pixelate(&mut pixels, 12, 3, 4, 4, 7);
    let first = pixels[0..3].to_vec();
    for p in pixels.chunks(3) {
        assert_eq!(p, &first[..]);
    }
    assert!(before.chunks(3).any(|p| p == &first[..]));
}

#[test]
fn pixelating_keeps_bytes_outside_the_image() {
    // A 1 x 2 image, rows 5 bytes apart: two padding bytes end each row.
    let before = vec![1u8, 2, 3, 200, 201, 4, 5, 6];
    let mut pixels = before.clone();
    pixelate(&mut pixels, 5, 3, 1, 2, 3);
    assert_eq!(pixels[3..5], before[3..5]);
    assert!(pixels[0..3] == pixels[5..8]);
    assert!(pixels[0..3] == before[0..3] || pixels[0..3] == before[5..8]);
}

#[test]
fn the_same_seed_pixelates_the_same_way() {
    // A 9 x 6 image, so that the boxes at the right and bottom edges are narrower.
    let before: Vec<u8> = (0..9 * 6 * 3).map(|i| (i * 7 % 251) as u8).collect();
    let mut first = before.clone();
    let mut second = before.clone();
    pixelate(&mut first, 27, 3, 9, 6, 42);
    pixelate(&mut second, 27, 3, 9, 6, 42);
    assert_eq!(first, second);
    let seeds_differ = (0..20u64).any(|seed| {
        let mut other = before.clone();
        pixelate(&mut other, 27, 3, 9, 6, seed);
        other != first
    });
    assert!(seeds_differ, "the seed should decide which pixel each box takes");
}

#[test]
fn blurred_pixels_are_tightly_packed() {
    // Two rows of two pixels, each row padded to 8 bytes.
    let mut pixels = vec![10u8; 16];
    pixels.extend([0, 0]);
    let (blurred, stride) = blur_rgb(pixels, 2, 2, 8, 1);
    assert_eq!(stride, 6);
    assert_eq!(blurred.len(), 3 * 2 * 2);
}
