use svg2raster::convert::unpremultiply_rgb;

#[test]
fn opaque_pixels_pass_through() {
    let rgba = vec![10, 20, 30, 255, 200, 100, 0, 255];
    assert_eq!(unpremultiply_rgb(&rgba), vec![10, 20, 30, 200, 100, 0]);
}

#[test]
fn transparent_pixels_become_black() {
    let rgba = vec![7, 8, 9, 0];
    assert_eq!(unpremultiply_rgb(&rgba), vec![0, 0, 0]);
}

#[test]
fn half_alpha_unpremultiplies_with_truncation() {
    // 50 * 255 / 128 = 99.6.. -> 99, 100 * 255 / 128 = 199.2.. -> 199,
    // 25 * 255 / 128 = 49.8.. -> 49.
    let rgba = vec![50, 100, 25, 128];
    assert_eq!(unpremultiply_rgb(&rgba), vec![99, 199, 49]);
}

#[test]
fn channels_above_alpha_clamp_to_max() {
    // 200 * 255 / 100 = 510 clamps to 255.
    let rgba = vec![200, 100, 0, 100];
    assert_eq!(unpremultiply_rgb(&rgba), vec![255, 255, 0]);
}

#[test]
fn empty_buffer_converts_to_empty() {
    let rgba: Vec<u8> = vec![];
    assert_eq!(unpremultiply_rgb(&rgba), Vec::<u8>::new());
}

#[test]
fn trailing_fragment_is_ignored() {
    let rgba = vec![10, 20, 30, 255, 1, 2, 3];
    assert_eq!(unpremultiply_rgb(&rgba), vec![10, 20, 30]);
}

#[test]
fn pixels_convert_independently() {
    let one = vec![50, 100, 25, 128];
    let two = vec![200, 100, 0, 100];
    let mut both = one.clone();
    both.extend_from_slice(&two);
    let mut expected = unpremultiply_rgb(&one);
    expected.extend_from_slice(&unpremultiply_rgb(&two));
    assert_eq!(unpremultiply_rgb(&both), expected);
}
