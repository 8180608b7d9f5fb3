use avatar_render::recolor::replace_transparent_with_color;

#[test]
fn opaque_pixels_stay_unchanged() {
    let bytes = vec![10, 20, 30, 255, 200, 100, 50, 255];
    let out = replace_transparent_with_color(bytes.clone(), 0x112233);
    assert_eq!(out, bytes);
}

#[test]
fn transparent_pixels_become_the_background() {
    let bytes = vec![10, 20, 30, 0];
    let out = replace_transparent_with_color(bytes, 0x112233);
    assert_eq!(out, vec![0x11, 0x22, 0x33, 255]);
}

#[test]
fn partial_alpha_blends_each_channel_exactly() {
    // c = 100, a = 128, bg red = 200: (100*128 + 200*127) / 255 = 149
    // c = 50, a = 128, bg green = 0: (50*128 + 0*127) / 255 = 25
    // c = 250, a = 128, bg blue = 255: (250*128 + 255*127) / 255 = 252
    let bytes = vec![100, 50, 250, 128];
    let out = replace_transparent_with_color(bytes, 0xC800FF);
    assert_eq!(out, vec![149, 25, 252, 255]);
}

#[test]
fn output_alpha_is_always_opaque() {
    let bytes = vec![1, 2, 3, 4, 5, 6, 7, 0, 9, 10, 11, 254];
    let out = replace_transparent_with_color(bytes, 0x000000);
    for px in out.chunks(4) {
        assert_eq!(px[3], 255);
    }
}

#[test]
fn trailing_partial_pixel_bytes_are_unchanged() {
    let bytes = vec![10, 20, 30, 0, 40, 50];
    let out = replace_transparent_with_color(bytes, 0xFFFFFF);
    assert_eq!(out, vec![255, 255, 255, 255, 40, 50]);
}

#[test]
fn empty_buffer_stays_empty() {
    let out = replace_transparent_with_color(Vec::new(), 0x123456);
    assert!(out.is_empty());
}

#[test]
fn mixed_buffer_matches_the_blend_formula() {
    let bg = 0x804020;
    let bytes = vec![
        0, 0, 0, 255, // opaque black: unchanged
        0, 0, 0, 0, // transparent: becomes background
        255, 255, 255, 1, // almost transparent white
    ];
    let out = replace_transparent_with_color(bytes, bg);
    assert_eq!(&out[0..4], &[0, 0, 0, 255]);
    assert_eq!(&out[4..8], &[0x80, 0x40, 0x20, 255]);
    let blend = |c: u32, b: u32, a: u32| ((c * a + b * (255 - a)) / 255) as u8;
    assert_eq!(
        &out[8..12],
        &[blend(255, 0x80, 1), blend(255, 0x40, 1), blend(255, 0x20, 1), 255]
    );
}
