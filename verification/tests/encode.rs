use avatar_render::compose::DrawCall;
use avatar_render::compose::ItemAsset;
use avatar_render::compose::LoadedAsset;
use avatar_render::compose::StaticMeshes;
use avatar_render::encode::encode_frame;
use avatar_render::encode::flip_vertical;
use avatar_render::job::prepare_job;

use base64::Engine;

#[test]
fn flip_reverses_row_order_exactly() {
    // 2x2 image: rows [A B] and [C D], 4 bytes per pixel.
    let frame = vec![
        1, 2, 3, 4, 5, 6, 7, 8, // row 0: A B
        9, 10, 11, 12, 13, 14, 15, 16, // row 1: C D
    ];
    let out = flip_vertical(2, 2, frame);
    assert_eq!(
        out,
        vec![9, 10, 11, 12, 13, 14, 15, 16, 1, 2, 3, 4, 5, 6, 7, 8]
    );
}

#[test]
fn flip_of_a_single_row_is_identity() {
    let frame = vec![1, 2, 3, 4, 5, 6, 7, 8];
    assert_eq!(flip_vertical(2, 1, frame.clone()), frame);
}

#[test]
fn zero_dimension_frames_yield_the_sentinel() {
    assert_eq!(encode_frame(0, 0, Vec::new()), "");
    assert_eq!(encode_frame(4, 0, Vec::new()), "");
}

#[test]
fn flip_of_an_empty_frame_is_empty() {
    assert!(flip_vertical(0, 0, Vec::new()).is_empty());
}

fn decode_png_rgba(png_bytes: &[u8]) -> (u32, u32, Vec<u8>) {
    let decoder = png::Decoder::new(std::io::Cursor::new(png_bytes));
    let mut reader = decoder.read_info().expect("valid png header");
    let mut buf = vec![0u8; reader.output_buffer_size().expect("sane buffer size")];
    let info = reader.next_frame(&mut buf).expect("valid png data");
    assert_eq!(info.color_type, png::ColorType::Rgba);
    assert_eq!(info.bit_depth, png::BitDepth::Eight);
    buf.truncate(info.buffer_size());
    (info.width, info.height, buf)
}

#[test]
fn encoded_frame_round_trips_to_the_flipped_pixels() {
    let width = 8u32;
    let height = 8u32;
    let mut frame = Vec::new();
    for i in 0..(width * height) {
        frame.push((i % 251) as u8);
        frame.push((i % 13) as u8);
        frame.push((i % 7) as u8);
        frame.push(255);
    }
    let expected = flip_vertical(width, height, frame.clone());
    let text = encode_frame(width, height, frame);
    assert!(!text.is_empty());
    let png_bytes = base64::engine::general_purpose::STANDARD
        .decode(text.as_bytes())
        .expect("the output is valid base64");
    let (w, h, pixels) = decode_png_rgba(&png_bytes);
    assert_eq!((w, h), (width, height));
    assert_eq!(pixels, expected);
}

#[test]
fn empty_full_avatar_scene_yields_a_square_rgba_png() {
    // A full-avatar job whose profile maps every part to 0xF8F8F8 and whose
    // item list is empty still renders: here the captured frame of such a
    // scene is stood in by a flat buffer, and the encoded output must be a
    // non-empty base64 string that decodes to a fixed-size RGBA PNG.
    let profile = avatar_render::palette::BodyColors {
        trso: 1001,
        head: 1001,
        lleg: 1001,
        larm: 1001,
        rarm: 1001,
        rleg: 1001,
    };
    let job = prepare_job(1, Some(profile), Vec::new()).expect("accepted");
    assert_eq!(job.colors.trso, 0xF8F8F8);
    let size = 16u32;
    let frame = vec![0xF8u8; (size * size * 4) as usize];
    let text = encode_frame(size, size, frame);
    assert!(!text.is_empty());
    let png_bytes = base64::engine::general_purpose::STANDARD
        .decode(text.as_bytes())
        .expect("valid base64");
    let (w, h, _) = decode_png_rgba(&png_bytes);
    assert_eq!((w, h), (size, size));
}

#[test]
fn thumbnail_with_a_missing_hat_still_renders_the_grey_avatar() {
    // A thumbnail job with one hat item whose asset paths do not exist: the
    // hat load fails, the base avatar is composed in neutral grey, and the
    // encoded result is never the empty-string failure sentinel.
    let hat = ItemAsset {
        item_type: 9,
        location: Some("does/not/exist.obj".to_string()),
        texture_path: Some("does/not/exist.png".to_string()),
    };
    let job = prepare_job(2, None, vec![hat]).expect("a one-item thumbnail job is accepted");
    let meshes = StaticMeshes {
        head: true,
        rarm: true,
        larm: true,
        rleg: true,
        lleg: true,
        trso: true,
        tshirt: true,
    };
    let loaded = vec![LoadedAsset::Missing];
    let draws = avatar_render::compose::compose(&job.items, loaded, &job.colors, None, &meshes);
    assert_eq!(draws.len(), 6);
    for d in &draws {
        match d {
            DrawCall::Part(_, avatar_render::compose::PartTexture::Flat(c)) => {
                assert_eq!(*c, 0xBFBFBF);
            }
            _ => panic!("expected only flat grey base parts"),
        }
    }
    let size = 4u32;
    let frame = vec![0xBFu8; (size * size * 4) as usize];
    let text = encode_frame(size, size, frame);
    assert!(!text.is_empty());
}
