use create_thumbnail::is_animated_gif;
use create_thumbnail::is_animated_gif::{frames_show_animation, gif_is_animated};
use std::path::PathBuf;

fn picture(seed: u8) -> image::RgbaImage {
    image::RgbaImage::from_fn(16, 16, |x, y| {
        let mix = (x * 31 + y * 17 + u32::from(seed) * 101) % 251;
        image::Rgba([mix as u8, (255 - mix) as u8, seed, 255])
    })
}

fn gif_with_frames(count: u8) -> Vec<u8> {
    let mut bytes = Vec::new();
    {
        let mut encoder = image::codecs::gif::GifEncoder::new(&mut bytes);
        for seed in 0..count {
            encoder.encode_frame(image::Frame::new(picture(seed))).unwrap();
        }
    }
    bytes
}

fn png() -> Vec<u8> {
    let mut bytes = std::io::Cursor::new(Vec::new());
    let blue = image::RgbaImage::from_pixel(8, 8, image::Rgba([0, 0, 255, 255]));
    image::DynamicImage::ImageRgba8(blue)
        .write_to(&mut bytes, image::ImageFormat::Png)
        .unwrap();
    bytes.into_inner()
}

/// What reading the file at `p` gives: the fixtures stand in for the files
/// of those names.
fn read(p: &PathBuf) -> std::io::Result<Vec<u8>> {
    match p.to_str().unwrap() {
        "src/tests/blue.png" => Ok(png()),
        "src/tests/static.gif" => Ok(gif_with_frames(1)),
        "src/tests/animated_squares.gif" => Ok(gif_with_frames(2)),
        "Cargo.toml" => Ok(b"[package]\nname = \"create_thumbnail\"\n".to_vec()),
        _ => Err(std::io::Error::from(std::io::ErrorKind::NotFound)),
    }
}

#[test]
fn a_png_is_not_an_animated_gif() {
    let p = PathBuf::from("src/tests/blue.png");
    assert_eq!(is_animated_gif(read(&p)).unwrap(), false);
}

#[test]
fn a_static_gif_is_not_an_animated_gif() {
    let p = PathBuf::from("src/tests/static.gif");
    assert_eq!(is_animated_gif(read(&p)).unwrap(), false);
}

#[test]
fn is_animated_gif_an_animated_gif_is_animated() {
    let p = PathBuf::from("src/tests/animated_squares.gif");
    assert_eq!(is_animated_gif(read(&p)).unwrap(), true);
}

#[test]
fn a_non_image_is_not_animated_gif() {
    let p = PathBuf::from("Cargo.toml");
    assert_eq!(is_animated_gif(read(&p)).unwrap(), false);
}

#[test]
fn is_animated_gif_a_file_which_doesnt_exist_is_an_error() {
    let p = PathBuf::from("does_not_exist.txt");
    assert!(is_animated_gif(read(&p)).is_err());
}

#[test]
fn the_error_of_reading_comes_back_as_it_was() {
    let denied = std::io::Error::from(std::io::ErrorKind::PermissionDenied);
    let error = is_animated_gif(Err(denied)).unwrap_err();
    assert_eq!(error.kind(), std::io::ErrorKind::PermissionDenied);
}

#[test]
fn many_frames_are_an_animation_too() {
    assert_eq!(gif_is_animated(&gif_with_frames(5)), true);
    assert_eq!(is_animated_gif(Ok(gif_with_frames(5))).unwrap(), true);
}

#[test]
fn two_decoded_frames_show_an_animation() {
    assert_eq!(frames_show_animation(&[true, true]), true);
    assert_eq!(frames_show_animation(&[true, true, false]), true);
    assert_eq!(frames_show_animation(&[true, true, true, true]), true);
}

#[test]
fn a_failed_item_is_passed_over() {
    assert_eq!(frames_show_animation(&[true, false, true]), true);
    assert_eq!(frames_show_animation(&[false, true, true]), true);
    assert_eq!(frames_show_animation(&[false, true, false, false, true]), true);
}

#[test]
fn fewer_than_two_decoded_frames_show_none() {
    assert_eq!(frames_show_animation(&[]), false);
    assert_eq!(frames_show_animation(&[true]), false);
    assert_eq!(frames_show_animation(&[false]), false);
    assert_eq!(frames_show_animation(&[true, false]), false);
    assert_eq!(frames_show_animation(&[false, true]), false);
    assert_eq!(frames_show_animation(&[false, false]), false);
    assert_eq!(frames_show_animation(&[false, true, false, false]), false);
}

/// One frame of a single pixel, with a palette of its own or with none.
fn tiny_frame(with_palette: bool) -> Vec<u8> {
    let mut frame = vec![0x2c, 0, 0, 0, 0, 1, 0, 1, 0];
    if with_palette {
        frame.push(0x80);
        frame.extend_from_slice(&[0, 0, 0, 255, 255, 255]);
    } else {
        frame.push(0x00);
    }
    frame.extend_from_slice(&[0x02, 0x02, 0x44, 0x01, 0x00]);
    frame
}

/// A GIF of one pixel that has no palette for the whole file, with one frame
/// for each entry of `palettes`. A frame without a palette cannot be decoded.
fn tiny_gif(palettes: &[bool]) -> Vec<u8> {
    let mut file = b"GIF89a".to_vec();
    file.extend_from_slice(&[1, 0, 1, 0, 0x00, 0, 0]);
    for with_palette in palettes {
        file.extend(tiny_frame(*with_palette));
    }
    file.push(0x3b);
    file
}

/// What the decoder gives for `data`, item by item to the end: a frame or an
/// error.
fn outcomes(data: &[u8]) -> Vec<bool> {
    let decoder = image::codecs::gif::GifDecoder::new(std::io::Cursor::new(data)).unwrap();
    image::AnimationDecoder::into_frames(decoder)
        .take(16)
        .map(|frame| frame.is_ok())
        .collect()
}

#[test]
fn two_frames_with_a_failed_one_between_them_are_an_animation() {
    let data = tiny_gif(&[true, false, true]);
    assert_eq!(outcomes(&data), [true, false, true]);
    assert_eq!(gif_is_animated(&data), true);
    assert_eq!(is_animated_gif(Ok(data)).unwrap(), true);
}

#[test]
fn two_frames_after_a_failed_one_are_an_animation() {
    let data = tiny_gif(&[false, true, true]);
    assert_eq!(outcomes(&data), [false, true, true]);
    assert_eq!(gif_is_animated(&data), true);
}

#[test]
fn one_frame_and_a_failed_one_are_no_animation() {
    let data = tiny_gif(&[true, false]);
    assert_eq!(outcomes(&data), [true, false]);
    assert_eq!(gif_is_animated(&data), false);
    assert_eq!(gif_is_animated(&tiny_gif(&[false, true])), false);
    assert_eq!(gif_is_animated(&tiny_gif(&[false, false, false])), false);
    assert_eq!(gif_is_animated(&tiny_gif(&[true])), false);
    assert_eq!(gif_is_animated(&tiny_gif(&[])), false);
}

#[test]
fn a_file_that_goes_on_failing_is_given_up() {
    let mut data = tiny_gif(&[true]);
    data.pop();
    data.extend_from_slice(&[0x99; 12]);
    assert_eq!(gif_is_animated(&data), false);

    let mut data = tiny_gif(&[true, false]);
    data.pop();
    data.extend_from_slice(&[0x2c, 0xff, 0xff, 0x99, 0x00, 0x21]);
    assert_eq!(gif_is_animated(&data), false);
}

#[test]
fn two_tiny_frames_are_an_animation() {
    assert_eq!(gif_is_animated(&tiny_gif(&[true, true])), true);
    assert_eq!(gif_is_animated(&tiny_gif(&[true, true, false])), true);
}

#[test]
fn a_gif_cut_short_in_its_first_frame_is_not_animated() {
    let whole = gif_with_frames(2);
    assert_eq!(gif_is_animated(&whole[..40]), false);
    assert_eq!(gif_is_animated(&whole[..6]), false);
}
