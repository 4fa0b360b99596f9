//! Telling an animated image from a still one, for the formats that can hold
//! an animation.

use vstd::prelude::*;
use crate::frames::{
    can_hold_canvas,
    webp_frame_outcomes,
    webp_frames,
    webp_has_frames,
    webp_probe,
};
use crate::is_animated_gif::{
    frames_show_animation,
    gif_animated,
    gif_is_animated,
    shows_animation,
    FRAMES_FOR_ANIMATION,
};
use crate::paths::{extension, path_extension};
use crate::webp_container::check_alpha_frames;

verus! {

/// An image format that can hold more than one frame.
#[derive(Clone, Copy, Debug, PartialEq, Eq, Structural)]
pub enum AnimationFormat {
    Gif,
    WebP,
}

/// `c` in lower case if it is an ASCII capital, else `c`.
pub open spec fn ascii_lower(c: char) -> char {
    if 'A' <= c <= 'Z' {
        ((c as u8) + 32) as char
    } else {
        c
    }
}

/// The format that can hold an animation, if any, that a file extension
/// stands for: `gif` and `webp`, in any mix of upper and lower case.
pub open spec fn animation_format_of(extension: Seq<char>) -> Option<AnimationFormat> {
    let lower = extension.map_values(|c: char| ascii_lower(c));
    if lower == seq!['g', 'i', 'f'] {
        Some(AnimationFormat::Gif)
    } else if lower == seq!['w', 'e', 'b', 'p'] {
        Some(AnimationFormat::WebP)
    } else {
        None
    }
}

/// Asks `image::ImageFormat::from_extension` which format an extension stands
/// for, and keeps the answer where it is GIF or WebP. That function lowers the
/// ASCII capitals of the extension and looks the result up in a fixed list, in
/// which `gif` alone stands for GIF and `webp` alone for WebP.
#[verifier::external_body]
pub(crate) fn animation_format(extension: &str) -> (format: Option<AnimationFormat>)
    ensures
        format == animation_format_of(extension@),
{
    match image::ImageFormat::from_extension(extension) {
        Some(image::ImageFormat::Gif) => Some(AnimationFormat::Gif),
        Some(image::ImageFormat::WebP) => Some(AnimationFormat::WebP),
        _ => None,
    }
}

/// Whether the bytes of a canvas of this size, at four bytes a pixel, can be
/// counted in a `u32`, as the WebP decoder counts them.
fn canvas_is_countable(width: u32, height: u32) -> (countable: bool)
    ensures
        countable == (width * height * 4 <= u32::MAX),
{
    assert(width * height <= 0xffff_ffff * 0xffff_ffff) by (nonlinear_arith)
        requires
            0 <= width <= 0xffff_ffff,
            0 <= height <= 0xffff_ffff,
    ;
    let area: u64 = (width as u64) * (height as u64);
    area <= 0x3fff_ffff
}

/// Whether `data` is an animated WebP, in words of what the decoder finds in
/// it: a WebP that is marked as an animation, whose frames can be asked for,
/// and of which two frames decode. Two items are asked for: the decoder gives
/// a frame that failed again where it is asked again, so that what two items
/// do not show, more would not.
pub open spec fn webp_animated(data: Seq<u8>) -> bool {
    webp_has_frames(data, FRAMES_FOR_ANIMATION) && shows_animation(
        webp_frame_outcomes(data, FRAMES_FOR_ANIMATION),
    )
}

/// Whether `data` is an animated WebP. Nothing past the second frame is
/// decoded, and no frame at all of a file that is not marked as an animation,
/// or whose frames cannot be asked for.
pub fn webp_is_animated(data: &[u8]) -> (result: bool)
    ensures
        result == webp_animated(data@),
{
    match webp_probe(data) {
        Some((marked, width, height)) => {
            if marked && can_hold_canvas(width, height) && canvas_is_countable(width, height)
                && check_alpha_frames(data, FRAMES_FOR_ANIMATION) {
                let given = webp_frames(data, FRAMES_FOR_ANIMATION);
                frames_show_animation(given.as_slice())
            } else {
                false
            }
        },
        None => false,
    }
}

/// Whether an image with the given path and content is animated, in words of
/// what the decoders find in it.
///
/// The extension of the path picks the decoder. A path with no extension, or
/// with one that stands for a format without animations, is a still image
/// whatever the content.
pub open spec fn animated(path: Seq<char>, data: Seq<u8>) -> bool {
    match path_extension(path) {
        Some(extension) => match animation_format_of(extension) {
            Some(AnimationFormat::Gif) => gif_animated(data),
            Some(AnimationFormat::WebP) => webp_animated(data),
            None => false,
        },
        None => false,
    }
}

/// Whether the image at `path`, whose content is `data`, is animated: whether
/// its extension stands for GIF or WebP and two frames of `data` decode as
/// that format. Nothing past the second of them is decoded.
///
/// Content that its decoder rejects or fails on is a still image.
pub fn content_is_animated(path: &str, data: &[u8]) -> (result: bool)
    ensures
        result == animated(path@, data@),
{
    let format = match extension(path) {
        Some(found) => animation_format(found.as_str()),
        None => None,
    };
    match format {
        Some(AnimationFormat::Gif) => gif_is_animated(data),
        Some(AnimationFormat::WebP) => webp_is_animated(data),
        None => false,
    }
}

/// What `is_animated` answers for the file at `path` that was read with the
/// outcome `content`: whether the image is animated, or the error that
/// reading gave.
pub open spec fn animated_file(path: Seq<char>, content: Result<Vec<u8>, std::io::Error>) -> Result<
    bool,
    std::io::Error,
> {
    match content {
        Ok(data) => Ok(animated(path, data@)),
        Err(error) => Err(error),
    }
}

/// Whether the file at `path` is an animated image, given what reading the
/// file gave: its content, or the reason it could not be read.
///
/// The only error is that of a file that could not be read. Content that is
/// no image, or a damaged one, is a still image, and that is no error.
pub fn is_animated(path: &str, content: Result<Vec<u8>, std::io::Error>) -> (result: Result<
    bool,
    std::io::Error,
>)
    ensures
        result == animated_file(path@, content),
{
    match content {
        Ok(data) => Ok(content_is_animated(path, data.as_slice())),
        Err(error) => Err(error),
    }
}

} // verus!
