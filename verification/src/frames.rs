//! The frames of an animation, as the `image` crate's decoders give them.
//!
//! All that this library takes on trust from those decoders is in this file:
//! what they read from the head of a file, the frames they give, and the data
//! on which they may be asked for frames at all.
//!
//! A GIF is asked for its frames one at a time, for as long as it takes: a
//! frame of a GIF can fail and the next one decode. A WebP is asked for as
//! many items as there are frames to find and no more: its decoder does not
//! go on past a frame that failed, but gives that frame again.

use vstd::prelude::*;
use crate::webp_container::alpha_frames_match;

verus! {

/// `image::Frames`, a decoder's iterator over the frames of an animation.
#[verifier::external_type_specification]
#[verifier::external_body]
pub struct ExFrames<'a>(image::Frames<'a>);

/// `image::Frame`, what that iterator gives. Nothing is read from it.
#[verifier::external_type_specification]
#[verifier::external_body]
pub struct ExFrame(image::Frame);

/// What `frames` has yet to give. Key `n` is there where asking for the item
/// after the next `n` gives one, and its value says whether that item is a
/// frame that decoded (`true`) or an error (`false`).
pub uninterp spec fn frames_ahead(frames: image::Frames<'static>) -> Map<nat, bool>;

/// The bytes that `frames` is decoded from, as a GIF.
pub uninterp spec fn frames_source(frames: image::Frames<'static>) -> Seq<u8>;

/// The width and the height of the canvas that the `image` crate's GIF decoder
/// reads from the head of `data`, or `None` where it does not accept `data` as
/// a GIF at all.
pub uninterp spec fn gif_canvas(data: Seq<u8>) -> Option<(u32, u32)>;

/// What the frames of the `image` crate's GIF decoder on `data` give, as
/// `frames_ahead` tells it, or `None` where the decoder does not accept
/// `data` as a GIF at all.
pub uninterp spec fn gif_stream(data: Seq<u8>) -> Option<Map<nat, bool>>;

/// What the `image` crate's WebP decoder reads from the head of `data`:
/// `None` where it does not accept `data` as a WebP at all, else whether the
/// file is marked as an animation, and the width and the height of its
/// canvas.
pub uninterp spec fn webp_header(data: Seq<u8>) -> Option<(bool, u32, u32)>;

/// What the `image` crate's WebP decoder makes of the frames of `data`, no
/// further than `limit` items: for each item it was asked for and gave, in
/// order, whether it is a frame that decoded (`true`) or an error (`false`).
pub uninterp spec fn webp_frame_outcomes(data: Seq<u8>, limit: usize) -> Seq<bool>;

/// What is still ahead once one item has been asked for.
pub open spec fn after_one(ahead: Map<nat, bool>) -> Map<nat, bool> {
    Map::new(|n: nat| ahead.contains_key(n + 1), |n: nat| ahead[n + 1])
}

/// Whether a canvas of this size, at four bytes a pixel, is no larger than a
/// single allocation may be.
pub open spec fn canvas_can_be_held(width: u32, height: u32) -> bool {
    width * height * 4 <= isize::MAX
}

/// Whether the largest frame that a GIF can hold, 65535 pixels each way at
/// four bytes a pixel, is no larger than a single allocation may be. A frame
/// may be larger than the canvas.
pub open spec fn any_gif_frame_can_be_held() -> bool {
    0xffff * 0xffff * 4 <= isize::MAX
}

/// Whether the frames of a GIF with this canvas can be asked for: the decoder
/// accepted the data, and the canvas and any frame can be held.
pub open spec fn gif_has_frames(canvas: Option<(u32, u32)>) -> bool {
    canvas matches Some((width, height)) && canvas_can_be_held(width, height)
        && any_gif_frame_can_be_held()
}

/// Whether `limit` items can be asked of the frames of the WebP in `data`:
/// the file is marked as an animation; its canvas, at four bytes a pixel, can
/// be held and is within what the decoder can count; and none of its first
/// `limit` frames holds, behind an `ALPH` chunk, a picture of another size
/// than its own. No more frames than items are ever read.
pub open spec fn webp_has_frames(data: Seq<u8>, limit: usize) -> bool {
    &&& webp_header(data) matches Some((marked, width, height)) && marked && canvas_can_be_held(
        width,
        height,
    ) && width * height * 4 <= u32::MAX
    &&& alpha_frames_match(data, limit as nat)
}

/// Whether `needed` frames decode among the items that are ahead, looking no
/// further than the next `most` items, nor past the end of what is given,
/// nor past the frame that is the last one needed.
///
/// An item that is an error is passed over: it does not count, and it does
/// not end the search.
pub open spec fn frames_decode(ahead: Map<nat, bool>, most: nat, needed: nat) -> bool
    decreases most,
{
    if needed == 0 {
        true
    } else if most == 0 || !ahead.contains_key(0) {
        false
    } else {
        frames_decode(
            after_one(ahead),
            (most - 1) as nat,
            if ahead[0] {
                (needed - 1) as nat
            } else {
                needed
            },
        )
    }
}

/// Opens `data` with `image::codecs::gif::GifDecoder::new` and asks the
/// decoder for its `dimensions`. The result is the named `gif_canvas`.
#[verifier::external_body]
pub(crate) fn gif_probe(data: &[u8]) -> (canvas: Option<(u32, u32)>)
    ensures
        canvas == gif_canvas(data@),
{
    match image::codecs::gif::GifDecoder::new(std::io::Cursor::new(data)) {
        Ok(decoder) => Some(image::ImageDecoder::dimensions(&decoder)),
        Err(_) => None,
    }
}

/// Opens a copy of `data` with `image::codecs::gif::GifDecoder::new` and
/// takes the decoder's `into_frames`, of which no item is asked yet. What
/// the frames have ahead is the named `gif_stream`, and their source is
/// `data`.
#[verifier::external_body]
pub(crate) fn gif_open(data: &[u8]) -> (frames: Option<image::Frames<'static>>)
    ensures
        match frames {
            Some(opened) => gif_stream(data@) == Some(frames_ahead(opened)) && frames_source(opened)
                == data@,
            None => gif_stream(data@) is None,
        },
{
    match image::codecs::gif::GifDecoder::new(std::io::Cursor::new(data.to_vec())) {
        Ok(decoder) => Some(image::AnimationDecoder::into_frames(decoder)),
        Err(_) => None,
    }
}

/// Opens `data` with `image::codecs::webp::WebPDecoder::new` and asks the
/// decoder for `has_animation` and `dimensions`. The result is the named
/// `webp_header`.
#[verifier::external_body]
pub(crate) fn webp_probe(data: &[u8]) -> (header: Option<(bool, u32, u32)>)
    ensures
        header == webp_header(data@),
{
    match image::codecs::webp::WebPDecoder::new(std::io::Cursor::new(data)) {
        Ok(decoder) => {
            let (width, height) = image::ImageDecoder::dimensions(&decoder);
            Some((decoder.has_animation(), width, height))
        },
        Err(_) => None,
    }
}

/// Opens `data` with `image::codecs::webp::WebPDecoder::new` and takes at most
/// `limit` items from the decoder's `into_frames`, noting of each whether it
/// is a frame or an error. The result is the named `webp_frame_outcomes`, and
/// never longer than `limit`.
///
/// To decode a frame the decoder makes a buffer for the canvas, counts the
/// canvas's bytes in a `u32`, panics on a file that is not marked as an
/// animation, and writes the picture that follows an `ALPH` chunk into a
/// buffer of the frame's size without looking at the picture's own. Data on
/// which any of these would fail is left out.
#[verifier::external_body]
pub(crate) fn webp_frames(data: &[u8], limit: usize) -> (outcomes: Vec<bool>)
    requires
        webp_has_frames(data@, limit),
    ensures
        outcomes@ == webp_frame_outcomes(data@, limit),
        outcomes@.len() <= limit,
{
    match image::codecs::webp::WebPDecoder::new(std::io::Cursor::new(data)) {
        Ok(decoder) => image::AnimationDecoder::into_frames(decoder)
            .take(limit)
            .map(|frame| frame.is_ok())
            .collect(),
        Err(_) => Vec::new(),
    }
}

/// Asks the frames of a GIF for their next item with `Iterator::next` and
/// notes whether it is a frame or an error. The item is the first of what was
/// ahead, or `None` where nothing was; what is ahead afterwards is what was
/// ahead past that item.
///
/// To decode a frame the decoder makes buffers for the canvas and for the
/// frame, and panics where one is more than can be allocated. Data on which
/// that would fail is left out, and so are frames of anything but a GIF.
#[verifier::external_body]
pub(crate) fn next_outcome(frames: &mut image::Frames<'static>) -> (outcome: Option<bool>)
    requires
        gif_has_frames(gif_canvas(frames_source(*old(frames)))),
    ensures
        outcome == if frames_ahead(*old(frames)).contains_key(0) {
            Some(frames_ahead(*old(frames))[0])
        } else {
            None
        },
        frames_ahead(*final(frames)) == after_one(frames_ahead(*old(frames))),
        frames_source(*final(frames)) == frames_source(*old(frames)),
{
    frames.next().map(|frame| frame.is_ok())
}

/// Whether a canvas of this size can be held.
pub(crate) fn can_hold_canvas(width: u32, height: u32) -> (fits: bool)
    ensures
        fits == canvas_can_be_held(width, height),
{
    assert(width * height <= 0xffff_ffff * 0xffff_ffff) by (nonlinear_arith)
        requires
            0 <= width <= 0xffff_ffff,
            0 <= height <= 0xffff_ffff,
    ;
    let area: u64 = (width as u64) * (height as u64);
    area <= (isize::MAX as u64) / 4
}

/// Whether any frame of a GIF can be held.
pub(crate) fn can_hold_any_gif_frame() -> (fits: bool)
    ensures
        fits == any_gif_frame_can_be_held(),
{
    (isize::MAX as u64) >= 0xffff * 0xffff * 4
}

/// Asks `frames` for items until `needed` of them are frames that decoded,
/// or nothing more is given, or `most` items have been asked for, and says
/// whether the frames were found.
pub(crate) fn enough_frames_decode(
    frames: image::Frames<'static>,
    most: usize,
    needed: usize,
) -> (found: bool)
    requires
        gif_has_frames(gif_canvas(frames_source(frames))),
    ensures
        found == frames_decode(frames_ahead(frames), most as nat, needed as nat),
{
    let mut rest = frames;
    let mut left: usize = most;
    let mut wanted: usize = needed;
    while wanted > 0 && left > 0
        invariant
            gif_has_frames(gif_canvas(frames_source(rest))),
            frames_decode(frames_ahead(frames), most as nat, needed as nat) == frames_decode(
                frames_ahead(rest),
                left as nat,
                wanted as nat,
            ),
        decreases left,
    {
        let ghost before = frames_ahead(rest);
        match next_outcome(&mut rest) {
            Some(decoded) => {
                if decoded {
                    wanted = wanted - 1;
                }
                left = left - 1;
            },
            None => {
                assert(!frames_decode(before, left as nat, wanted as nat));
                return false;
            },
        }
    }
    wanted == 0
}

} // verus!
