//! Telling an animated GIF from a still one: an animation is a file of which
//! two frames decode.

use vstd::prelude::*;
use crate::frames::{
    after_one,
    can_hold_any_gif_frame,
    can_hold_canvas,
    enough_frames_decode,
    frames_decode,
    gif_canvas,
    gif_has_frames,
    gif_open,
    gif_probe,
    gif_stream,
};

verus! {

/// How many frames have to decode before an image counts as animated. No
/// decoder is asked for anything past the frame that makes up this number.
pub const FRAMES_FOR_ANIMATION: usize = 2;

/// How many of the items that a decoder gave are frames that decoded.
pub open spec fn decoded(given: Seq<bool>) -> nat
    decreases given.len(),
{
    if given.len() == 0 {
        0
    } else {
        (if given[0] {
            1nat
        } else {
            0nat
        }) + decoded(given.skip(1))
    }
}

/// Whether the items that a decoder gave are an animation: more than one of
/// them is a frame that decoded. Items that are errors do not count, wherever
/// they stand.
pub open spec fn shows_animation(given: Seq<bool>) -> bool {
    decoded(given) >= FRAMES_FOR_ANIMATION
}

/// Whether `data` is an animated GIF, in words of what the decoder finds in
/// it: a GIF whose frames can be asked for, and of which two frames decode.
/// No more items are asked for than `data` has bytes, which is more than it
/// can hold frames.
pub open spec fn gif_animated(data: Seq<u8>) -> bool {
    &&& gif_has_frames(gif_canvas(data))
    &&& gif_stream(data) matches Some(ahead) && frames_decode(
        ahead,
        data.len(),
        FRAMES_FOR_ANIMATION as nat,
    )
}

/// Decides from the items that a decoder gave, each a frame that decoded or
/// an error, whether the image is animated: whether two of them are frames.
pub fn frames_show_animation(given: &[bool]) -> (animated: bool)
    ensures
        animated == shows_animation(given@),
{
    let mut found: usize = 0;
    let mut at: usize = 0;
    assert(given@.skip(0) =~= given@);
    while at < given.len() && found < FRAMES_FOR_ANIMATION
        invariant
            at <= given@.len(),
            found <= FRAMES_FOR_ANIMATION,
            decoded(given@) == found + decoded(given@.skip(at as int)),
        decreases given@.len() - at,
    {
        assert(given@.skip(at as int).skip(1) =~= given@.skip(at + 1));
        if given[at] {
            found = found + 1;
        }
        at = at + 1;
    }
    found >= FRAMES_FOR_ANIMATION
}

/// Whether `data` is an animated GIF: whether it reads as a GIF of which two
/// frames decode. Nothing past the second of them is decoded.
///
/// Data that is no GIF, or a damaged one with fewer than two frames that
/// decode, is not an animated GIF.
pub fn gif_is_animated(data: &[u8]) -> (animated: bool)
    ensures
        animated == gif_animated(data@),
{
    match gif_probe(data) {
        Some((width, height)) => {
            if can_hold_canvas(width, height) && can_hold_any_gif_frame() {
                match gif_open(data) {
                    Some(frames) => enough_frames_decode(frames, data.len(), FRAMES_FOR_ANIMATION),
                    None => false,
                }
            } else {
                false
            }
        },
        None => false,
    }
}

/// What `is_animated_gif` answers for a file that was read with the outcome
/// `content`: whether the content is an animated GIF, or the error that
/// reading gave.
pub open spec fn animated_gif_file(content: Result<Vec<u8>, std::io::Error>) -> Result<
    bool,
    std::io::Error,
> {
    match content {
        Ok(data) => Ok(gif_animated(data@)),
        Err(error) => Err(error),
    }
}

/// Whether a file is an animated GIF, given what reading the file gave: its
/// content, or the reason it could not be read.
///
/// The only error is that of a file that could not be read. A file that is
/// no GIF, or a damaged one, is not an animated GIF, and that is no error.
pub fn is_animated_gif(content: Result<Vec<u8>, std::io::Error>) -> (animated: Result<
    bool,
    std::io::Error,
>)
    ensures
        animated == animated_gif_file(content),
{
    match content {
        Ok(data) => Ok(gif_is_animated(data.as_slice())),
        Err(error) => Err(error),
    }
}

/// Whether `given` is what `ahead` gives to one who asks for no more than
/// `most` items and stops where nothing is given: the items in order, up to
/// the first that is not there or up to `most` of them.
pub open spec fn gives(ahead: Map<nat, bool>, most: nat, given: Seq<bool>) -> bool {
    &&& given.len() <= most
    &&& forall|n: nat|
        n < given.len() ==> #[trigger] ahead.contains_key(n) && ahead[n] == given[n as int]
    &&& given.len() < most ==> !ahead.contains_key(given.len())
}

/// The frames that are needed decode exactly where that many of the items
/// given are frames that decoded: an error among them neither counts nor
/// ends the search.
pub proof fn lemma_frames_decode_counts(
    ahead: Map<nat, bool>,
    most: nat,
    needed: nat,
    given: Seq<bool>,
)
    requires
        gives(ahead, most, given),
    ensures
        frames_decode(ahead, most, needed) == (decoded(given) >= needed),
    decreases most,
{
    if needed == 0 {
    } else if most == 0 || !ahead.contains_key(0) {
        if given.len() > 0 {
            assert(ahead.contains_key(0nat));
        }
    } else {
        assert(given.len() > 0);
        assert(ahead.contains_key(0nat) && ahead[0nat] == given[0]);
        let rest = given.skip(1);
        let still = if ahead[0] {
            (needed - 1) as nat
        } else {
            needed
        };
        assert forall|n: nat| n < rest.len() implies #[trigger] after_one(ahead).contains_key(n)
            && after_one(ahead)[n] == rest[n as int] by {
            assert(ahead.contains_key((n + 1) as nat) && ahead[(n + 1) as nat] == given[n + 1 as int]);
        }
        if rest.len() < most - 1 {
            assert(!ahead.contains_key(given.len()));
            assert(!after_one(ahead).contains_key(rest.len()));
        }
        lemma_frames_decode_counts(after_one(ahead), (most - 1) as nat, still, rest);
    }
}

/// An animation is a file of which more than one frame decodes: for every
/// run of items that a decoder gives, the search for two frames succeeds
/// exactly where the run shows an animation.
pub proof fn lemma_animation_is_two_frames(ahead: Map<nat, bool>, most: nat, given: Seq<bool>)
    requires
        gives(ahead, most, given),
    ensures
        frames_decode(ahead, most, FRAMES_FOR_ANIMATION as nat) == shows_animation(given),
{
    lemma_frames_decode_counts(ahead, most, FRAMES_FOR_ANIMATION as nat, given);
}

} // verus!
