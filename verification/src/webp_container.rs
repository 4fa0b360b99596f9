//! The layout of an animated WebP, as far as it has to be read before a
//! decoder may be asked for its frames.
//!
//! A frame of an animation is an `ANMF` chunk: eight bytes of chunk header,
//! sixteen bytes that give the frame's place, size and timing, then the
//! picture. A picture with transparency that is stored lossily comes as an
//! `ALPH` chunk followed by the `VP8` picture, and the `VP8` picture says
//! once more how large it is.

use vstd::prelude::*;

verus! {

/// The two bytes at `at`, least significant first, as a number.
pub open spec fn le16(data: Seq<u8>, at: int) -> int {
    data[at] + 256 * data[at + 1]
}

/// The three bytes at `at`, least significant first, as a number.
pub open spec fn le24(data: Seq<u8>, at: int) -> int {
    data[at] + 256 * data[at + 1] + 65536 * data[at + 2]
}

/// The four bytes at `at`, least significant first, as a number.
pub open spec fn le32(data: Seq<u8>, at: int) -> nat {
    (data[at] + 256 * data[at + 1] + 65536 * data[at + 2] + 16777216 * data[at + 3]) as nat
}

/// The room that a chunk of `size` bytes takes: chunks are padded to an even
/// length, but never past the largest size that can be written.
pub open spec fn padded(size: nat) -> nat {
    if size % 2 == 1 && size < u32::MAX {
        size + 1
    } else {
        size
    }
}

/// Whether a chunk starts at `at` that is a frame: its header is all there,
/// and names it `ANMF`.
pub open spec fn is_frame(data: Seq<u8>, at: int) -> bool {
    &&& 0 <= at
    &&& at + 8 <= data.len()
    &&& data[at] == 0x41 && data[at + 1] == 0x4e && data[at + 2] == 0x4d && data[at + 3] == 0x46
}

/// Whether the frame at `at` is one whose picture begins with an `ALPH`
/// chunk: the frame is there as far as the header of its first chunk, which
/// stands twenty-four bytes on and names it `ALPH`.
pub open spec fn is_alpha_frame(data: Seq<u8>, at: int) -> bool {
    &&& is_frame(data, at)
    &&& at + 32 <= data.len()
    &&& data[at + 24] == 0x41 && data[at + 25] == 0x4c && data[at + 26] == 0x50 && data[at + 27]
        == 0x48
}

/// Where the `VP8` picture of the alpha frame at `at` begins: past the `ALPH`
/// chunk, padded, and past the header of the chunk that follows it.
pub open spec fn picture_start(data: Seq<u8>, at: int) -> int {
    at + 32 + padded(le32(data, at + 28)) + 8
}

/// Whether the `VP8` picture of the alpha frame at `at` is one that a decoder
/// can take at the size the frame gives: as far as its first bytes are there,
/// it is a key frame, and as far as its width and height are there, they are
/// the frame's.
///
/// The frame gives each side less one in three bytes; the picture gives each
/// side in the low fourteen bits of two bytes.
pub open spec fn alpha_frame_matches(data: Seq<u8>, at: int) -> bool {
    let picture = picture_start(data, at);
    picture + 3 <= data.len() ==> {
        &&& data[picture] % 2 == 0
        &&& picture + 10 <= data.len() ==> {
            &&& le16(data, picture + 6) % 0x4000 == le24(data, at + 14) + 1
            &&& le16(data, picture + 8) % 0x4000 == le24(data, at + 17) + 1
        }
    }
}

/// The first frame among the chunks that follow one another from `from` on,
/// each with its padding, or `None` where the chunks end, which is where no
/// chunk header is left, before a frame is found.
pub open spec fn first_frame(data: Seq<u8>, from: int) -> Option<int>
    decreases data.len() - from,
{
    let next = from + 8 + padded(le32(data, from + 4));
    if from < 0 || from + 8 > data.len() {
        None
    } else if is_frame(data, from) {
        Some(from)
    } else if next + 8 > data.len() {
        None
    } else {
        first_frame(data, next)
    }
}

/// Where the frames of `data` begin: at the first frame among the chunks
/// that follow the first chunk of the file, which begins twelve bytes in.
pub open spec fn frames_start(data: Seq<u8>) -> Option<int> {
    if data.len() < 20 {
        None
    } else {
        first_frame(data, 20 + padded(le32(data, 16)) as int)
    }
}

/// Whether a decoder reads on at `at`: a frame stands there, of no less than
/// thirty-two bytes, and all of it is there as far as the header of its first
/// chunk.
pub open spec fn frame_is_read(data: Seq<u8>, at: int) -> bool {
    is_frame(data, at) && at + 32 <= data.len() && le32(data, at + 4) >= 32
}

/// Whether each of the first `count` frames from `at` on that holds an `ALPH`
/// chunk holds a picture that matches it, frame after frame as a decoder
/// reads them: the next frame is looked for right behind the last, without
/// padding, and the frames end where no frame is read.
pub open spec fn frames_match_from(data: Seq<u8>, at: int, count: nat) -> bool
    decreases count,
{
    let next = at + 8 + le32(data, at + 4);
    if count == 0 || !frame_is_read(data, at) {
        true
    } else {
        &&& is_alpha_frame(data, at) ==> alpha_frame_matches(data, at)
        &&& frames_match_from(data, next, (count - 1) as nat)
    }
}

/// Whether each of the first `count` frames of `data` that holds an `ALPH`
/// chunk holds a picture that matches it.
pub open spec fn alpha_frames_match(data: Seq<u8>, count: nat) -> bool {
    match frames_start(data) {
        Some(at) => frames_match_from(data, at, count),
        None => true,
    }
}

/// The four bytes at `at` as a number.
fn read_le32(data: &[u8], at: usize) -> (value: u64)
    requires
        at + 4 <= data@.len(),
    ensures
        value == le32(data@, at as int),
        value <= u32::MAX,
{
    let length: usize = data.len();
    assert(at + 4 <= length);
    data[at] as u64 + 256 * (data[at + 1] as u64) + 65536 * (data[at + 2] as u64) + 16777216 * (
    data[at + 3] as u64)
}

/// The three bytes at `at` as a number.
fn read_le24(data: &[u8], at: usize) -> (value: u32)
    requires
        at + 3 <= data@.len(),
    ensures
        value == le24(data@, at as int),
        value < 0x100_0000,
{
    let length: usize = data.len();
    assert(at + 3 <= length);
    data[at] as u32 + 256 * (data[at + 1] as u32) + 65536 * (data[at + 2] as u32)
}

/// The two bytes at `at` as a number.
fn read_le16(data: &[u8], at: usize) -> (value: u32)
    requires
        at + 2 <= data@.len(),
    ensures
        value == le16(data@, at as int),
{
    let length: usize = data.len();
    assert(at + 2 <= length);
    data[at] as u32 + 256 * (data[at + 1] as u32)
}

/// The room that a chunk of `size` bytes takes.
fn room_of(size: u64) -> (room: u64)
    requires
        size <= u32::MAX,
    ensures
        room == padded(size as nat),
        room <= u32::MAX,
{
    if size % 2 == 1 && size < 0xffff_ffff {
        size + 1
    } else {
        size
    }
}

/// Whether a chunk starts at `at` that is a frame.
fn frame_starts(data: &[u8], at: usize) -> (found: bool)
    requires
        at + 8 <= data@.len(),
    ensures
        found == is_frame(data@, at as int),
{
    let length: usize = data.len();
    assert(at + 8 <= length);
    data[at] == 0x41 && data[at + 1] == 0x4e && data[at + 2] == 0x4d && data[at + 3] == 0x46
}

/// Whether the picture of the frame at `at` begins with an `ALPH` chunk.
fn alpha_starts(data: &[u8], at: usize) -> (found: bool)
    requires
        at + 32 <= data@.len(),
        is_frame(data@, at as int),
    ensures
        found == is_alpha_frame(data@, at as int),
{
    let length: usize = data.len();
    assert(at + 32 <= length);
    data[at + 24] == 0x41 && data[at + 25] == 0x4c && data[at + 26] == 0x50 && data[at + 27]
        == 0x48
}

/// Whether the picture of the alpha frame at `at` matches the frame.
fn alpha_frame_is_matched(data: &[u8], at: usize) -> (matched: bool)
    requires
        at + 32 <= data@.len(),
    ensures
        matched == alpha_frame_matches(data@, at as int),
{
    let length: usize = data.len();
    let room: u64 = room_of(read_le32(data, at + 28));
    let left: u64 = (length - (at + 32)) as u64;
    if left < room + 8 + 3 {
        return true;
    }
    let picture: usize = at + 32 + (room + 8) as usize;
    if data[picture] % 2 != 0 {
        return false;
    }
    if left < room + 8 + 10 {
        return true;
    }
    let width: u32 = read_le16(data, picture + 6);
    let height: u32 = read_le16(data, picture + 8);
    let frame_width: u32 = read_le24(data, at + 14) + 1;
    let frame_height: u32 = read_le24(data, at + 17) + 1;
    width % 0x4000 == frame_width && height % 0x4000 == frame_height
}

/// The place `ahead` bytes past `at`, if a chunk header can still be read
/// there.
fn place_ahead(data: &[u8], at: usize, ahead: u64) -> (place: Option<usize>)
    requires
        at <= data@.len(),
        ahead <= 20 + u32::MAX,
    ensures
        match place {
            Some(next) => next == at + ahead && next + 8 <= data@.len(),
            None => at + ahead + 8 > data@.len(),
        },
{
    let length: usize = data.len();
    let left: u64 = (length - at) as u64;
    if left < ahead + 8 {
        None
    } else {
        Some(at + ahead as usize)
    }
}

/// Finds where the frames of `data` begin.
fn find_frames(data: &[u8]) -> (start: Option<usize>)
    ensures
        match start {
            Some(at) => frames_start(data@) == Some(at as int) && is_frame(data@, at as int),
            None => frames_start(data@) is None,
        },
{
    if data.len() < 20 {
        return None;
    }
    let mut at: usize = match place_ahead(data, 0, 20 + room_of(read_le32(data, 16))) {
        Some(place) => place,
        None => {
            return None;
        },
    };
    loop
        invariant
            at + 8 <= data@.len(),
            data@.len() <= usize::MAX,
            frames_start(data@) == first_frame(data@, at as int),
        decreases data@.len() - at,
    {
        if frame_starts(data, at) {
            return Some(at);
        }
        let size: u64 = read_le32(data, at + 4);
        at = match place_ahead(data, at, 8 + room_of(size)) {
            Some(place) => place,
            None => {
                return None;
            },
        };
    }
}

/// Looks through the first `count` frames of `data` for one with an `ALPH`
/// chunk whose picture does not match it.
pub fn check_alpha_frames(data: &[u8], count: usize) -> (matching: bool)
    ensures
        matching == alpha_frames_match(data@, count as nat),
{
    let mut at: usize = match find_frames(data) {
        Some(start) => start,
        None => {
            return true;
        },
    };
    let mut left: usize = count;
    while left > 0
        invariant
            at <= data@.len(),
            alpha_frames_match(data@, count as nat) == frames_match_from(
                data@,
                at as int,
                left as nat,
            ),
        decreases left,
    {
        if data.len() - at < 32 || !frame_starts(data, at) {
            return true;
        }
        let size: u64 = read_le32(data, at + 4);
        if size < 32 {
            return true;
        }
        if alpha_starts(data, at) && !alpha_frame_is_matched(data, at) {
            return false;
        }
        left = left - 1;
        at = match place_ahead(data, at, 8 + size) {
            Some(place) => place,
            None => {
                assert(left > 0 ==> frames_match_from(
                    data@,
                    at + 8 + size,
                    left as nat,
                ));
                return true;
            },
        };
    }
    true
}

} // verus!
