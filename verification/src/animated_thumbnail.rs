//! Thumbnails of animated images: a short looping video, made by `ffmpeg`.
//! This module writes the command and reads its outcome; running it is the
//! caller's part.

use vstd::prelude::*;
use vstd::utf8::{decode_utf8, valid_utf8};
use vstd::string::to_string_from_display_ensures;
use crate::errors::ThumbnailError;
use crate::paths::{
    file_name,
    is_plain_extension,
    join,
    path_file_name,
    path_join,
    path_with_extension,
    with_extension,
};

verus! {

/// `x` if it is even, else the even number just above it.
pub open spec fn even_above(x: int) -> int {
    x + x % 2
}

/// Returns `x` if it is even, and `x + 1` if it is odd. The result is wider
/// than `x` so that the largest odd `u32` has one too.
pub fn ensure_even(x: u32) -> (even: u64)
    ensures
        even == even_above(x as int),
        even % 2 == 0,
        x <= even <= x + 1,
{
    if x % 2 == 0 {
        x as u64
    } else {
        x as u64 + 1
    }
}

/// The character for one decimal digit.
pub open spec fn digit_char(d: int) -> char
    recommends
        0 <= d < 10,
{
    if d == 0 {
        '0'
    } else if d == 1 {
        '1'
    } else if d == 2 {
        '2'
    } else if d == 3 {
        '3'
    } else if d == 4 {
        '4'
    } else if d == 5 {
        '5'
    } else if d == 6 {
        '6'
    } else if d == 7 {
        '7'
    } else if d == 8 {
        '8'
    } else {
        '9'
    }
}

/// `n` written in decimal, without sign or leading zeros.
pub open spec fn decimal(n: nat) -> Seq<char>
    decreases n,
{
    if n < 10 {
        seq![digit_char(n as int)]
    } else {
        decimal(n / 10).push(digit_char((n % 10) as int))
    }
}

/// The text of one decimal digit.
fn digit_text(d: u64) -> (text: &'static str)
    requires
        d < 10,
    ensures
        text@ == seq![digit_char(d as int)],
{
    proof {
        reveal_strlit("0");
        reveal_strlit("1");
        reveal_strlit("2");
        reveal_strlit("3");
        reveal_strlit("4");
        reveal_strlit("5");
        reveal_strlit("6");
        reveal_strlit("7");
        reveal_strlit("8");
        reveal_strlit("9");
    }
    let text = if d == 0 {
        "0"
    } else if d == 1 {
        "1"
    } else if d == 2 {
        "2"
    } else if d == 3 {
        "3"
    } else if d == 4 {
        "4"
    } else if d == 5 {
        "5"
    } else if d == 6 {
        "6"
    } else if d == 7 {
        "7"
    } else if d == 8 {
        "8"
    } else {
        "9"
    };
    assert(text@ =~= seq![digit_char(d as int)]);
    text
}

/// Writes `n` in decimal.
pub fn decimal_text(n: u64) -> (text: String)
    ensures
        text@ == decimal(n as nat),
    decreases n,
{
    if n < 10 {
        String::from_str(digit_text(n))
    } else {
        let mut text = decimal_text(n / 10);
        text.append(digit_text(n % 10));
        assert(text@ =~= decimal(n as nat));
        text
    }
}

/// The filter that has the encoder scale its output: `scale=W:H`, with `W`
/// and `H` the even numbers at or just above `width` and `height`. Encoders
/// commonly refuse an odd side.
pub open spec fn scale_filter(width: u32, height: u32) -> Seq<char> {
    "scale="@ + decimal(even_above(width as int) as nat) + ":"@ + decimal(
        even_above(height as int) as nat,
    )
}

/// Writes the scale filter for a video of the given size.
pub fn scale_filter_text(width: u32, height: u32) -> (text: String)
    ensures
        text@ == scale_filter(width, height),
{
    let mut text = String::from_str("scale=");
    text.append(decimal_text(ensure_even(width)).as_str());
    text.append(":");
    text.append(decimal_text(ensure_even(height)).as_str());
    text
}

/// The arguments with which `ffmpeg` turns the image at `gif_path` into a
/// looping video at `thumbnail_path`, scaled to the even size at or just above
/// `width` by `height`. The pixel format and the fast-start flag are always
/// the same.
pub open spec fn encoder_arguments(
    gif_path: Seq<char>,
    thumbnail_path: Seq<char>,
    width: u32,
    height: u32,
) -> Seq<Seq<char>> {
    seq![
        "-i"@,
        gif_path,
        "-movflags"@,
        "faststart"@,
        "-pix_fmt"@,
        "yuv420p"@,
        "-vf"@,
        scale_filter(width, height),
        thumbnail_path,
    ]
}

/// A command for the caller to run: the program, its arguments, and the file
/// that it writes if it succeeds.
#[derive(Debug)]
pub struct EncoderCommand {
    pub program: String,
    pub arguments: Vec<String>,
    pub thumbnail_path: String,
}

impl EncoderCommand {
    /// Whether this is the command that encodes `gif_path` into
    /// `thumbnail_path` at the given size.
    pub open spec fn encodes(
        &self,
        gif_path: Seq<char>,
        thumbnail_path: Seq<char>,
        width: u32,
        height: u32,
    ) -> bool {
        &&& self.program@ == "ffmpeg"@
        &&& self.arguments.deep_view() == encoder_arguments(
            gif_path,
            thumbnail_path,
            width,
            height,
        )
        &&& self.thumbnail_path@ == thumbnail_path
    }
}

/// Where the video for the image at `gif_path` goes: into `out_dir`, under the
/// image's file name with the extension `mp4`. `None` for a path without a
/// file name.
pub open spec fn video_path(gif_path: Seq<char>, out_dir: Seq<char>) -> Option<Seq<char>> {
    match path_file_name(gif_path) {
        Some(name) => Some(path_with_extension(path_join(out_dir, name), "mp4"@)),
        None => None,
    }
}

/// Whether `plan` is what `create_animated_gif_thumbnail` answers for these
/// arguments: the command that encodes the image into its video path, or
/// `MissingFileName` where the image's path has no file name.
pub open spec fn plans_animated_thumbnail(
    gif_path: Seq<char>,
    out_dir: Seq<char>,
    width: u32,
    height: u32,
    plan: Result<EncoderCommand, ThumbnailError>,
) -> bool {
    match video_path(gif_path, out_dir) {
        Some(thumbnail_path) => plan matches Ok(command) && command.encodes(
            gif_path,
            thumbnail_path,
            width,
            height,
        ),
        None => plan == Err::<EncoderCommand, ThumbnailError>(ThumbnailError::MissingFileName),
    }
}

/// Plans the thumbnail of an animated image: a video that plays the
/// animation in a loop, which is far smaller than a resized animation.
///
/// Answers the `ffmpeg` command to run. Once it has run, `finish` on the
/// command says what came of the thumbnail.
pub fn create_animated_gif_thumbnail(
    gif_path: &str,
    out_dir: &str,
    width: u32,
    height: u32,
) -> (plan: Result<EncoderCommand, ThumbnailError>)
    ensures
        plans_animated_thumbnail(gif_path@, out_dir@, width, height, plan),
{
    let name = match file_name(gif_path) {
        Some(name) => name,
        None => {
            return Err(ThumbnailError::MissingFileName);
        },
    };
    proof {
        reveal_strlit("mp4");
        assert(is_plain_extension("mp4"@));
    }
    let thumbnail_path = with_extension(join(out_dir, name.as_str()).as_str(), "mp4");
    let mut arguments: Vec<String> = Vec::new();
    arguments.push(String::from_str("-i"));
    arguments.push(String::from_str(gif_path));
    arguments.push(String::from_str("-movflags"));
    arguments.push(String::from_str("faststart"));
    arguments.push(String::from_str("-pix_fmt"));
    arguments.push(String::from_str("yuv420p"));
    arguments.push(String::from_str("-vf"));
    arguments.push(scale_filter_text(width, height));
    arguments.push(thumbnail_path.clone());
    assert(arguments.deep_view() =~= encoder_arguments(
        gif_path@,
        thumbnail_path@,
        width,
        height,
    ));
    Ok(EncoderCommand { program: String::from_str("ffmpeg"), arguments, thumbnail_path })
}

/// What came of running a command: whether it exited with success, and what
/// it wrote to its standard error.
#[derive(Debug)]
pub struct EncoderOutput {
    pub success: bool,
    pub stderr: Vec<u8>,
}

/// `core::str::from_utf8` accepts exactly the byte strings that are valid
/// UTF-8, and the text it answers is what they encode.
pub assume_specification[ core::str::from_utf8 ](v: &[u8]) -> (text: Result<
    &str,
    core::str::Utf8Error,
>)
    ensures
        text is Ok <==> valid_utf8(v@),
        text matches Ok(decoded) ==> decoded@ == decode_utf8(v@),
;

/// The message for an encoder that could not be started: a fixed opening,
/// then what the system said.
pub fn encoder_not_run(reason: &str) -> (error: ThumbnailError)
    ensures
        error matches ThumbnailError::CommandFailed(text) && text@ == "Failed to run ffmpeg: "@
            + reason@,
{
    let mut text = String::from_str("Failed to run ffmpeg: ");
    text.append(reason);
    ThumbnailError::CommandFailed(text)
}

/// Whether `result` is what an encoder that ran leaves of a thumbnail at
/// `thumbnail_path`: the path if it succeeded; else `CommandFailed` with what
/// it wrote to standard error, or `Utf8Error` where that is not UTF-8.
pub open spec fn concludes_encoding(
    thumbnail_path: String,
    output: EncoderOutput,
    result: Result<String, ThumbnailError>,
) -> bool {
    if output.success {
        result == Ok::<String, ThumbnailError>(thumbnail_path)
    } else if valid_utf8(output.stderr@) {
        result matches Err(ThumbnailError::CommandFailed(text)) && text@ == decode_utf8(
            output.stderr@,
        )
    } else {
        result matches Err(ThumbnailError::Utf8Error(_))
    }
}

/// Reads the outcome of an encoder that ran.
pub fn encoder_ran(thumbnail_path: String, output: &EncoderOutput) -> (result: Result<
    String,
    ThumbnailError,
>)
    ensures
        concludes_encoding(thumbnail_path, *output, result),
{
    if output.success {
        Ok(thumbnail_path)
    } else {
        match core::str::from_utf8(output.stderr.as_slice()) {
            Ok(text) => Err(ThumbnailError::CommandFailed(String::from_str(text))),
            Err(error) => Err(ThumbnailError::Utf8Error(error)),
        }
    }
}

impl EncoderCommand {
    /// Whether `result` is what `finish` answers for this command and
    /// `outcome`: what the encoder left where it ran, and where it could not
    /// be started `CommandFailed` with `Failed to run ffmpeg: ` and what the
    /// error's `Display` gives.
    pub open spec fn finishes(
        self,
        outcome: Result<EncoderOutput, std::io::Error>,
        result: Result<String, ThumbnailError>,
    ) -> bool {
        match outcome {
            Ok(output) => concludes_encoding(self.thumbnail_path, output, result),
            Err(error) => result matches Err(ThumbnailError::CommandFailed(text)) && exists|
                reason: String,
            |
                #[trigger] to_string_from_display_ensures::<std::io::Error>(&error, reason) && text@
                    == "Failed to run ffmpeg: "@ + reason@,
        }
    }

    /// Says what came of the thumbnail, given what came of running this
    /// command: `Err` of the system where it could not be started, else what
    /// it left when it ended.
    pub fn finish(self, outcome: Result<EncoderOutput, std::io::Error>) -> (result: Result<
        String,
        ThumbnailError,
    >)
        ensures
            self.finishes(outcome, result),
    {
        match outcome {
            Ok(output) => encoder_ran(self.thumbnail_path, &output),
            Err(error) => {
                let reason = error.to_string();
                Err(encoder_not_run(reason.as_str()))
            },
        }
    }
}

} // verus!
