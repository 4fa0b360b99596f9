//! What can go wrong while a thumbnail is made.

use vstd::prelude::*;
use vstd::std_specs::convert::FromSpecImpl;
use vstd::string::to_string_from_display_ensures;

verus! {

/// `image::ImageError`, carried through as it came.
#[verifier::external_type_specification]
#[verifier::external_body]
pub struct ExImageError(image::ImageError);

/// `std::io::Error`, carried through as it came.
#[verifier::external_type_specification]
#[verifier::external_body]
pub struct ExIoError(std::io::Error);

/// `std::str::Utf8Error`, carried through as it came.
#[verifier::external_type_specification]
#[verifier::external_body]
pub struct ExUtf8Error(std::str::Utf8Error);

/// Why no thumbnail was made.
#[derive(Debug)]
pub enum ThumbnailError {
    /// Neither a width nor a height was asked for.
    InvalidTarget,
    /// The path of the image does not end in a file name.
    MissingFileName,
    /// The image could not be opened or decoded.
    ImageOpenError(image::ImageError),
    /// The thumbnail could not be encoded or written.
    ImageSaveError(image::ImageError),
    /// The video encoder could not be run, or ran and failed; the text says
    /// which.
    CommandFailed(String),
    /// The video encoder failed and what it wrote is not UTF-8.
    Utf8Error(std::str::Utf8Error),
    /// A path is not UTF-8.
    PathConversionError,
    /// The thumbnail would replace the image it is made from.
    SameInputOutputPath,
    /// A file or directory could not be read or made.
    IoError(std::io::Error),
}

/// `head` followed by `detail`.
fn headed(head: &str, detail: &str) -> (text: String)
    ensures
        text@ == head@ + detail@,
        head@.is_prefix_of(text@),
{
    let mut text = String::from_str(head);
    text.append(detail);
    assert(text@.subrange(0, head@.len() as int) =~= head@);
    text
}

/// `head` and nothing more.
fn plain(head: &str) -> (text: String)
    ensures
        text@ == head@,
        head@.is_prefix_of(text@),
{
    let text = String::from_str(head);
    assert(text@.subrange(0, head@.len() as int) =~= head@);
    text
}

impl ThumbnailError {
    /// The words that the message of this error begins with.
    pub open spec fn headline(&self) -> Seq<char> {
        match self {
            ThumbnailError::InvalidTarget =>
                "Failed to create thumbnail: you must pass at least one of --width or --height"@,
            ThumbnailError::MissingFileName => "Image path is missing a file name"@,
            ThumbnailError::ImageOpenError(_) => "Failed to open image: "@,
            ThumbnailError::ImageSaveError(_) => "Failed to save thumbnail: "@,
            ThumbnailError::CommandFailed(_) => "ffmpeg command failed: "@,
            ThumbnailError::Utf8Error(_) => "Failed to decode ffmpeg output: "@,
            ThumbnailError::PathConversionError => "Failed to convert path to string"@,
            ThumbnailError::SameInputOutputPath =>
                "Cannot write thumbnail to the same path as the original image"@,
            ThumbnailError::IoError(_) => "I/O error: "@,
        }
    }

    /// Whether `text` is the message of this error: its headline, followed
    /// for `CommandFailed` by the text it carries, and for an error that
    /// carries another by what that one's `Display` gives.
    pub open spec fn has_message(&self, text: Seq<char>) -> bool {
        match self {
            ThumbnailError::ImageOpenError(err) => exists|cause: String|
                #[trigger] to_string_from_display_ensures::<image::ImageError>(err, cause) && text
                    == self.headline() + cause@,
            ThumbnailError::ImageSaveError(err) => exists|cause: String|
                #[trigger] to_string_from_display_ensures::<image::ImageError>(err, cause) && text
                    == self.headline() + cause@,
            ThumbnailError::Utf8Error(err) => exists|cause: String|
                #[trigger] to_string_from_display_ensures::<std::str::Utf8Error>(err, cause) && text
                    == self.headline() + cause@,
            ThumbnailError::IoError(err) => exists|cause: String|
                #[trigger] to_string_from_display_ensures::<std::io::Error>(err, cause) && text
                    == self.headline() + cause@,
            ThumbnailError::CommandFailed(detail) => text == self.headline() + detail@,
            _ => text == self.headline(),
        }
    }

    /// The message to show for this error.
    pub fn message(&self) -> (text: String)
        ensures
            self.has_message(text@),
            self.headline().is_prefix_of(text@),
    {
        match self {
            ThumbnailError::InvalidTarget => plain(
                "Failed to create thumbnail: you must pass at least one of --width or --height",
            ),
            ThumbnailError::MissingFileName => plain("Image path is missing a file name"),
            ThumbnailError::ImageOpenError(err) => {
                let cause = err.to_string();
                headed("Failed to open image: ", cause.as_str())
            },
            ThumbnailError::ImageSaveError(err) => {
                let cause = err.to_string();
                headed("Failed to save thumbnail: ", cause.as_str())
            },
            ThumbnailError::CommandFailed(detail) => headed(
                "ffmpeg command failed: ",
                detail.as_str(),
            ),
            ThumbnailError::Utf8Error(err) => {
                let cause = err.to_string();
                headed("Failed to decode ffmpeg output: ", cause.as_str())
            },
            ThumbnailError::PathConversionError => plain("Failed to convert path to string"),
            ThumbnailError::SameInputOutputPath => plain(
                "Cannot write thumbnail to the same path as the original image",
            ),
            ThumbnailError::IoError(err) => {
                let cause = err.to_string();
                headed("I/O error: ", cause.as_str())
            },
        }
    }
}

impl From<image::ImageError> for ThumbnailError {
    fn from(err: image::ImageError) -> (error: ThumbnailError) {
        ThumbnailError::ImageOpenError(err)
    }
}

impl FromSpecImpl<image::ImageError> for ThumbnailError {
    open spec fn obeys_from_spec() -> bool {
        true
    }

    open spec fn from_spec(err: image::ImageError) -> ThumbnailError {
        ThumbnailError::ImageOpenError(err)
    }
}

impl From<std::str::Utf8Error> for ThumbnailError {
    fn from(err: std::str::Utf8Error) -> (error: ThumbnailError) {
        ThumbnailError::Utf8Error(err)
    }
}

impl FromSpecImpl<std::str::Utf8Error> for ThumbnailError {
    open spec fn obeys_from_spec() -> bool {
        true
    }

    open spec fn from_spec(err: std::str::Utf8Error) -> ThumbnailError {
        ThumbnailError::Utf8Error(err)
    }
}

impl From<std::io::Error> for ThumbnailError {
    fn from(err: std::io::Error) -> (error: ThumbnailError) {
        ThumbnailError::IoError(err)
    }
}

impl FromSpecImpl<std::io::Error> for ThumbnailError {
    open spec fn obeys_from_spec() -> bool {
        true
    }

    open spec fn from_spec(err: std::io::Error) -> ThumbnailError {
        ThumbnailError::IoError(err)
    }
}

} // verus!
