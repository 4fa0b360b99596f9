//! Thumbnails of still images: the image itself, resized. This module says
//! what to resize and where to, and reads the outcome; decoding, resampling
//! and writing are the caller's part.

use vstd::prelude::*;
use crate::errors::ThumbnailError;
use crate::paths::{file_name, join, path_file_name, path_join};

verus! {

/// A resize for the caller to carry out: decode the image at `image_path`,
/// turn it as its orientation tag says, resize it to `width` by `height` and
/// write it to `thumbnail_path`.
#[derive(Debug)]
pub struct ResizeJob {
    pub image_path: String,
    pub thumbnail_path: String,
    pub width: u32,
    pub height: u32,
}

/// Why a resize gave no thumbnail.
#[derive(Debug)]
pub enum ResizeFailure {
    /// The image file could not be opened.
    Open(std::io::Error),
    /// The image could not be decoded, or its orientation not read.
    Decode(image::ImageError),
    /// The thumbnail could not be encoded or written.
    Save(image::ImageError),
}

impl ResizeJob {
    /// Whether this is the job that resizes `image_path` into
    /// `thumbnail_path` at the given size.
    pub open spec fn resizes(
        &self,
        image_path: Seq<char>,
        thumbnail_path: Seq<char>,
        width: u32,
        height: u32,
    ) -> bool {
        &&& self.image_path@ == image_path
        &&& self.thumbnail_path@ == thumbnail_path
        &&& self.width == width
        &&& self.height == height
    }

    /// What `finish` answers for this job and `outcome`.
    pub open spec fn finished(self, outcome: Result<(), ResizeFailure>) -> Result<
        String,
        ThumbnailError,
    > {
        match outcome {
            Ok(_) => Ok(self.thumbnail_path),
            Err(ResizeFailure::Open(error)) => Err(ThumbnailError::IoError(error)),
            Err(ResizeFailure::Decode(error)) => Err(ThumbnailError::ImageOpenError(error)),
            Err(ResizeFailure::Save(error)) => Err(ThumbnailError::ImageSaveError(error)),
        }
    }

    /// Says what came of the thumbnail, given what came of the resize: the
    /// thumbnail's path, or the error that stands for the step that failed.
    pub fn finish(self, outcome: Result<(), ResizeFailure>) -> (result: Result<
        String,
        ThumbnailError,
    >)
        ensures
            result == self.finished(outcome),
    {
        match outcome {
            Ok(_) => Ok(self.thumbnail_path),
            Err(ResizeFailure::Open(error)) => Err(ThumbnailError::IoError(error)),
            Err(ResizeFailure::Decode(error)) => Err(ThumbnailError::ImageOpenError(error)),
            Err(ResizeFailure::Save(error)) => Err(ThumbnailError::ImageSaveError(error)),
        }
    }
}

/// Where the thumbnail of the image at `path` goes: into `out_dir`, under the
/// image's file name. `None` for a path without a file name.
pub open spec fn thumbnail_path(path: Seq<char>, out_dir: Seq<char>) -> Option<Seq<char>> {
    match path_file_name(path) {
        Some(name) => Some(path_join(out_dir, name)),
        None => None,
    }
}

/// Works out where the thumbnail of the image at `path` goes.
pub fn thumbnail_path_for(path: &str, out_dir: &str) -> (found: Option<String>)
    ensures
        match found {
            Some(thumbnail) => thumbnail_path(path@, out_dir@) == Some(thumbnail@),
            None => thumbnail_path(path@, out_dir@) is None,
        },
{
    match file_name(path) {
        Some(name) => Some(join(out_dir, name.as_str())),
        None => None,
    }
}

/// Whether `plan` is what `create_static_thumbnail` answers for these
/// arguments: the job that resizes the image into its thumbnail path, or
/// `MissingFileName` where the image's path has no file name.
pub open spec fn plans_static_thumbnail(
    image_path: Seq<char>,
    out_dir: Seq<char>,
    width: u32,
    height: u32,
    plan: Result<ResizeJob, ThumbnailError>,
) -> bool {
    match thumbnail_path(image_path, out_dir) {
        Some(thumbnail) => plan matches Ok(job) && job.resizes(
            image_path,
            thumbnail,
            width,
            height,
        ),
        None => plan == Err::<ResizeJob, ThumbnailError>(ThumbnailError::MissingFileName),
    }
}

/// Plans the thumbnail of a still image: the image resized to `width` by
/// `height`, neither of them changed.
///
/// Answers the resize to carry out. Once that is done, `finish` on the job
/// says what came of the thumbnail.
pub fn create_static_thumbnail(image_path: &str, out_dir: &str, width: u32, height: u32) -> (plan:
    Result<ResizeJob, ThumbnailError>)
    ensures
        plans_static_thumbnail(image_path@, out_dir@, width, height, plan),
{
    match thumbnail_path_for(image_path, out_dir) {
        Some(thumbnail_path) => Ok(
            ResizeJob { image_path: String::from_str(image_path), thumbnail_path, width, height },
        ),
        None => Err(ThumbnailError::MissingFileName),
    }
}

} // verus!
