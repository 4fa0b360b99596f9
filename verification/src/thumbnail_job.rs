//! Making a thumbnail, step by step.
//!
//! `create_thumbnail` starts a job and says what is to be done first. The
//! caller does it, reports the outcome to `advance`, and is told the next
//! step, until the job is `Finished`. A job goes through at most four steps:
//! make the directory, measure the image, read it, and encode or resize it.

use vstd::prelude::*;
use crate::animated_thumbnail::{
    create_animated_gif_thumbnail,
    plans_animated_thumbnail,
    video_path,
    EncoderCommand,
    EncoderOutput,
};
use crate::errors::ThumbnailError;
use crate::get_thumbnail_dimensions::{get_thumbnail_dimensions, thumbnail_size, TargetDimension};
use crate::is_animated::{animated, is_animated};
use crate::paths::{path_eq, same_path};
use crate::static_thumbnail::{
    create_static_thumbnail,
    plans_static_thumbnail,
    thumbnail_path,
    thumbnail_path_for,
    ResizeFailure,
    ResizeJob,
};

verus! {

/// What a job waits for: something for the caller to do, or nothing more.
#[derive(Debug)]
pub enum Step {
    /// Make the directory that `thumbnail_path` lies in, with all that lie
    /// above it.
    CreateParentDirectory { thumbnail_path: String },
    /// Open the image and read its width and height.
    MeasureImage,
    /// Read the content of the image file. The thumbnail will be `width` by
    /// `height`.
    ReadImage { width: u32, height: u32 },
    /// Run this command, which encodes an animation as a looping video.
    RunEncoder(EncoderCommand),
    /// Carry out this resize of a still image.
    ResizeImage(ResizeJob),
    /// Nothing more to do: the thumbnail is at this path, or there is none
    /// for this reason.
    Finished(Result<String, ThumbnailError>),
}

/// What came of a step.
#[derive(Debug)]
pub enum Outcome {
    /// Answers `CreateParentDirectory`.
    DirectoryCreated(Result<(), std::io::Error>),
    /// Answers `MeasureImage`, with the image's `(width, height)`.
    ImageMeasured(Result<(u32, u32), image::ImageError>),
    /// Answers `ReadImage`, with the content of the file.
    ImageRead(Result<Vec<u8>, std::io::Error>),
    /// Answers `RunEncoder`; `Err` where the command could not be started.
    EncoderRan(Result<EncoderOutput, std::io::Error>),
    /// Answers `ResizeImage`.
    ImageResized(Result<(), ResizeFailure>),
}

/// A thumbnail in the making: what was asked for, and the step that it now
/// waits for.
#[derive(Debug)]
pub struct ThumbnailJob {
    pub path: String,
    pub out_dir: String,
    pub target: TargetDimension,
    pub step: Step,
}

impl Step {
    /// How many outcomes a job at this step may still need.
    pub open spec fn steps_left(self) -> nat {
        match self {
            Step::CreateParentDirectory { .. } => 4,
            Step::MeasureImage => 3,
            Step::ReadImage { .. } => 2,
            Step::RunEncoder(_) => 1,
            Step::ResizeImage(_) => 1,
            Step::Finished(_) => 0,
        }
    }

    /// Whether `outcome` is the kind of outcome that this step waits for.
    pub open spec fn answered_by(self, outcome: Outcome) -> bool {
        match (self, outcome) {
            (Step::CreateParentDirectory { .. }, Outcome::DirectoryCreated(_)) => true,
            (Step::MeasureImage, Outcome::ImageMeasured(_)) => true,
            (Step::ReadImage { .. }, Outcome::ImageRead(_)) => true,
            (Step::RunEncoder(_), Outcome::EncoderRan(_)) => true,
            (Step::ResizeImage(_), Outcome::ImageResized(_)) => true,
            _ => false,
        }
    }
}

impl ThumbnailJob {
    /// The error that ends a job.
    pub open spec fn failed(error: ThumbnailError) -> Step {
        Step::Finished(Err(error))
    }

    /// Whether this job is at a step that `create_thumbnail` and `advance`
    /// lead to for what was asked, for some outcomes.
    ///
    /// The directory to make is that of the thumbnail. Past that step the
    /// thumbnail does not lie on the image, and what is encoded or resized is
    /// the image, into the place that belongs to it in `out_dir`.
    pub open spec fn in_order(self) -> bool {
        match self.step {
            Step::CreateParentDirectory { thumbnail_path: made } => thumbnail_path(
                self.path@,
                self.out_dir@,
            ) == Some(made@),
            Step::MeasureImage | Step::ReadImage { .. } => thumbnail_path(
                self.path@,
                self.out_dir@,
            ) matches Some(wanted) && !path_eq(self.path@, wanted),
            Step::RunEncoder(command) => video_path(self.path@, self.out_dir@) == Some(
                command.thumbnail_path@,
            ),
            Step::ResizeImage(job) => {
                &&& job.image_path@ == self.path@
                &&& thumbnail_path(self.path@, self.out_dir@) == Some(job.thumbnail_path@)
                &&& !path_eq(self.path@, job.thumbnail_path@)
            },
            Step::Finished(_) => true,
        }
    }

    /// Whether `next` is the step that follows when the step of this job had
    /// the given outcome.
    ///
    /// - The directory could not be made: `IoError`. It was made: the job ends
    ///   with `SameInputOutputPath` where the thumbnail would lie on the image
    ///   itself, and goes on to measure the image otherwise.
    /// - The image could not be opened: `ImageOpenError`. It was measured: the
    ///   thumbnail's size is settled, and the file is read next.
    /// - The file could not be read: `IoError`. It was read: an animated
    ///   image goes to the encoder and a still one to the resize, both with
    ///   the size that was settled.
    /// - The encoder or the resize ended: the job ends with what they left.
    /// - An outcome that does not answer the step changes nothing.
    pub open spec fn follows(self, outcome: Outcome, next: Step) -> bool {
        match (self.step, outcome) {
            (Step::CreateParentDirectory { thumbnail_path }, Outcome::DirectoryCreated(made)) => {
                match made {
                    Ok(_) => if path_eq(self.path@, thumbnail_path@) {
                        next == Self::failed(ThumbnailError::SameInputOutputPath)
                    } else {
                        next == Step::MeasureImage
                    },
                    Err(error) => next == Self::failed(ThumbnailError::IoError(error)),
                }
            },
            (Step::MeasureImage, Outcome::ImageMeasured(opened)) => {
                match opened {
                    Ok(dimensions) => next matches Step::ReadImage { width, height } && (
                        width as int,
                        height as int,
                    ) == thumbnail_size(dimensions, self.target),
                    Err(error) => next == Self::failed(ThumbnailError::ImageOpenError(error)),
                }
            },
            (Step::ReadImage { width, height }, Outcome::ImageRead(read)) => {
                match read {
                    Ok(data) => if animated(self.path@, data@) {
                        match next {
                            Step::RunEncoder(command) => plans_animated_thumbnail(
                                self.path@,
                                self.out_dir@,
                                width,
                                height,
                                Ok(command),
                            ),
                            Step::Finished(Err(error)) => plans_animated_thumbnail(
                                self.path@,
                                self.out_dir@,
                                width,
                                height,
                                Err(error),
                            ),
                            _ => false,
                        }
                    } else {
                        match next {
                            Step::ResizeImage(job) => plans_static_thumbnail(
                                self.path@,
                                self.out_dir@,
                                width,
                                height,
                                Ok(job),
                            ),
                            Step::Finished(Err(error)) => plans_static_thumbnail(
                                self.path@,
                                self.out_dir@,
                                width,
                                height,
                                Err(error),
                            ),
                            _ => false,
                        }
                    },
                    Err(error) => next == Self::failed(ThumbnailError::IoError(error)),
                }
            },
            (Step::RunEncoder(command), Outcome::EncoderRan(ran)) => next matches Step::Finished(
                result,
            ) && command.finishes(ran, result),
            (Step::ResizeImage(job), Outcome::ImageResized(resized)) => next == Step::Finished(
                job.finished(resized),
            ),
            _ => next == self.step,
        }
    }

    /// Takes the outcome of the step that this job waited for and answers the
    /// job at its next step.
    ///
    /// What was asked for stays as it was. The next step is the one that
    /// `follows` describes, and it is nearer to the end wherever the outcome
    /// answers the step. A job that was in order still is: in particular, no
    /// still thumbnail is ever to be written onto its own image.
    pub fn advance(self, outcome: Outcome) -> (next: ThumbnailJob)
        ensures
            next.path == self.path,
            next.out_dir == self.out_dir,
            next.target == self.target,
            self.follows(outcome, next.step),
            self.step.answered_by(outcome) ==> next.step.steps_left() < self.step.steps_left(),
            !self.step.answered_by(outcome) ==> next.step == self.step,
            self.in_order() ==> next.in_order(),
    {
        let ThumbnailJob { path, out_dir, target, step } = self;
        let step = match (step, outcome) {
            (Step::CreateParentDirectory { thumbnail_path }, Outcome::DirectoryCreated(made)) => {
                match made {
                    Ok(_) => if same_path(path.as_str(), thumbnail_path.as_str()) {
                        Step::Finished(Err(ThumbnailError::SameInputOutputPath))
                    } else {
                        Step::MeasureImage
                    },
                    Err(error) => Step::Finished(Err(ThumbnailError::IoError(error))),
                }
            },
            (Step::MeasureImage, Outcome::ImageMeasured(opened)) => {
                match get_thumbnail_dimensions(opened, target) {
                    Ok((width, height)) => Step::ReadImage { width, height },
                    Err(error) => Step::Finished(Err(error)),
                }
            },
            (Step::ReadImage { width, height }, Outcome::ImageRead(read)) => {
                match is_animated(path.as_str(), read) {
                    Ok(true) => {
                        match create_animated_gif_thumbnail(
                            path.as_str(),
                            out_dir.as_str(),
                            width,
                            height,
                        ) {
                            Ok(command) => Step::RunEncoder(command),
                            Err(error) => Step::Finished(Err(error)),
                        }
                    },
                    Ok(false) => {
                        match create_static_thumbnail(
                            path.as_str(),
                            out_dir.as_str(),
                            width,
                            height,
                        ) {
                            Ok(job) => Step::ResizeImage(job),
                            Err(error) => Step::Finished(Err(error)),
                        }
                    },
                    Err(error) => Step::Finished(Err(ThumbnailError::IoError(error))),
                }
            },
            (Step::RunEncoder(command), Outcome::EncoderRan(ran)) => Step::Finished(
                command.finish(ran),
            ),
            (Step::ResizeImage(job), Outcome::ImageResized(resized)) => Step::Finished(
                job.finish(resized),
            ),
            (step, _) => step,
        };
        ThumbnailJob { path, out_dir, target, step }
    }
}

/// Whether `step` is the first step of a thumbnail of the image at `path` in
/// `out_dir`: to make the directory that the thumbnail goes into, or, for a
/// path without a file name, to end with `MissingFileName`.
pub open spec fn first_step(path: Seq<char>, out_dir: Seq<char>, step: Step) -> bool {
    match thumbnail_path(path, out_dir) {
        Some(wanted) => step matches Step::CreateParentDirectory { thumbnail_path }
            && thumbnail_path@ == wanted,
        None => step == ThumbnailJob::failed(ThumbnailError::MissingFileName),
    }
}

/// Starts the thumbnail of the image at `path`, to be written into `out_dir`
/// within the limits of `target`.
///
/// Answers the job at its first step. `advance` takes it from there.
pub fn create_thumbnail(path: &str, out_dir: &str, target: TargetDimension) -> (job: ThumbnailJob)
    ensures
        job.path@ == path@,
        job.out_dir@ == out_dir@,
        job.target == target,
        first_step(path@, out_dir@, job.step),
        job.in_order(),
{
    let step = match thumbnail_path_for(path, out_dir) {
        Some(thumbnail_path) => Step::CreateParentDirectory { thumbnail_path },
        None => Step::Finished(Err(ThumbnailError::MissingFileName)),
    };
    ThumbnailJob { path: String::from_str(path), out_dir: String::from_str(out_dir), target, step }
}

} // verus!
