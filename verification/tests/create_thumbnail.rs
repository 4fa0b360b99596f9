use create_thumbnail::{
    create_thumbnail, EncoderOutput, Outcome, ResizeFailure, Step, TargetDimension,
    ThumbnailError, ThumbnailJob,
};
use std::path::PathBuf;

fn picture(seed: u8) -> image::RgbaImage {
    image::RgbaImage::from_fn(16, 16, |x, y| {
        let mix = (x * 31 + y * 17 + u32::from(seed) * 101) % 251;
        image::Rgba([mix as u8, (255 - mix) as u8, seed, 255])
    })
}

fn gif_with_frames(count: u8) -> Vec<u8> {
    let mut bytes = Vec::new();
    {
        let mut encoder = image::codecs::gif::GifEncoder::new(&mut bytes);
        for seed in 0..count {
            encoder.encode_frame(image::Frame::new(picture(seed))).unwrap();
        }
    }
    bytes
}

fn test_dir() -> PathBuf {
    PathBuf::from("/tmp/thumbnails/of/a/test")
}

/// Takes a job through its steps as a caller would, for an image with the
/// given dimensions and content on which every step succeeds, and returns the
/// path of the thumbnail with the size that the last step was to give it.
fn run(job: ThumbnailJob, dimensions: (u32, u32), content: &[u8]) -> (PathBuf, String, (u32, u32)) {
    let mut job = job;
    let mut made = (String::new(), (0, 0));
    for _ in 0..8 {
        let outcome = match &job.step {
            Step::CreateParentDirectory { .. } => Outcome::DirectoryCreated(Ok(())),
            Step::MeasureImage => Outcome::ImageMeasured(Ok(dimensions)),
            Step::ReadImage { .. } => Outcome::ImageRead(Ok(content.to_vec())),
            Step::RunEncoder(command) => {
                made = (command.arguments[7].clone(), (0, 0));
                Outcome::EncoderRan(Ok(EncoderOutput { success: true, stderr: Vec::new() }))
            }
            Step::ResizeImage(resize) => {
                made = (String::new(), (resize.width, resize.height));
                Outcome::ImageResized(Ok(()))
            }
            Step::Finished(_) => break,
        };
        job = job.advance(outcome);
    }
    match job.step {
        Step::Finished(Ok(path)) => (PathBuf::from(path), made.0, made.1),
        other => panic!("no thumbnail: {:?}", other),
    }
}

#[test]
fn creates_an_animated_gif_thumbnail() {
    let gif_path = PathBuf::from("src/tests/animated_squares.gif");
    let out_dir = test_dir();
    let target = TargetDimension::MaxWidth(16);

    let job = create_thumbnail(gif_path.to_str().unwrap(), out_dir.to_str().unwrap(), target);
    let (thumbnail_path, filter, _) = run(job, (400, 400), &gif_with_frames(2));

    assert_eq!(thumbnail_path, out_dir.join("animated_squares.mp4"));
    assert_eq!(filter, "scale=16:16");
}

#[test]
fn creates_an_animated_gif_thumbnail_with_odd_width() {
    let gif_path = PathBuf::from("src/tests/animated_squares.gif");
    let out_dir = test_dir();
    let target = TargetDimension::MaxWidth(15);

    let job = create_thumbnail(gif_path.to_str().unwrap(), out_dir.to_str().unwrap(), target);
    let (thumbnail_path, filter, _) = run(job, (400, 400), &gif_with_frames(2));

    assert_eq!(thumbnail_path, out_dir.join("animated_squares.mp4"));
    assert_eq!(filter, "scale=16:16");
}

#[test]
fn creates_a_static_gif_thumbnail() {
    let img_path = PathBuf::from("src/tests/yellow.gif");
    let out_dir = test_dir();
    let target = TargetDimension::MaxWidth(16);

    let job = create_thumbnail(img_path.to_str().unwrap(), out_dir.to_str().unwrap(), target);
    let (thumbnail_path, _, size) = run(job, (256, 128), &gif_with_frames(1));

    assert_eq!(thumbnail_path, out_dir.join("yellow.gif"));
    assert_eq!(size, (16, 8));
}

#[test]
fn creates_a_png_thumbnail() {
    let img_path = PathBuf::from("src/tests/red.png");
    let out_dir = test_dir();
    let target = TargetDimension::MaxWidth(16);

    let job = create_thumbnail(img_path.to_str().unwrap(), out_dir.to_str().unwrap(), target);
    let (thumbnail_path, _, size) = run(job, (100, 200), b"any png");

    assert_eq!(thumbnail_path, out_dir.join("red.png"));
    assert_eq!(size, (16, 32));
}

#[test]
fn creates_a_jpeg_thumbnail() {
    let img_path = PathBuf::from("src/tests/noise.jpg");
    let out_dir = test_dir();
    let target = TargetDimension::MaxWidth(16);

    let job = create_thumbnail(img_path.to_str().unwrap(), out_dir.to_str().unwrap(), target);
    let (thumbnail_path, _, size) = run(job, (128, 256), b"any jpeg");

    assert_eq!(thumbnail_path, out_dir.join("noise.jpg"));
    assert_eq!(size, (16, 32));
}

#[test]
fn creates_a_tif_thumbnail() {
    let img_path = PathBuf::from("src/tests/green.tiff");
    let out_dir = test_dir();
    let target = TargetDimension::MaxHeight(16);

    let job = create_thumbnail(img_path.to_str().unwrap(), out_dir.to_str().unwrap(), target);
    let (thumbnail_path, _, size) = run(job, (64, 64), b"any tiff");

    assert_eq!(thumbnail_path, out_dir.join("green.tiff"));
    assert_eq!(size, (16, 16));
}

#[test]
fn creates_a_webp_thumbnail() {
    let img_path = PathBuf::from("src/tests/purple.webp");
    let out_dir = test_dir();
    let target = TargetDimension::MaxWidth(16);

    let job = create_thumbnail(img_path.to_str().unwrap(), out_dir.to_str().unwrap(), target);
    let (thumbnail_path, _, size) = run(job, (64, 64), b"not even a webp");

    assert_eq!(thumbnail_path, out_dir.join("purple.webp"));
    assert_eq!(size, (16, 16));
}

#[test]
fn it_creates_an_equal_size_thumbnail_if_dimension_larger_than_original() {
    let img_path = PathBuf::from("src/tests/noise.jpg");
    let out_dir = test_dir();
    let target = TargetDimension::MaxWidth(500);

    let job = create_thumbnail(img_path.to_str().unwrap(), out_dir.to_str().unwrap(), target);
    let (thumbnail_path, _, size) = run(job, (128, 256), b"any jpeg");

    assert_eq!(thumbnail_path, out_dir.join("noise.jpg"));
    assert_eq!(size, (128, 256));
}

#[test]
fn the_first_step_makes_the_directory_of_the_thumbnail() {
    let job = create_thumbnail("pictures/cat.png", "thumbs/small", TargetDimension::MaxWidth(16));
    assert_eq!(job.path, "pictures/cat.png");
    assert_eq!(job.out_dir, "thumbs/small");
    assert_eq!(job.target, TargetDimension::MaxWidth(16));
    match job.step {
        Step::CreateParentDirectory { thumbnail_path } => {
            assert_eq!(thumbnail_path, "thumbs/small/cat.png")
        }
        other => panic!("not the first step: {:?}", other),
    }
}

#[test]
fn a_path_without_a_file_name_ends_the_job_at_once() {
    for path in ["", "/", "pictures/..", ".."] {
        let job = create_thumbnail(path, "thumbs", TargetDimension::MaxWidth(16));
        assert!(matches!(job.step, Step::Finished(Err(ThumbnailError::MissingFileName))));
    }
}

#[test]
fn a_directory_that_cannot_be_made_is_an_io_error() {
    let job = create_thumbnail("pictures/cat.png", "thumbs", TargetDimension::MaxWidth(16));
    let denied = std::io::Error::from(std::io::ErrorKind::PermissionDenied);
    let job = job.advance(Outcome::DirectoryCreated(Err(denied)));
    match job.step {
        Step::Finished(Err(ThumbnailError::IoError(error))) => {
            assert_eq!(error.kind(), std::io::ErrorKind::PermissionDenied)
        }
        other => panic!("not an I/O error: {:?}", other),
    }
}

#[test]
fn a_thumbnail_on_top_of_its_image_is_refused_once_the_directory_is_made() {
    let job = create_thumbnail("pictures/cat.png", "pictures", TargetDimension::MaxWidth(16));
    assert!(matches!(job.step, Step::CreateParentDirectory { .. }));
    let job = job.advance(Outcome::DirectoryCreated(Ok(())));
    assert!(matches!(job.step, Step::Finished(Err(ThumbnailError::SameInputOutputPath))));
}

#[test]
fn the_same_path_written_another_way_is_still_the_same() {
    let job = create_thumbnail("pictures//cat.png", "pictures/.", TargetDimension::MaxWidth(16));
    let job = job.advance(Outcome::DirectoryCreated(Ok(())));
    assert!(matches!(job.step, Step::Finished(Err(ThumbnailError::SameInputOutputPath))));
}

#[test]
fn another_directory_is_another_path() {
    let job = create_thumbnail("pictures/cat.png", "thumbs", TargetDimension::MaxWidth(16));
    let job = job.advance(Outcome::DirectoryCreated(Ok(())));
    assert!(matches!(job.step, Step::MeasureImage));
}

#[test]
fn an_image_that_cannot_be_opened_is_an_image_open_error() {
    let job = create_thumbnail("pictures/cat.png", "thumbs", TargetDimension::MaxWidth(16));
    let job = job.advance(Outcome::DirectoryCreated(Ok(())));
    let missing = image::ImageError::IoError(std::io::Error::from(std::io::ErrorKind::NotFound));
    let job = job.advance(Outcome::ImageMeasured(Err(missing)));
    assert!(matches!(job.step, Step::Finished(Err(ThumbnailError::ImageOpenError(_)))));
}

#[test]
fn measuring_settles_the_size() {
    let job = create_thumbnail("pictures/cat.png", "thumbs", TargetDimension::BoundingBox(10, 100));
    let job = job.advance(Outcome::DirectoryCreated(Ok(())));
    let job = job.advance(Outcome::ImageMeasured(Ok((100, 200))));
    assert!(matches!(job.step, Step::ReadImage { width: 10, height: 20 }));
}

#[test]
fn a_still_image_keeps_an_odd_size() {
    let job = create_thumbnail("pictures/cat.png", "thumbs", TargetDimension::MaxWidth(15));
    let job = job.advance(Outcome::DirectoryCreated(Ok(())));
    let job = job.advance(Outcome::ImageMeasured(Ok((150, 70))));
    let job = job.advance(Outcome::ImageRead(Ok(b"any png".to_vec())));
    match &job.step {
        Step::ResizeImage(resize) => {
            assert_eq!(resize.image_path, "pictures/cat.png");
            assert_eq!(resize.thumbnail_path, "thumbs/cat.png");
            assert_eq!((resize.width, resize.height), (15, 7));
        }
        other => panic!("not a resize: {:?}", other),
    }
}

#[test]
fn an_animation_is_encoded_at_an_even_size() {
    let job = create_thumbnail("pictures/cat.gif", "thumbs", TargetDimension::MaxWidth(15));
    let job = job.advance(Outcome::DirectoryCreated(Ok(())));
    let job = job.advance(Outcome::ImageMeasured(Ok((150, 70))));
    let job = job.advance(Outcome::ImageRead(Ok(gif_with_frames(2))));
    match &job.step {
        Step::RunEncoder(command) => {
            assert_eq!(command.program, "ffmpeg");
            assert_eq!(
                command.arguments,
                [
                    "-i",
                    "pictures/cat.gif",
                    "-movflags",
                    "faststart",
                    "-pix_fmt",
                    "yuv420p",
                    "-vf",
                    "scale=16:8",
                    "thumbs/cat.mp4"
                ]
            );
            assert_eq!(command.thumbnail_path, "thumbs/cat.mp4");
        }
        other => panic!("not an encoder run: {:?}", other),
    }
}

#[test]
fn a_failed_resize_ends_the_job_with_its_error() {
    let ready = || {
        let job = create_thumbnail("pictures/cat.png", "thumbs", TargetDimension::MaxWidth(15));
        let job = job.advance(Outcome::DirectoryCreated(Ok(())));
        let job = job.advance(Outcome::ImageMeasured(Ok((150, 70))));
        job.advance(Outcome::ImageRead(Ok(b"any png".to_vec())))
    };
    let io = || std::io::Error::from(std::io::ErrorKind::NotFound);

    let job = ready().advance(Outcome::ImageResized(Err(ResizeFailure::Open(io()))));
    assert!(matches!(job.step, Step::Finished(Err(ThumbnailError::IoError(_)))));

    let broken = image::ImageError::IoError(io());
    let job = ready().advance(Outcome::ImageResized(Err(ResizeFailure::Decode(broken))));
    assert!(matches!(job.step, Step::Finished(Err(ThumbnailError::ImageOpenError(_)))));

    let full = image::ImageError::IoError(io());
    let job = ready().advance(Outcome::ImageResized(Err(ResizeFailure::Save(full))));
    assert!(matches!(job.step, Step::Finished(Err(ThumbnailError::ImageSaveError(_)))));
}

#[test]
fn an_outcome_that_does_not_answer_the_step_changes_nothing() {
    let job = create_thumbnail("pictures/cat.png", "thumbs", TargetDimension::MaxWidth(15));
    let job = job.advance(Outcome::ImageMeasured(Ok((150, 70))));
    assert!(matches!(job.step, Step::CreateParentDirectory { .. }));
    let job = job.advance(Outcome::ImageRead(Ok(Vec::new())));
    assert!(matches!(job.step, Step::CreateParentDirectory { .. }));
    let job = job.advance(Outcome::DirectoryCreated(Ok(())));
    let job = job.advance(Outcome::DirectoryCreated(Ok(())));
    assert!(matches!(job.step, Step::MeasureImage));
}

#[test]
fn a_finished_job_stays_finished() {
    let job = create_thumbnail("pictures/cat.png", "pictures", TargetDimension::MaxWidth(16));
    let job = job.advance(Outcome::DirectoryCreated(Ok(())));
    let job = job.advance(Outcome::DirectoryCreated(Ok(())));
    let job = job.advance(Outcome::ImageMeasured(Ok((1, 1))));
    assert!(matches!(job.step, Step::Finished(Err(ThumbnailError::SameInputOutputPath))));
}

#[test]
fn a_job_needs_four_outcomes_at_most() {
    let mut job = create_thumbnail("pictures/cat.gif", "thumbs", TargetDimension::MaxWidth(15));
    let mut outcomes = 0;
    loop {
        let outcome = match &job.step {
            Step::CreateParentDirectory { .. } => Outcome::DirectoryCreated(Ok(())),
            Step::MeasureImage => Outcome::ImageMeasured(Ok((150, 70))),
            Step::ReadImage { .. } => Outcome::ImageRead(Ok(gif_with_frames(2))),
            Step::RunEncoder(_) => {
                Outcome::EncoderRan(Ok(EncoderOutput { success: true, stderr: Vec::new() }))
            }
            Step::ResizeImage(_) => Outcome::ImageResized(Ok(())),
            Step::Finished(_) => break,
        };
        job = job.advance(outcome);
        outcomes += 1;
    }
    assert_eq!(outcomes, 4);
    assert!(matches!(job.step, Step::Finished(Ok(_))));
}
