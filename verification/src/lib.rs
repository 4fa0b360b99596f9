//! Thumbnail planning: how large a thumbnail should be, whether its source is an
//! animation, and which steps turn the source into the thumbnail.
//!
//! Nothing in this crate touches the file system or starts a process. The
//! caller reads, writes and runs what the library asks for and reports back
//! what came of it.

pub mod animated_thumbnail;
pub mod errors;
pub mod frames;
pub mod get_thumbnail_dimensions;
pub mod is_animated;
pub mod is_animated_gif;
pub mod paths;
pub mod static_thumbnail;
pub mod thumbnail_job;
pub mod webp_container;

pub use animated_thumbnail::{
    create_animated_gif_thumbnail, ensure_even, EncoderCommand, EncoderOutput,
};
pub use errors::ThumbnailError;
pub use get_thumbnail_dimensions::{
    calculate_dimensions, get_thumbnail_dimensions, TargetDimension,
};
pub use is_animated::is_animated;
pub use is_animated_gif::is_animated_gif;
pub use static_thumbnail::{create_static_thumbnail, ResizeFailure, ResizeJob};
pub use thumbnail_job::{create_thumbnail, Outcome, Step, ThumbnailJob};
