//! Composites a sequence of raster images into a single image, arranged
//! along one axis (side by side or stacked), resizing every image so that
//! all of them share a common dimension perpendicular to the join axis.
//!
//! The sizing, scaling and placement arithmetic is verified; decoding,
//! encoding and the actual resampling are delegated to the `image` crate
//! behind a small trusted boundary in [`photo`].

use vstd::prelude::*;

pub mod join;
pub mod layout;
pub mod photo;

pub use join::join_photos;
pub use photo::Photo;

verus! {

/// The axis along which images are concatenated: `Horizontal` places them
/// left to right (sharing a height), `Vertical` stacks them top to bottom
/// (sharing a width).
#[derive(Copy, Clone, Eq, PartialEq, Hash)]
pub enum Direction {
    Horizontal,
    Vertical,
}

/// Policy for choosing the common perpendicular dimension: the minimum or
/// the maximum of all input images' perpendicular dimension.
#[derive(Copy, Clone, Eq, PartialEq, Hash)]
pub enum Sizing {
    ToSmallest,
    ToLargest,
}

/// Options for a join: the join axis, the sizing policy, and the resampling
/// filter used when scaling images. The filter has no bearing on sizing,
/// only on the visual quality of the resize.
#[derive(Copy, Clone)]
pub struct PhotoJoinOptions {
    pub direction: Direction,
    pub sizing: Sizing,
    pub filter: image::imageops::FilterType,
}

/// The error returned when a join is requested for an empty image list.
#[derive(Copy, Clone, Debug)]
pub struct NoImagesProvided;

} // verus!
