//! The trusted boundary around the `image` crate.
//!
//! A [`Photo`] pairs a decoded raster owned by the `image` crate with its
//! pixel dimensions, recorded once at construction. The raster itself is
//! opaque to the verifier; every verified statement about a `Photo` speaks
//! of the recorded dimensions, read through [`Photo::spec_width`] and
//! [`Photo::spec_height`]. The functions in this module that carry
//! `#[verifier::external_body]` are trusted: each makes one call into the
//! `image` crate and states only what that crate's source shows.

use vstd::prelude::*;

verus! {

#[verifier::external_type_specification]
#[verifier::external_body]
pub struct ExDynamicImage(image::DynamicImage);

#[verifier::external_type_specification]
#[verifier::external_body]
pub struct ExFilterType(image::imageops::FilterType);

/// A decoded raster image together with its dimensions in pixels.
///
/// The dimensions are those of the carried raster, recorded by the trusted
/// constructor [`Photo::from_image`] and kept in step by the trusted resize
/// operations; all verified reasoning is over them, while the pixel data
/// stays opaque.
pub struct Photo {
    width: u32,
    height: u32,
    img: image::DynamicImage,
}

impl Photo {
    /// The recorded width of the raster, in pixels.
    pub closed spec fn spec_width(&self) -> u32 {
        self.width
    }

    /// The recorded height of the raster, in pixels.
    pub closed spec fn spec_height(&self) -> u32 {
        self.height
    }

    /// The raster this photo carries, as a spec-level value. The pixel
    /// data is opaque; equality of two such values is all that contracts
    /// ever state about it.
    pub closed spec fn raster(&self) -> image::DynamicImage {
        self.img
    }

    /// The width of the raster, in pixels.
    pub fn width(&self) -> (r: u32)
        ensures
            r == self.spec_width(),
    {
        self.width
    }

    /// The height of the raster, in pixels.
    pub fn height(&self) -> (r: u32)
        ensures
            r == self.spec_height(),
    {
        self.height
    }

    /// Relies on `image::GenericImageView::dimensions` for `DynamicImage`:
    /// it returns the image's width and height in pixels, which are
    /// recorded beside the raster.
    #[verifier::external_body]
    pub fn from_image(img: image::DynamicImage) -> (r: Photo)
        ensures
            r.raster() == img,
    {
        let (width, height) = image::GenericImageView::dimensions(&img);
        Photo { width, height, img }
    }

    /// Hands the raster back to the caller, unchanged.
    pub fn into_image(self) -> (r: image::DynamicImage)
        ensures
            r == self.raster(),
    {
        self.img
    }
}

/// Relies on `image::DynamicImage::resize_exact`: it returns a new image
/// whose dimensions are exactly `(w, h)`, resampled here with the fast
/// nearest-neighbour filter (this call only lays down the base layer of a
/// canvas, which the per-image overlays then cover). Its buffers hold at
/// most 4 subpixels per pixel, and allocating one panics when that count
/// overflows `usize` (`ImageBuffer::new`); the intermediate buffer spans
/// the source width at the target height, so both products are required to
/// fit.
#[verifier::external_body]
pub fn resize_base(src: &Photo, w: u32, h: u32) -> (r: Photo)
    requires
        4 * (src.spec_width() as int) * (h as int) <= usize::MAX as int,
        4 * (w as int) * (h as int) <= usize::MAX as int,
    ensures
        r.spec_width() == w,
        r.spec_height() == h,
{
    let img = src.img.resize_exact(w, h, image::imageops::FilterType::Nearest);
    Photo { width: w, height: h, img }
}

/// Relies on `image::imageops::resize`: it returns an RGBA buffer of
/// exactly `(w, h)` pixels, resampled with the given filter, and handles
/// zero-sized sources by returning a blank buffer. As with
/// [`resize_exact`], the target and intermediate buffers must fit.
#[verifier::external_body]
pub fn resize_to(src: &Photo, w: u32, h: u32, filter: image::imageops::FilterType) -> (r: Photo)
    requires
        4 * (src.spec_width() as int) * (h as int) <= usize::MAX as int,
        4 * (w as int) * (h as int) <= usize::MAX as int,
    ensures
        r.spec_width() == w,
        r.spec_height() == h,
{
    let buf = image::imageops::resize(&src.img, w, h, filter);
    Photo { width: w, height: h, img: image::DynamicImage::ImageRgba8(buf) }
}

/// Relies on `image::imageops::overlay`: it blends `top` onto `canvas` at
/// `(x, y)`, cropping to the canvas with saturating bounds arithmetic, and
/// never changes the canvas's dimensions.
#[verifier::external_body]
pub fn overlay_at(canvas: &mut Photo, top: &Photo, x: u32, y: u32)
    ensures
        final(canvas).spec_width() == old(canvas).spec_width(),
        final(canvas).spec_height() == old(canvas).spec_height(),
{
    image::imageops::overlay(&mut canvas.img, &top.img, x as i64, y as i64);
}

} // verus!
