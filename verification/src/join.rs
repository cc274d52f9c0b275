//! Joining a sequence of photos into one composed photo.
//!
//! [`join_photos`] is the entry point: it rejects an empty list, hands a
//! single photo back untouched, and otherwise computes the common
//! perpendicular size, the total join-axis size and every placement with
//! the verified arithmetic of [`crate::layout`], then drives the trusted
//! resize and overlay operations of [`crate::photo`] with those values.

use vstd::prelude::*;

use crate::layout::compute_layout;
use crate::layout::join_len;
use crate::layout::lemma_scaled_le_sum;
use crate::layout::perp_len;
use crate::layout::perp_size;
use crate::layout::perpendicular_size;
use crate::layout::scaled_join_len;
use crate::layout::spec_placement;
use crate::layout::sum_scaled;
use crate::layout::total_join_size;
use crate::photo::overlay_at;
use crate::photo::resize_base;
use crate::photo::resize_to;
use crate::photo::Photo;
use crate::Direction;
use crate::NoImagesProvided;
use crate::PhotoJoinOptions;
use crate::Sizing;

verus! {

/// The buffers that scaling `photo` for a join with common perpendicular
/// size `p` and total join-axis size `t` may allocate all fit in memory:
/// resampling allocates an intermediate buffer of the source width by the
/// target height, at up to 4 subpixels per pixel, and the target height is
/// `p` or at most `t` depending on the join direction.
pub open spec fn photo_buffers_fit(photo: Photo, p: u32, t: int) -> bool {
    &&& 4 * (photo.spec_width() as int) * (p as int) <= usize::MAX as int
    &&& 4 * (photo.spec_width() as int) * t <= usize::MAX as int
}

/// The machine limits under which a join of two or more images can run:
/// the composed image's join-axis size must fit the `u32` canvas
/// dimension, and no buffer the resampling allocates may overflow the
/// `usize` buffer-length arithmetic of the imaging backend. These are the
/// only inputs [`join_photos`] asks its caller to rule out.
pub open spec fn joinable(photos: Seq<Photo>, direction: Direction, sizing: Sizing) -> bool {
    let p = perp_size(photos, direction, sizing);
    let t = sum_scaled(photos, p, direction);
    &&& t <= u32::MAX
    &&& 4 * (p as int) * t <= usize::MAX as int
    &&& forall|k: int| 0 <= k < photos.len() ==> photo_buffers_fit(#[trigger] photos[k], p, t)
}

/// Composes `photos` into one image along the join axis.
///
/// An empty list fails with [`NoImagesProvided`] and nothing else ever
/// does. A single photo is returned unchanged: no resize, no filter, the
/// very value that was passed in. For two or more photos the result's
/// perpendicular dimension is exactly the fold-computed common size and
/// its join-axis dimension is exactly the sum of the scaled extents — the
/// canvas is allocated at those dimensions and every image is pasted at
/// the running offset, so nothing falls off the canvas.
pub fn join_photos(photos: Vec<Photo>, options: PhotoJoinOptions) -> (r: Result<
    Photo,
    NoImagesProvided,
>)
    requires
        photos@.len() >= 2 ==> joinable(photos@, options.direction, options.sizing),
    ensures
        r is Err <==> photos@.len() == 0,
        photos@.len() == 1 ==> r is Ok && r->Ok_0 == photos@[0],
        photos@.len() >= 2 ==> ({
            let p = perp_size(photos@, options.direction, options.sizing);
            let t = sum_scaled(photos@, p, options.direction);
            &&& r is Ok
            &&& perp_len(options.direction, r->Ok_0) == p
            &&& join_len(options.direction, r->Ok_0) == t
        }),
{
    if photos.len() == 0 {
        return Err(NoImagesProvided);
    }
    if photos.len() == 1 {
        let mut rest = photos;
        let first = rest.remove(0);
        return Ok(first);
    }
    let p = perpendicular_size(&photos, options.direction, options.sizing);
    let total = total_join_size(&photos, p, options.direction);
    let layout = compute_layout(&photos, p, options.direction);
    let ghost t = sum_scaled(photos@, p, options.direction);

    let (cw, ch) = match options.direction {
        Direction::Horizontal => (total, p),
        Direction::Vertical => (p, total),
    };
    proof {
        assert(photo_buffers_fit(photos@[0], p, t));
        let w0 = photos@[0].spec_width() as int;
        match options.direction {
            Direction::Horizontal => {
                assert(4 * (total as int) * (p as int) <= usize::MAX as int) by (nonlinear_arith)
                    requires
                        total as int == t,
                        4 * (p as int) * t <= usize::MAX as int,
                ;
            },
            Direction::Vertical => {
                assert(4 * (p as int) * (total as int) <= usize::MAX as int && 4 * w0 * (
                total as int) <= usize::MAX as int) by (nonlinear_arith)
                    requires
                        total as int == t,
                        4 * (p as int) * t <= usize::MAX as int,
                        4 * w0 * t <= usize::MAX as int,
                ;
            },
        }
    }
    let mut canvas = resize_base(&photos[0], cw, ch);
    let mut i: usize = 0;
    while i < photos.len()
        invariant
            i <= photos@.len(),
            photos@.len() >= 2,
            layout@.len() == photos@.len(),
            forall|k: int|
                0 <= k < photos@.len() ==> layout@[k] == spec_placement(
                    photos@,
                    p,
                    options.direction,
                    k,
                ),
            forall|k: int|
                0 <= k < photos@.len() ==> photo_buffers_fit(#[trigger] photos@[k], p, t),
            t == sum_scaled(photos@, p, options.direction),
            0 <= t <= u32::MAX,
            4 * (p as int) * t <= usize::MAX as int,
            canvas.spec_width() == cw,
            canvas.spec_height() == ch,
        decreases photos@.len() - i,
    {
        let pl = layout[i];
        proof {
            let k = i as int;
            assert(layout@[k] == spec_placement(photos@, p, options.direction, k));
            assert(photo_buffers_fit(photos@[k], p, t));
            lemma_scaled_le_sum(photos@, p, options.direction, k);
            let ext = scaled_join_len(p, options.direction, photos@[k]) as int;
            let w = photos@[k].spec_width() as int;
            match options.direction {
                Direction::Horizontal => {
                    assert(4 * ext * (p as int) <= usize::MAX as int) by (nonlinear_arith)
                        requires
                            0 <= ext <= t,
                            0 <= p as int,
                            4 * (p as int) * t <= usize::MAX as int,
                    ;
                },
                Direction::Vertical => {
                    assert(4 * w * ext <= usize::MAX as int && 4 * (p as int) * ext
                        <= usize::MAX as int) by (nonlinear_arith)
                        requires
                            0 <= ext <= t,
                            0 <= p as int,
                            0 <= w,
                            4 * w * t <= usize::MAX as int,
                            4 * (p as int) * t <= usize::MAX as int,
                    ;
                },
            }
        }
        let resized = resize_to(&photos[i], pl.width, pl.height, options.filter);
        overlay_at(&mut canvas, &resized, pl.x, pl.y);
        i = i + 1;
    }
    Ok(canvas)
}

} // verus!
