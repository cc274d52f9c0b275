//! The sizing and placement model.
//!
//! Given a join direction, every image has a dimension *perpendicular* to
//! the join axis (its height for a horizontal join, its width for a
//! vertical one) and a dimension *along* the join axis (the other one).
//! The join picks one common perpendicular size `P` for all images by
//! folding their perpendicular dimensions with `min` or `max`, scales each
//! image by `P / perpendicular(img)` with the scaled join-axis extent
//! truncated to whole pixels, and places the images one after another at
//! the running sum of the scaled extents.

use vstd::prelude::*;

use crate::photo::Photo;
use crate::Direction;
use crate::Sizing;

verus! {

/// The dimension of `photo` perpendicular to the join axis: the shared
/// dimension after scaling.
pub open spec fn perp_len(direction: Direction, photo: Photo) -> u32 {
    match direction {
        Direction::Horizontal => photo.spec_height(),
        Direction::Vertical => photo.spec_width(),
    }
}

/// The dimension of `photo` along the join axis: the direction in which
/// the output grows with every image.
pub open spec fn join_len(direction: Direction, photo: Photo) -> u32 {
    match direction {
        Direction::Horizontal => photo.spec_width(),
        Direction::Vertical => photo.spec_height(),
    }
}

/// The seed of the perpendicular-size fold: the policy-appropriate extreme,
/// so that the first image's dimension always replaces it.
pub open spec fn perp_seed(sizing: Sizing) -> u32 {
    match sizing {
        Sizing::ToSmallest => u32::MAX,
        Sizing::ToLargest => 0,
    }
}

/// One step of the perpendicular-size fold: keep the smaller or the larger
/// of the accumulator and the next image's perpendicular dimension.
pub open spec fn perp_combine(sizing: Sizing, acc: u32, dim: u32) -> u32 {
    match sizing {
        Sizing::ToSmallest => if dim < acc {
            dim
        } else {
            acc
        },
        Sizing::ToLargest => if dim > acc {
            dim
        } else {
            acc
        },
    }
}

/// The common perpendicular size `P`: the fold of every image's
/// perpendicular dimension, starting from the policy's seed. For a
/// non-empty sequence this is exactly the minimum (`ToSmallest`) or the
/// maximum (`ToLargest`) of those dimensions; see
/// [`lemma_perp_size_to_smallest`] and [`lemma_perp_size_to_largest`].
pub open spec fn perp_size(photos: Seq<Photo>, direction: Direction, sizing: Sizing) -> u32
    decreases photos.len(),
{
    if photos.len() == 0 {
        perp_seed(sizing)
    } else {
        perp_combine(
            sizing,
            perp_size(photos.drop_last(), direction, sizing),
            perp_len(direction, photos.last()),
        )
    }
}

/// The scaled extent of `photo` along the join axis: its join-axis
/// dimension times the scale factor `p / perpendicular(photo)`, truncated
/// to whole pixels. An image with a zero perpendicular dimension cannot be
/// scaled to meet `p`; it contributes no extent, so that degenerate images
/// never make the arithmetic around them fail. A quotient beyond `u32`
/// saturates.
pub open spec fn scaled_join_len(p: u32, direction: Direction, photo: Photo) -> u32 {
    let perp = perp_len(direction, photo) as int;
    let join = join_len(direction, photo) as int;
    if perp == 0 {
        0
    } else if p * join / perp > u32::MAX {
        u32::MAX
    } else {
        (p * join / perp) as u32
    }
}

/// The sum of the scaled join-axis extents of `photos`: the total size of
/// the output along the join axis.
pub open spec fn sum_scaled(photos: Seq<Photo>, p: u32, direction: Direction) -> int
    decreases photos.len(),
{
    if photos.len() == 0 {
        0int
    } else {
        sum_scaled(photos.drop_last(), p, direction) + scaled_join_len(
            p,
            direction,
            photos.last(),
        )
    }
}

/// Where the `k`-th image is placed on the canvas and at which size: its
/// offset along the join axis is the sum of the scaled extents of the
/// images before it.
#[derive(Copy, Clone, PartialEq, Eq, Structural, Debug)]
pub struct Placement {
    pub x: u32,
    pub y: u32,
    pub width: u32,
    pub height: u32,
}

/// The join-axis offset of the `k`-th image: the sum of the scaled extents
/// of images `0..k`.
pub open spec fn spec_offset(photos: Seq<Photo>, p: u32, direction: Direction, k: int) -> int {
    sum_scaled(photos.take(k), p, direction)
}

/// The placement of the `k`-th image: at its join-axis offset, sized to
/// the common perpendicular dimension by its scaled extent.
pub open spec fn spec_placement(
    photos: Seq<Photo>,
    p: u32,
    direction: Direction,
    k: int,
) -> Placement {
    let off = spec_offset(photos, p, direction, k) as u32;
    let ext = scaled_join_len(p, direction, photos[k]);
    match direction {
        Direction::Horizontal => Placement { x: off, y: 0u32, width: ext, height: p },
        Direction::Vertical => Placement { x: 0u32, y: off, width: p, height: ext },
    }
}

/// The dimension of `photo` perpendicular to the join axis.
pub fn perp_dim(direction: Direction, photo: &Photo) -> (r: u32)
    ensures
        r == perp_len(direction, *photo),
{
    match direction {
        Direction::Horizontal => photo.height(),
        Direction::Vertical => photo.width(),
    }
}

/// The dimension of `photo` along the join axis.
pub fn join_dim(direction: Direction, photo: &Photo) -> (r: u32)
    ensures
        r == join_len(direction, *photo),
{
    match direction {
        Direction::Horizontal => photo.width(),
        Direction::Vertical => photo.height(),
    }
}

/// The common perpendicular size of `photos`: their perpendicular
/// dimensions folded with `min` or `max` per the sizing policy.
pub fn perpendicular_size(photos: &Vec<Photo>, direction: Direction, sizing: Sizing) -> (r: u32)
    ensures
        r == perp_size(photos@, direction, sizing),
{
    let mut acc: u32 = match sizing {
        Sizing::ToSmallest => u32::MAX,
        Sizing::ToLargest => 0,
    };
    let mut i: usize = 0;
    proof {
        assert(photos@.take(0) =~= Seq::<Photo>::empty());
    }
    while i < photos.len()
        invariant
            i <= photos@.len(),
            acc == perp_size(photos@.take(i as int), direction, sizing),
        decreases photos@.len() - i,
    {
        let dim = perp_dim(direction, &photos[i]);
        acc = match sizing {
            Sizing::ToSmallest => if dim < acc {
                dim
            } else {
                acc
            },
            Sizing::ToLargest => if dim > acc {
                dim
            } else {
                acc
            },
        };
        proof {
            assert(photos@.take(i + 1).drop_last() =~= photos@.take(i as int));
            assert(photos@.take(i + 1).last() == photos@[i as int]);
        }
        i = i + 1;
    }
    proof {
        assert(photos@.take(photos@.len() as int) =~= photos@);
    }
    acc
}

/// A sum of scaled extents has no negative terms.
pub proof fn lemma_sum_scaled_nonneg(photos: Seq<Photo>, p: u32, direction: Direction)
    ensures
        sum_scaled(photos, p, direction) >= 0,
    decreases photos.len(),
{
    if photos.len() > 0 {
        lemma_sum_scaled_nonneg(photos.drop_last(), p, direction);
    }
}

/// Extending a prefix by one image adds exactly that image's scaled extent
/// to the prefix sum.
pub proof fn lemma_sum_scaled_take_succ(photos: Seq<Photo>, p: u32, direction: Direction, k: int)
    requires
        0 <= k < photos.len(),
    ensures
        sum_scaled(photos.take(k + 1), p, direction) == sum_scaled(photos.take(k), p, direction)
            + scaled_join_len(p, direction, photos[k]),
{
    assert(photos.take(k + 1).drop_last() =~= photos.take(k));
    assert(photos.take(k + 1).last() == photos[k]);
}

/// A prefix sum of scaled extents never exceeds the whole sum.
pub proof fn lemma_sum_scaled_take_le(photos: Seq<Photo>, p: u32, direction: Direction, k: int)
    requires
        0 <= k <= photos.len(),
    ensures
        sum_scaled(photos.take(k), p, direction) <= sum_scaled(photos, p, direction),
    decreases photos.len() - k,
{
    if k == photos.len() {
        assert(photos.take(k) =~= photos);
    } else {
        lemma_sum_scaled_take_succ(photos, p, direction, k);
        lemma_sum_scaled_take_le(photos, p, direction, k + 1);
    }
}

/// One image's scaled extent never exceeds the sum of all of them.
pub proof fn lemma_scaled_le_sum(photos: Seq<Photo>, p: u32, direction: Direction, k: int)
    requires
        0 <= k < photos.len(),
    ensures
        scaled_join_len(p, direction, photos[k]) <= sum_scaled(photos, p, direction),
{
    lemma_sum_scaled_nonneg(photos.take(k), p, direction);
    lemma_sum_scaled_take_succ(photos, p, direction, k);
    lemma_sum_scaled_take_le(photos, p, direction, k + 1);
}

/// Sequential placement tiles the join axis: every image's offset is the
/// sum of the scaled extents of the images before it, so consecutive
/// placements abut without gap or overlap, offsets never run backwards,
/// and the last placement ends exactly at the total join-axis size — the
/// canvas allocation and the cumulative pasted extent agree.
pub proof fn lemma_placements_tile_canvas(photos: Seq<Photo>, p: u32, direction: Direction)
    ensures
        forall|k: int|
            0 <= k < photos.len() ==> spec_offset(photos, p, direction, k) + scaled_join_len(
                p,
                direction,
                photos[k],
            ) == spec_offset(photos, p, direction, k + 1),
        forall|k: int| 0 <= k <= photos.len() ==> 0 <= spec_offset(photos, p, direction, k),
        spec_offset(photos, p, direction, photos.len() as int) == sum_scaled(photos, p, direction),
{
    assert forall|k: int| 0 <= k < photos.len() implies spec_offset(photos, p, direction, k)
        + scaled_join_len(p, direction, photos[k]) == spec_offset(
        photos,
        p,
        direction,
        k + 1,
    ) by {
        lemma_sum_scaled_take_succ(photos, p, direction, k);
    }
    assert forall|k: int| 0 <= k <= photos.len() implies 0 <= spec_offset(
        photos,
        p,
        direction,
        k,
    ) by {
        lemma_sum_scaled_nonneg(photos.take(k), p, direction);
    }
    assert(photos.take(photos.len() as int) =~= photos);
}

/// With `ToSmallest` the fold computes exactly the minimum of the
/// perpendicular dimensions of a non-empty sequence: it is a lower bound,
/// and some image attains it.
pub proof fn lemma_perp_size_to_smallest(photos: Seq<Photo>, direction: Direction)
    requires
        photos.len() > 0,
    ensures
        forall|k: int|
            0 <= k < photos.len() ==> perp_size(photos, direction, Sizing::ToSmallest) <= perp_len(
                direction,
                #[trigger] photos[k],
            ),
        exists|k: int|
            0 <= k < photos.len() && perp_size(photos, direction, Sizing::ToSmallest) == perp_len(
                direction,
                #[trigger] photos[k],
            ),
    decreases photos.len(),
{
    if photos.len() == 1 {
        assert(photos.drop_last().len() == 0);
        assert(perp_size(photos.drop_last(), direction, Sizing::ToSmallest) == u32::MAX);
        assert(perp_size(photos, direction, Sizing::ToSmallest) == perp_len(
            direction,
            photos[0],
        ));
    } else {
        lemma_perp_size_to_smallest(photos.drop_last(), direction);
        assert(forall|k: int|
            0 <= k < photos.len() - 1 ==> #[trigger] photos[k] == photos.drop_last()[k]);
        let j = choose|j: int|
            0 <= j < photos.drop_last().len() && perp_size(
                photos.drop_last(),
                direction,
                Sizing::ToSmallest,
            ) == perp_len(direction, #[trigger] photos.drop_last()[j]);
        if perp_len(direction, photos.last()) < perp_size(
            photos.drop_last(),
            direction,
            Sizing::ToSmallest,
        ) {
            assert(perp_size(photos, direction, Sizing::ToSmallest) == perp_len(
                direction,
                photos[photos.len() - 1],
            ));
        } else {
            assert(perp_size(photos, direction, Sizing::ToSmallest) == perp_len(
                direction,
                photos[j],
            ));
        }
    }
}

/// With `ToLargest` the fold computes exactly the maximum of the
/// perpendicular dimensions of a non-empty sequence: it is an upper bound,
/// and some image attains it.
pub proof fn lemma_perp_size_to_largest(photos: Seq<Photo>, direction: Direction)
    requires
        photos.len() > 0,
    ensures
        forall|k: int|
            0 <= k < photos.len() ==> perp_size(photos, direction, Sizing::ToLargest) >= perp_len(
                direction,
                #[trigger] photos[k],
            ),
        exists|k: int|
            0 <= k < photos.len() && perp_size(photos, direction, Sizing::ToLargest) == perp_len(
                direction,
                #[trigger] photos[k],
            ),
    decreases photos.len(),
{
    if photos.len() == 1 {
        assert(photos.drop_last().len() == 0);
        assert(perp_size(photos.drop_last(), direction, Sizing::ToLargest) == 0);
        assert(perp_size(photos, direction, Sizing::ToLargest) == perp_len(direction, photos[0]));
    } else {
        lemma_perp_size_to_largest(photos.drop_last(), direction);
        assert(forall|k: int|
            0 <= k < photos.len() - 1 ==> #[trigger] photos[k] == photos.drop_last()[k]);
        let j = choose|j: int|
            0 <= j < photos.drop_last().len() && perp_size(
                photos.drop_last(),
                direction,
                Sizing::ToLargest,
            ) == perp_len(direction, #[trigger] photos.drop_last()[j]);
        if perp_len(direction, photos.last()) > perp_size(
            photos.drop_last(),
            direction,
            Sizing::ToLargest,
        ) {
            assert(perp_size(photos, direction, Sizing::ToLargest) == perp_len(
                direction,
                photos[photos.len() - 1],
            ));
        } else {
            assert(perp_size(photos, direction, Sizing::ToLargest) == perp_len(
                direction,
                photos[j],
            ));
        }
    }
}

/// When every image shows the same perpendicular dimension, both sizing
/// policies pick that dimension as the common size; everything that
/// follows — scaled extents, offsets, placements, canvas dimensions —
/// depends on the policy only through that size, so the two policies lay
/// the images out identically.
pub proof fn lemma_equal_perp_sizing_irrelevant(
    photos: Seq<Photo>,
    direction: Direction,
    dim: u32,
)
    requires
        photos.len() > 0,
        forall|k: int| 0 <= k < photos.len() ==> perp_len(direction, #[trigger] photos[k]) == dim,
    ensures
        perp_size(photos, direction, Sizing::ToSmallest) == dim,
        perp_size(photos, direction, Sizing::ToLargest) == dim,
    decreases photos.len(),
{
    assert(perp_len(direction, photos[photos.len() - 1]) == dim);
    if photos.len() == 1 {
        assert(photos.drop_last().len() == 0);
        assert(perp_size(photos.drop_last(), direction, Sizing::ToSmallest) == u32::MAX);
        assert(perp_size(photos.drop_last(), direction, Sizing::ToLargest) == 0);
    } else {
        assert(forall|k: int|
            0 <= k < photos.len() - 1 ==> #[trigger] photos.drop_last()[k] == photos[k]);
        lemma_equal_perp_sizing_irrelevant(photos.drop_last(), direction, dim);
    }
}

/// The scaled extent of `photo` along the join axis, computed with the
/// exact integer form of the scale ratio: `p * join / perp`, truncated.
pub fn scaled_join_extent(p: u32, direction: Direction, photo: &Photo) -> (r: u32)
    ensures
        r == scaled_join_len(p, direction, *photo),
{
    let perp = perp_dim(direction, photo);
    let join = join_dim(direction, photo);
    if perp == 0 {
        0
    } else {
        proof {
            assert((p as int) * (join as int) <= 0xffff_ffffi64 * 0xffff_ffffi64)
                by (nonlinear_arith)
                requires
                    p <= 0xffff_ffffu32,
                    join <= 0xffff_ffffu32,
            ;
        }
        let q: u64 = (p as u64) * (join as u64) / (perp as u64);
        if q > u32::MAX as u64 {
            u32::MAX
        } else {
            q as u32
        }
    }
}

/// The size `photo` is scaled to: its scaled extent along the join axis by
/// the common perpendicular size `p`, as a `(width, height)` pair.
pub open spec fn spec_size(p: u32, direction: Direction, photo: Photo) -> (u32, u32) {
    match direction {
        Direction::Horizontal => (scaled_join_len(p, direction, photo), p),
        Direction::Vertical => (p, scaled_join_len(p, direction, photo)),
    }
}

/// The `(width, height)` that `img` is resized to when the common
/// perpendicular size is `perpendicular_size`.
pub fn get_size(perpendicular_size: u32, direction: Direction, img: &Photo) -> (r: (u32, u32))
    ensures
        r == spec_size(perpendicular_size, direction, *img),
{
    let ext = scaled_join_extent(perpendicular_size, direction, img);
    match direction {
        Direction::Horizontal => (ext, perpendicular_size),
        Direction::Vertical => (perpendicular_size, ext),
    }
}

/// The total join-axis size of the output: the sum of every image's scaled
/// extent. The sum must fit the `u32` canvas dimension.
pub fn total_join_size(photos: &Vec<Photo>, p: u32, direction: Direction) -> (r: u32)
    requires
        sum_scaled(photos@, p, direction) <= u32::MAX,
    ensures
        r == sum_scaled(photos@, p, direction),
{
    let mut acc: u32 = 0;
    let mut i: usize = 0;
    proof {
        assert(photos@.take(0) =~= Seq::<Photo>::empty());
    }
    while i < photos.len()
        invariant
            i <= photos@.len(),
            acc == sum_scaled(photos@.take(i as int), p, direction),
            sum_scaled(photos@, p, direction) <= u32::MAX,
        decreases photos@.len() - i,
    {
        let ext = scaled_join_extent(p, direction, &photos[i]);
        proof {
            lemma_sum_scaled_take_succ(photos@, p, direction, i as int);
            lemma_sum_scaled_take_le(photos@, p, direction, i as int + 1);
        }
        acc = acc + ext;
        i = i + 1;
    }
    proof {
        assert(photos@.take(photos@.len() as int) =~= photos@);
    }
    acc
}

/// The placements of all images for a given common perpendicular size:
/// the `k`-th image sits at the sum of the scaled extents of the images
/// before it, sized to its scaled extent by the common size.
pub fn compute_layout(photos: &Vec<Photo>, p: u32, direction: Direction) -> (r: Vec<Placement>)
    requires
        sum_scaled(photos@, p, direction) <= u32::MAX,
    ensures
        r@.len() == photos@.len(),
        forall|k: int|
            0 <= k < photos@.len() ==> r@[k] == spec_placement(photos@, p, direction, k),
{
    let mut placements: Vec<Placement> = Vec::new();
    let mut pos: u32 = 0;
    let mut i: usize = 0;
    proof {
        assert(photos@.take(0) =~= Seq::<Photo>::empty());
    }
    while i < photos.len()
        invariant
            i <= photos@.len(),
            placements@.len() == i,
            pos == sum_scaled(photos@.take(i as int), p, direction),
            sum_scaled(photos@, p, direction) <= u32::MAX,
            forall|k: int|
                0 <= k < i ==> placements@[k] == spec_placement(photos@, p, direction, k),
        decreases photos@.len() - i,
    {
        let ext = scaled_join_extent(p, direction, &photos[i]);
        let pl = match direction {
            Direction::Horizontal => Placement { x: pos, y: 0u32, width: ext, height: p },
            Direction::Vertical => Placement { x: 0u32, y: pos, width: p, height: ext },
        };
        proof {
            lemma_sum_scaled_nonneg(photos@.take(i as int), p, direction);
            lemma_sum_scaled_take_succ(photos@, p, direction, i as int);
            lemma_sum_scaled_take_le(photos@, p, direction, i as int + 1);
        }
        placements.push(pl);
        pos = pos + ext;
        i = i + 1;
    }
    placements
}

} // verus!
