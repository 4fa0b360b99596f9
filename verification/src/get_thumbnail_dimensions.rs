//! Thumbnail sizes: fit an image under a width, a height or a box, keeping its
//! proportions and never enlarging it.

use vstd::prelude::*;
use crate::errors::ThumbnailError;
use vstd::arithmetic::div_mod::lemma_fundamental_div_mod;

verus! {

/// The limits a thumbnail has to stay within.
#[derive(Clone, Copy, Debug, PartialEq, Eq, Structural)]
pub enum TargetDimension {
    /// At most this wide and at most this high: `BoundingBox(width, height)`.
    BoundingBox(u32, u32),
    /// At most this wide; the height follows.
    MaxWidth(u32),
    /// At most this high; the width follows.
    MaxHeight(u32),
}

impl TargetDimension {
    /// The target that a wanted width and a wanted height stand for: a box
    /// where both are given, one limit where one is, and none where neither
    /// is.
    pub open spec fn of_limits(width: Option<u32>, height: Option<u32>) -> Option<
        TargetDimension,
    > {
        match (width, height) {
            (Some(w), Some(h)) => Some(TargetDimension::BoundingBox(w, h)),
            (Some(w), None) => Some(TargetDimension::MaxWidth(w)),
            (None, Some(h)) => Some(TargetDimension::MaxHeight(h)),
            (None, None) => None,
        }
    }

    /// Makes a target from the limits that were asked for. At least one of
    /// them has to be there: with neither the answer is `InvalidTarget`.
    pub fn from_limits(width: Option<u32>, height: Option<u32>) -> (target: Result<
        TargetDimension,
        ThumbnailError,
    >)
        ensures
            match TargetDimension::of_limits(width, height) {
                Some(wanted) => target == Ok::<TargetDimension, ThumbnailError>(wanted),
                None => target == Err::<TargetDimension, ThumbnailError>(
                    ThumbnailError::InvalidTarget,
                ),
            },
    {
        match (width, height) {
            (Some(w), Some(h)) => Ok(TargetDimension::BoundingBox(w, h)),
            (Some(w), None) => Ok(TargetDimension::MaxWidth(w)),
            (None, Some(h)) => Ok(TargetDimension::MaxHeight(h)),
            (None, None) => Err(ThumbnailError::InvalidTarget),
        }
    }
}

/// `n / d` rounded to the nearest integer, a half rounding upward: the whole
/// part of the quotient, and one more where the remainder is at least half of
/// `d`.
pub open spec fn round_div(n: int, d: int) -> int
    recommends
        n >= 0,
        d > 0,
{
    n / d + if 2 * (n % d) >= d {
        1int
    } else {
        0int
    }
}

/// Whether `r` lies within half a unit of `n / d`, the half below it included
/// and the half above it not: `r - 1/2 <= n / d < r + 1/2`.
pub open spec fn is_nearest(r: int, n: int, d: int) -> bool
    recommends
        d > 0,
{
    d * (2 * r - 1) <= 2 * n < d * (2 * r + 1)
}

/// The side that follows when the other side shrinks from `from` to `to`:
/// `side * to / from`, rounded to the nearest pixel.
pub open spec fn scaled_side(side: int, to: int, from: int) -> int
    recommends
        from > 0,
{
    round_div(to * side, from)
}

/// Whether a `max_w` by `max_h` box is at least as wide for its height as a
/// `img_w` by `img_h` image: `max_w / max_h >= img_w / img_h`.
///
/// A ratio over zero height is infinitely wide. A ratio of zero to zero is
/// undefined, and no comparison with an undefined ratio holds.
pub open spec fn box_at_least_as_wide(max_w: int, max_h: int, img_w: int, img_h: int) -> bool {
    &&& !(max_w == 0 && max_h == 0)
    &&& !(img_w == 0 && img_h == 0)
    &&& max_w * img_h >= img_w * max_h
}

/// The size of an image held to `max_w` in width: unchanged if it is no wider,
/// else `max_w` wide with the height scaled to match.
pub open spec fn fit_width(img_w: int, img_h: int, max_w: int) -> (int, int) {
    if max_w >= img_w {
        (img_w, img_h)
    } else {
        (max_w, scaled_side(img_h, max_w, img_w))
    }
}

/// The size of an image held to `max_h` in height: unchanged if it is no
/// higher, else `max_h` high with the width scaled to match.
pub open spec fn fit_height(img_w: int, img_h: int, max_h: int) -> (int, int) {
    if max_h >= img_h {
        (img_w, img_h)
    } else {
        (scaled_side(img_w, max_h, img_h), max_h)
    }
}

/// The thumbnail size for an image of the given `(width, height)`.
///
/// A box binds by its height where it is at least as wide as the image, equal
/// proportions included, and by its width otherwise.
pub open spec fn thumbnail_size(dimensions: (u32, u32), target: TargetDimension) -> (int, int) {
    let (img_w, img_h) = (dimensions.0 as int, dimensions.1 as int);
    match target {
        TargetDimension::MaxWidth(max_w) => fit_width(img_w, img_h, max_w as int),
        TargetDimension::MaxHeight(max_h) => fit_height(img_w, img_h, max_h as int),
        TargetDimension::BoundingBox(max_w, max_h) => if box_at_least_as_wide(
            max_w as int,
            max_h as int,
            img_w,
            img_h,
        ) {
            fit_height(img_w, img_h, max_h as int)
        } else {
            fit_width(img_w, img_h, max_w as int)
        },
    }
}

/// Whether `size` is what `get_thumbnail_dimensions` answers for an image that
/// was opened with the outcome `opened`: the thumbnail size for the
/// dimensions that were read, or `ImageOpenError` with the error that opening
/// gave.
pub open spec fn measures(
    opened: Result<(u32, u32), image::ImageError>,
    target: TargetDimension,
    size: Result<(u32, u32), ThumbnailError>,
) -> bool {
    match opened {
        Ok(dimensions) => size matches Ok(found) && (found.0 as int, found.1 as int)
            == thumbnail_size(dimensions, target),
        Err(error) => size == Err::<(u32, u32), ThumbnailError>(
            ThumbnailError::ImageOpenError(error),
        ),
    }
}

/// Rounds `n / d` to the nearest integer without leaving `u64`.
fn rounded_quotient(n: u64, d: u64) -> (q: u64)
    requires
        0 < d <= u32::MAX,
    ensures
        q == round_div(n as int, d as int),
{
    let whole: u64 = n / d;
    let rest: u64 = n % d;
    if 2 * rest >= d {
        proof {
            lemma_fundamental_div_mod(n as int, d as int);
        }
        assert(whole < u64::MAX) by (nonlinear_arith)
            requires
                n == d * whole + rest,
                0 < rest < d,
                n <= u64::MAX,
        ;
        whole + 1
    } else {
        whole
    }
}

/// The product of two `u32` values fits in a `u64`.
proof fn lemma_product_fits(a: u32, b: u32)
    ensures
        a * b <= u64::MAX,
{
    assert(a * b <= 0xffff_ffff * 0xffff_ffff) by (nonlinear_arith)
        requires
            0 <= a <= 0xffff_ffff,
            0 <= b <= 0xffff_ffff,
    ;
}

/// `side * to / from` rounded to the nearest pixel, for a side that shrinks.
fn scale_side(side: u32, to: u32, from: u32) -> (scaled: u32)
    requires
        to < from,
    ensures
        scaled == scaled_side(side as int, to as int, from as int),
        scaled <= side,
{
    proof {
        lemma_product_fits(to, side);
        lemma_scaled_side_shrinks(side as int, to as int, from as int);
    }
    let product: u64 = (to as u64) * (side as u64);
    let rounded: u64 = rounded_quotient(product, from as u64);
    rounded as u32
}

/// Whether the box is at least as wide for its height as the image.
fn is_box_at_least_as_wide(max_w: u32, max_h: u32, img_w: u32, img_h: u32) -> (wide: bool)
    ensures
        wide == box_at_least_as_wide(max_w as int, max_h as int, img_w as int, img_h as int),
{
    proof {
        lemma_product_fits(max_w, img_h);
        lemma_product_fits(img_w, max_h);
    }
    if (max_w == 0 && max_h == 0) || (img_w == 0 && img_h == 0) {
        false
    } else {
        (max_w as u64) * (img_h as u64) >= (img_w as u64) * (max_h as u64)
    }
}

/// Holds an image to `max_w` in width.
fn fit_to_width(img_w: u32, img_h: u32, max_w: u32) -> (size: (u32, u32))
    ensures
        (size.0 as int, size.1 as int) == fit_width(img_w as int, img_h as int, max_w as int),
        size.0 <= img_w,
        size.1 <= img_h,
{
    if max_w >= img_w {
        (img_w, img_h)
    } else {
        (max_w, scale_side(img_h, max_w, img_w))
    }
}

/// Holds an image to `max_h` in height.
fn fit_to_height(img_w: u32, img_h: u32, max_h: u32) -> (size: (u32, u32))
    ensures
        (size.0 as int, size.1 as int) == fit_height(img_w as int, img_h as int, max_h as int),
        size.0 <= img_w,
        size.1 <= img_h,
{
    if max_h >= img_h {
        (img_w, img_h)
    } else {
        (scale_side(img_w, max_h, img_h), max_h)
    }
}

/// Computes the size of the thumbnail of an image of the given
/// `(width, height)`.
///
/// An image that already meets the limit keeps its size. Otherwise the limited
/// side takes the limit and the other side is scaled by the same factor and
/// rounded to the nearest pixel, which may be zero for a very long and thin
/// image.
pub fn calculate_dimensions(dimensions: (u32, u32), target: TargetDimension) -> (size: (u32, u32))
    ensures
        (size.0 as int, size.1 as int) == thumbnail_size(dimensions, target),
        size.0 <= dimensions.0,
        size.1 <= dimensions.1,
{
    let (img_w, img_h) = dimensions;
    match target {
        TargetDimension::MaxWidth(max_w) => fit_to_width(img_w, img_h, max_w),
        TargetDimension::MaxHeight(max_h) => fit_to_height(img_w, img_h, max_h),
        TargetDimension::BoundingBox(max_w, max_h) => {
            if is_box_at_least_as_wide(max_w, max_h, img_w, img_h) {
                fit_to_height(img_w, img_h, max_h)
            } else {
                fit_to_width(img_w, img_h, max_w)
            }
        },
    }
}

/// Works out the size of the thumbnail of an image from what opening the
/// image gave: its `(width, height)`, or the reason it could not be opened.
///
/// An image that is smaller than the target keeps its size.
pub fn get_thumbnail_dimensions(
    opened: Result<(u32, u32), image::ImageError>,
    target: TargetDimension,
) -> (size: Result<(u32, u32), ThumbnailError>)
    ensures
        measures(opened, target, size),
{
    match opened {
        Ok(dimensions) => Ok(calculate_dimensions(dimensions, target)),
        Err(error) => Err(ThumbnailError::ImageOpenError(error)),
    }
}

/// `round_div(n, d)` is the one integer nearest to `n / d`, the upper one
/// where two are equally near.
pub proof fn lemma_round_div_is_nearest(n: int, d: int, r: int)
    requires
        n >= 0,
        d > 0,
    ensures
        is_nearest(r, n, d) <==> r == round_div(n, d),
{
    let q = round_div(n, d);
    lemma_fundamental_div_mod(n, d);
    assert(is_nearest(q, n, d)) by (nonlinear_arith)
        requires
            d > 0,
            n == d * (n / d) + n % d,
            0 <= n % d < d,
            q == n / d + if 2 * (n % d) >= d {
                1int
            } else {
                0int
            },
    ;
    if is_nearest(r, n, d) {
        assert(r == q) by (nonlinear_arith)
            requires
                d > 0,
                d * (2 * r - 1) <= 2 * n < d * (2 * r + 1),
                d * (2 * q - 1) <= 2 * n < d * (2 * q + 1),
        ;
    }
}

/// A whole quotient rounds to itself.
proof fn lemma_round_div_exact(q: int, d: int)
    requires
        q >= 0,
        d > 0,
    ensures
        round_div(q * d, d) == q,
{
    assert(is_nearest(q, q * d, d)) by (nonlinear_arith)
        requires
            d > 0,
    ;
    assert(q * d >= 0) by (nonlinear_arith)
        requires
            q >= 0,
            d > 0,
    ;
    lemma_round_div_is_nearest(q * d, d, q);
}

/// Rounding a quotient that is at most `bound` gives at most `bound`.
proof fn lemma_round_div_within(n: int, d: int, bound: int)
    requires
        n >= 0,
        d > 0,
        n <= bound * d,
    ensures
        round_div(n, d) <= bound,
{
    let q = round_div(n, d);
    lemma_round_div_is_nearest(n, d, q);
    assert(q <= bound) by (nonlinear_arith)
        requires
            d > 0,
            n <= bound * d,
            d * (2 * q - 1) <= 2 * n,
    ;
}

/// A side scaled down by `to / from` with `to < from` is no longer than it
/// was.
pub proof fn lemma_scaled_side_shrinks(side: int, to: int, from: int)
    requires
        side >= 0,
        0 <= to < from,
    ensures
        0 <= scaled_side(side, to, from) <= side,
{
    let n = to * side;
    let q = scaled_side(side, to, from);
    assert(0 <= n <= (from - 1) * side) by (nonlinear_arith)
        requires
            n == to * side,
            side >= 0,
            0 <= to < from,
    ;
    lemma_round_div_is_nearest(n, from, q);
    assert(0 <= q <= side) by (nonlinear_arith)
        requires
            from > 0,
            side >= 0,
            0 <= n <= (from - 1) * side,
            from * (2 * q - 1) <= 2 * n < from * (2 * q + 1),
    ;
}

/// A side vanishes in scaling exactly where `side * to / from` is less than
/// a half.
pub proof fn lemma_scaled_side_vanishes(side: int, to: int, from: int)
    requires
        side >= 0,
        0 <= to < from,
    ensures
        scaled_side(side, to, from) == 0 <==> 2 * (to * side) < from,
{
    assert(to * side >= 0) by (nonlinear_arith)
        requires
            side >= 0,
            to >= 0,
    ;
    lemma_round_div_is_nearest(to * side, from, 0);
    assert(is_nearest(0, to * side, from) <==> 2 * (to * side) < from) by (nonlinear_arith)
        requires
            from > 0,
            to * side >= 0,
    ;
}

/// The limit of `target` that decides the size of an image of the given
/// dimensions, and the side of the image it is held against.
pub open spec fn binding_limit(dimensions: (u32, u32), target: TargetDimension) -> (int, int) {
    match target {
        TargetDimension::MaxWidth(max_w) => (max_w as int, dimensions.0 as int),
        TargetDimension::MaxHeight(max_h) => (max_h as int, dimensions.1 as int),
        TargetDimension::BoundingBox(max_w, max_h) => if box_at_least_as_wide(
            max_w as int,
            max_h as int,
            dimensions.0 as int,
            dimensions.1 as int,
        ) {
            (max_h as int, dimensions.1 as int)
        } else {
            (max_w as int, dimensions.0 as int)
        },
    }
}

/// No enlarging: where the limit that binds is at least the side it is held
/// against, the thumbnail has the size of the image.
pub proof fn lemma_no_upscale(dimensions: (u32, u32), target: TargetDimension)
    requires
        binding_limit(dimensions, target).0 >= binding_limit(dimensions, target).1,
    ensures
        thumbnail_size(dimensions, target) == (dimensions.0 as int, dimensions.1 as int),
{
}

/// No side of a thumbnail is longer than that side of the image, and none is
/// negative.
pub proof fn lemma_never_larger(dimensions: (u32, u32), target: TargetDimension)
    ensures
        0 <= thumbnail_size(dimensions, target).0 <= dimensions.0,
        0 <= thumbnail_size(dimensions, target).1 <= dimensions.1,
{
    let (img_w, img_h) = (dimensions.0 as int, dimensions.1 as int);
    match target {
        TargetDimension::MaxWidth(max_w) => {
            if max_w < img_w {
                lemma_scaled_side_shrinks(img_h, max_w as int, img_w);
            }
        },
        TargetDimension::MaxHeight(max_h) => {
            if max_h < img_h {
                lemma_scaled_side_shrinks(img_w, max_h as int, img_h);
            }
        },
        TargetDimension::BoundingBox(max_w, max_h) => {
            if max_w < img_w {
                lemma_scaled_side_shrinks(img_h, max_w as int, img_w);
            }
            if max_h < img_h {
                lemma_scaled_side_shrinks(img_w, max_h as int, img_h);
            }
        },
    }
}

/// Proportions under a width limit: a thumbnail narrower than its image is
/// `max_w` wide, and its height is `max_w * height / width` to the nearest
/// pixel, so the two sides keep the image's ratio to within half a pixel of
/// height.
pub proof fn lemma_max_width_keeps_ratio(dimensions: (u32, u32), max_w: u32)
    requires
        max_w < dimensions.0,
    ensures
        thumbnail_size(dimensions, TargetDimension::MaxWidth(max_w)).0 == max_w,
        is_nearest(
            thumbnail_size(dimensions, TargetDimension::MaxWidth(max_w)).1,
            max_w * dimensions.1,
            dimensions.0 as int,
        ),
{
    let height = thumbnail_size(dimensions, TargetDimension::MaxWidth(max_w)).1;
    assert(max_w * dimensions.1 >= 0) by (nonlinear_arith);
    lemma_round_div_is_nearest(max_w * dimensions.1, dimensions.0 as int, height);
}

/// Proportions under a height limit: a thumbnail lower than its image is
/// `max_h` high, and its width is `max_h * width / height` to the nearest
/// pixel.
pub proof fn lemma_max_height_keeps_ratio(dimensions: (u32, u32), max_h: u32)
    requires
        max_h < dimensions.1,
    ensures
        thumbnail_size(dimensions, TargetDimension::MaxHeight(max_h)).1 == max_h,
        is_nearest(
            thumbnail_size(dimensions, TargetDimension::MaxHeight(max_h)).0,
            max_h * dimensions.0,
            dimensions.1 as int,
        ),
{
    let width = thumbnail_size(dimensions, TargetDimension::MaxHeight(max_h)).0;
    assert(max_h * dimensions.0 >= 0) by (nonlinear_arith);
    lemma_round_div_is_nearest(max_h * dimensions.0, dimensions.1 as int, width);
}

/// The tie of a box: where the box has exactly the proportions of a
/// non-empty image, `max_w / max_h == width / height`, the box, its width
/// alone and its height alone all give the same thumbnail.
pub proof fn lemma_bounding_box_tie(dimensions: (u32, u32), max_w: u32, max_h: u32)
    requires
        dimensions.0 > 0,
        dimensions.1 > 0,
        max_h > 0,
        max_w * dimensions.1 == dimensions.0 * max_h,
    ensures
        thumbnail_size(dimensions, TargetDimension::BoundingBox(max_w, max_h)) == thumbnail_size(
            dimensions,
            TargetDimension::MaxHeight(max_h),
        ),
        thumbnail_size(dimensions, TargetDimension::BoundingBox(max_w, max_h)) == thumbnail_size(
            dimensions,
            TargetDimension::MaxWidth(max_w),
        ),
{
    let (img_w, img_h) = (dimensions.0 as int, dimensions.1 as int);
    let (w, h) = (max_w as int, max_h as int);
    assert(box_at_least_as_wide(w, h, img_w, img_h));
    assert((h >= img_h) == (w >= img_w)) by (nonlinear_arith)
        requires
            img_w > 0,
            img_h > 0,
            h > 0,
            w >= 0,
            w * img_h == img_w * h,
    ;
    if h < img_h {
        assert(h * img_w == w * img_h && w * img_h == h * img_w) by (nonlinear_arith)
            requires
                w * img_h == img_w * h,
        ;
        lemma_round_div_exact(w, img_h);
        lemma_round_div_exact(h, img_w);
    }
}

/// The box of a size fits that size: a thumbnail for the box that is exactly
/// as large as the image, and so for the box of a size computed before, is
/// the image's size unchanged.
pub proof fn lemma_own_box_changes_nothing(dimensions: (u32, u32))
    ensures
        thumbnail_size(dimensions, TargetDimension::BoundingBox(dimensions.0, dimensions.1)) == (
            dimensions.0 as int,
            dimensions.1 as int,
        ),
{
}

/// A thumbnail is its own thumbnail: a size that came out of a target comes
/// out of the same target unchanged.
pub proof fn lemma_thumbnail_size_is_stable(
    dimensions: (u32, u32),
    target: TargetDimension,
    size: (u32, u32),
)
    requires
        (size.0 as int, size.1 as int) == thumbnail_size(dimensions, target),
    ensures
        thumbnail_size(size, target) == (size.0 as int, size.1 as int),
{
    let (img_w, img_h) = (dimensions.0 as int, dimensions.1 as int);
    match target {
        TargetDimension::MaxWidth(_) => {},
        TargetDimension::MaxHeight(_) => {},
        TargetDimension::BoundingBox(max_w, max_h) => {
            let (w, h) = (max_w as int, max_h as int);
            if box_at_least_as_wide(w, h, img_w, img_h) {
                if h < img_h {
                    // The width that came out is no more than the box allows.
                    assert(h * img_w >= 0 && h * img_w <= w * img_h) by (nonlinear_arith)
                        requires
                            w * img_h >= img_w * h,
                            h >= 0,
                            img_w >= 0,
                    ;
                    lemma_round_div_within(h * img_w, img_h, w);
                }
            } else {
                if w < img_w {
                    assert(w * img_h >= 0) by (nonlinear_arith)
                        requires
                            w >= 0,
                            img_h >= 0,
                    ;
                    if w == 0 && h == 0 {
                    } else {
                        // The height that came out is no more than the box
                        // allows.
                        assert(w * img_h <= h * img_w) by (nonlinear_arith)
                            requires
                                w * img_h < img_w * h,
                        ;
                        lemma_round_div_within(w * img_h, img_w, h);
                        if w == 0 {
                            assert(w * img_h == 0 && 0 * img_w == 0) by (nonlinear_arith)
                                requires
                                    w == 0,
                            ;
                            lemma_round_div_within(w * img_h, img_w, 0);
                        } else if box_at_least_as_wide(w, h, w, size.1 as int) {
                            assert(size.1 >= h) by (nonlinear_arith)
                                requires
                                    w * size.1 >= w * h,
                                    w > 0,
                            ;
                        }
                    }
                }
            }
        },
    }
}

} // verus!
