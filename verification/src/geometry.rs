//! The resize geometry: how the thumbnail's dimensions follow from the
//! original dimensions and the requested target width.

use vstd::prelude::*;

verus! {

use crate::ThumbError;
use vstd::arithmetic::div_mod::{
    lemma_div_denominator, lemma_div_is_ordered, lemma_div_multiples_vanish,
    lemma_fundamental_div_mod,
};

/// The integer ratio `original_width / target_width` that drives the resize.
pub open spec fn width_ratio(original_width: int, target_width: int) -> int
    recommends
        target_width > 0,
{
    original_width / target_width
}

/// The thumbnail's height: the original height divided (flooring) by the
/// integer width ratio. This reproduces the original aspect ratio exactly
/// only when the target width divides the original width evenly; otherwise
/// the height is a flooring approximation, by design.
pub open spec fn target_height(original_width: int, original_height: int, target_width: int) -> int
    recommends
        target_width > 0,
{
    original_height / width_ratio(original_width, target_width)
}

/// The geometry on which a resize is defined: a positive target width no
/// larger than the original width (so the integer ratio is at least one),
/// and a resulting height of at least one pixel.
pub open spec fn valid_geometry(
    original_width: int,
    original_height: int,
    target_width: int,
) -> bool {
    &&& 0 < target_width <= original_width
    &&& target_height(original_width, original_height, target_width) >= 1
}

/// A positive divisor no larger than the dividend gives a quotient of at
/// least one.
pub proof fn lemma_ratio_at_least_one(original_width: int, target_width: int)
    requires
        0 < target_width <= original_width,
    ensures
        width_ratio(original_width, target_width) >= 1,
{
    lemma_div_is_ordered(target_width, original_width, target_width);
    lemma_div_multiples_vanish(1, target_width);
}

/// Computes the thumbnail dimensions for a resize of an
/// `original_width x original_height` image to `target_width`, rejecting
/// degenerate geometry (zero width, width above the original, zero height)
/// instead of faulting on it.
pub fn compute_dimensions(original_width: u32, original_height: u32, target_width: u32) -> (r:
    Result<(u32, u32), ThumbError>)
    ensures
        valid_geometry(original_width as int, original_height as int, target_width as int) ==> (
        r matches Ok(d) && d.0 == target_width && d.1 == target_height(
            original_width as int,
            original_height as int,
            target_width as int,
        )),
        !valid_geometry(original_width as int, original_height as int, target_width as int) ==> r
            == Err::<(u32, u32), ThumbError>(ThumbError::DegenerateGeometry),
{
    if target_width == 0 || original_width < target_width {
        Err(ThumbError::DegenerateGeometry)
    } else {
        proof {
            lemma_ratio_at_least_one(original_width as int, target_width as int);
        }
        let ratio: u32 = original_width / target_width;
        let height: u32 = original_height / ratio;
        if height == 0 {
            Err(ThumbError::DegenerateGeometry)
        } else {
            Ok((target_width, height))
        }
    }
}

/// When the target width divides the original width evenly, the flooring
/// height formula agrees exactly with proportional scaling: the thumbnail
/// is `target_width` wide and `original_height * target_width /
/// original_width` high.
pub proof fn lemma_exact_aspect_ratio(
    original_width: int,
    original_height: int,
    target_width: int,
)
    requires
        0 < target_width <= original_width,
        0 <= original_height,
        original_width % target_width == 0,
    ensures
        target_height(original_width, original_height, target_width) == (original_height
            * target_width) / original_width,
{
    let k = width_ratio(original_width, target_width);
    lemma_ratio_at_least_one(original_width, target_width);
    lemma_fundamental_div_mod(original_width, target_width);
    assert(original_width == target_width * k);
    lemma_div_denominator(original_height * target_width, target_width, k);
    lemma_div_multiples_vanish(original_height, target_width);
    assert((original_height * target_width) / target_width == original_height);
}

} // verus!
