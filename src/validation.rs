use vstd::prelude::*;

use crate::models::{Bitmap, PixelCoord, Rgba};

verus! {

/// Whether the two bitmaps have the same width and the same height.
pub open spec fn dimensions_match(a: Bitmap, b: Bitmap) -> bool {
    a.spec_width() == b.spec_width() && a.spec_height() == b.spec_height()
}

/// Whether two pixels match: they are equal, or `distance` (their squared perceptual colour
/// distance, rounded up to a whole number) is at most `tolerance`. The tolerance being whole,
/// rounding up changes no outcome, and a distance exactly at the tolerance matches.
pub open spec fn pixel_matches(a: Rgba, b: Rgba, distance: u32, tolerance: u8) -> bool {
    a == b || distance <= tolerance
}

/// Whether `coord` lies within the bitmap.
pub open spec fn in_bounds(image: Bitmap, coord: PixelCoord) -> bool {
    coord.x < image.spec_width() && coord.y < image.spec_height()
}

pub fn are_dimensions_matching_for_images(images: &(Bitmap, Bitmap)) -> (r: bool)
    ensures
        r == dimensions_match(images.0, images.1),
{
    images.0.height() == images.1.height() && images.0.width() == images.1.width()
}

/// Whether the pixels at `pixel_coord` of the two bitmaps match, given their rounded-up
/// squared colour distance.
pub fn is_pixel_for_images_matching(
    images: &(Bitmap, Bitmap),
    pixel_coord: &PixelCoord,
    distance: u32,
    tolerance: u8,
) -> (r: bool)
    requires
        in_bounds(images.0, *pixel_coord),
        in_bounds(images.1, *pixel_coord),
    ensures
        r == pixel_matches(
            images.0.pixel_at(pixel_coord.x as int, pixel_coord.y as int),
            images.1.pixel_at(pixel_coord.x as int, pixel_coord.y as int),
            distance,
            tolerance,
        ),
{
    let one = images.0.pixel(pixel_coord.x, pixel_coord.y);
    let two = images.1.pixel(pixel_coord.x, pixel_coord.y);
    one == two || distance <= tolerance as u32
}

/// Having equal dimensions does not depend on the order of the two images.
pub proof fn dimensions_match_is_symmetric(a: Bitmap, b: Bitmap)
    ensures
        dimensions_match(a, b) == dimensions_match(b, a),
{
}

/// A pixel whose distance equals the tolerance exactly still matches.
pub proof fn pixel_at_tolerance_matches(a: Rgba, b: Rgba, tolerance: u8)
    ensures
        pixel_matches(a, b, tolerance as u32, tolerance),
{
}

/// Two different pixels whose distance exceeds the tolerance do not match.
pub proof fn pixel_beyond_tolerance_does_not_match(a: Rgba, b: Rgba, distance: u32, tolerance: u8)
    requires
        a != b,
        distance > tolerance,
    ensures
        !pixel_matches(a, b, distance, tolerance),
{
}

} // verus!
