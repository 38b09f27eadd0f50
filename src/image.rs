use vstd::prelude::*;

use crate::models::{ImageHolder, PixelCoord};
use crate::validation::{dimensions_match, in_bounds, pixel_matches};

verus! {

/// Whether the two held images have the same width and the same height.
pub fn are_dimensions_matching_for_images(images: &(ImageHolder, ImageHolder)) -> (r: bool)
    ensures
        r == dimensions_match(images.0.image, images.1.image),
{
    let image_one = &images.0.image;
    let image_two = &images.1.image;
    image_one.height() == image_two.height() && image_one.width() == image_two.width()
}

/// Whether the pixels at `pixel_coord` of the two held images match, given their rounded-up
/// squared colour distance.
pub fn is_pixel_for_images_matching(
    images: &(ImageHolder, ImageHolder),
    pixel_coord: &PixelCoord,
    distance: u32,
    tolerance: u8,
) -> (r: bool)
    requires
        in_bounds(images.0.image, *pixel_coord),
        in_bounds(images.1.image, *pixel_coord),
    ensures
        r == pixel_matches(
            images.0.image.pixel_at(pixel_coord.x as int, pixel_coord.y as int),
            images.1.image.pixel_at(pixel_coord.x as int, pixel_coord.y as int),
            distance,
            tolerance,
        ),
{
    let one = images.0.image.pixel(pixel_coord.x, pixel_coord.y);
    let two = images.1.image.pixel(pixel_coord.x, pixel_coord.y);
    one == two || distance <= tolerance as u32
}

} // verus!
