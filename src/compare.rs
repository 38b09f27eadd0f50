use vstd::prelude::*;

use crate::errors::{create_dimension_mismatch_error, IVCError};
use crate::image::are_dimensions_matching_for_images;
use crate::models::{ComparisonResult, ImageHolder, PixelCoord};
use crate::validation::{dimensions_match, pixel_matches};

verus! {

/// Whether the pixels at column `x`, row `y` of the pair fail to match; `distances` holds the
/// rounded-up squared colour distance of each pixel, row after row.
pub open spec fn pixel_mismatch(
    images: (ImageHolder, ImageHolder),
    distances: Seq<u32>,
    tolerance: u8,
    x: int,
    y: int,
) -> bool {
    !pixel_matches(
        images.0.image.pixel_at(x, y),
        images.1.image.pixel_at(x, y),
        distances[y * images.0.image.spec_width() + x],
        tolerance,
    )
}

/// The mismatched pixels among the first `n` of row `y`, left to right.
pub open spec fn row_mismatches(
    images: (ImageHolder, ImageHolder),
    distances: Seq<u32>,
    tolerance: u8,
    y: int,
    n: int,
) -> Seq<PixelCoord>
    decreases n,
{
    if n <= 0 {
        Seq::empty()
    } else {
        let before = row_mismatches(images, distances, tolerance, y, n - 1);
        if pixel_mismatch(images, distances, tolerance, n - 1, y) {
            before.push(PixelCoord { x: (n - 1) as u32, y: y as u32 })
        } else {
            before
        }
    }
}

/// The mismatched pixels of the first `rows` rows, in row-major order.
pub open spec fn mismatches_in_rows(
    images: (ImageHolder, ImageHolder),
    distances: Seq<u32>,
    tolerance: u8,
    rows: int,
) -> Seq<PixelCoord>
    decreases rows,
{
    if rows <= 0 {
        Seq::empty()
    } else {
        mismatches_in_rows(images, distances, tolerance, rows - 1) + row_mismatches(
            images,
            distances,
            tolerance,
            rows - 1,
            images.0.image.spec_width() as int,
        )
    }
}

/// Every pixel of the pair that does not match, row by row (y outer, x inner).
pub open spec fn mismatched_pixels(
    images: (ImageHolder, ImageHolder),
    distances: Seq<u32>,
    tolerance: u8,
) -> Seq<PixelCoord> {
    mismatches_in_rows(images, distances, tolerance, images.0.image.spec_height() as int)
}

/// The coordinates of every pixel of a pair of equally sized images that does not match
/// within `tolerance`, in row-major scan order. `distances` gives, row after row, the
/// rounded-up squared perceptual colour distance of each pixel.
pub fn compare_pair_of_images(
    images: &(ImageHolder, ImageHolder),
    distances: &Vec<u32>,
    tolerance: u8,
) -> (r: Vec<PixelCoord>)
    requires
        dimensions_match(images.0.image, images.1.image),
        distances@.len() == images.0.image.spec_width() as nat * images.0.image.spec_height() as nat,
    ensures
        r@ == mismatched_pixels(*images, distances@, tolerance),
{
    let width = images.0.image.width();
    let height = images.0.image.height();
    let count = distances.len();
    let ghost pair = *images;
    let mut mismatched: Vec<PixelCoord> = Vec::new();
    let mut y: u32 = 0;
    while y < height
        invariant
            pair == *images,
            width == images.0.image.spec_width(),
            height == images.0.image.spec_height(),
            dimensions_match(images.0.image, images.1.image),
            count == distances@.len(),
            count == width as nat * height as nat,
            y <= height,
            mismatched@ == mismatches_in_rows(pair, distances@, tolerance, y as int),
        decreases height - y,
    {
        let ghost before = mismatched@;
        let mut x: u32 = 0;
        while x < width
            invariant
                pair == *images,
                width == images.0.image.spec_width(),
                height == images.0.image.spec_height(),
                dimensions_match(images.0.image, images.1.image),
                count == distances@.len(),
                count == width as nat * height as nat,
                y < height,
                x <= width,
                before == mismatches_in_rows(pair, distances@, tolerance, y as int),
                mismatched@ == before + row_mismatches(
                    pair,
                    distances@,
                    tolerance,
                    y as int,
                    x as int,
                ),
            decreases width - x,
        {
            proof {
                assert(y as int * width + x < width as int * height) by (nonlinear_arith)
                    requires
                        x < width,
                        y < height,
                ;
                assert(0 <= y as int * width) by (nonlinear_arith);
            }
            let index = (y as usize) * (width as usize) + (x as usize);
            let one = images.0.image.pixel(x, y);
            let two = images.1.image.pixel(x, y);
            let ghost row = row_mismatches(pair, distances@, tolerance, y as int, x as int);
            if !(one == two || distances[index] <= tolerance as u32) {
                mismatched.push(PixelCoord::new(x, y));
                assert(before + row.push(PixelCoord { x, y }) =~= (before + row).push(
                    PixelCoord { x, y },
                ));
            }
            x = x + 1;
        }
        y = y + 1;
    }
    mismatched
}

/// The pair unchanged when its images have equal dimensions, and otherwise the dimension
/// error naming both locations.
pub fn validate_image_pair(images: (ImageHolder, ImageHolder)) -> (r: Result<
    (ImageHolder, ImageHolder),
    IVCError,
>)
    ensures
        r is Ok <==> dimensions_match(images.0.image, images.1.image),
        r matches Ok(pair) ==> pair == images,
        r matches Err(e) ==> (e matches IVCError::ImagePairDimensionMismatch(m)
            && m.location_one@ == images.0.location@ && m.location_two@ == images.1.location@),
{
    if !are_dimensions_matching_for_images(&images) {
        return Err(create_dimension_mismatch_error(images));
    }
    Ok(images)
}

/// The comparison result for a validated pair: the pair itself and its mismatched pixels.
pub fn compare_image_pair(
    images: (ImageHolder, ImageHolder),
    distances: &Vec<u32>,
    tolerance: u8,
) -> (r: ComparisonResult)
    requires
        dimensions_match(images.0.image, images.1.image),
        distances@.len() == images.0.image.spec_width() as nat * images.0.image.spec_height() as nat,
    ensures
        r.spec_original_image() == images.0,
        r.spec_latest_image() == images.1,
        r.spec_comparison_image() is None,
        r.spec_mismatched_pixels() == mismatched_pixels(images, distances@, tolerance),
{
    let mismatched = compare_pair_of_images(&images, distances, tolerance);
    ComparisonResult::new(images, mismatched, None)
}

/// Takes in the outcome of one pair: a result is kept, and an error is handed back as the
/// run's failure with the kept results left as they were.
pub fn record_pair_outcome(
    results: &mut Vec<ComparisonResult>,
    outcome: Result<ComparisonResult, IVCError>,
) -> (r: Option<IVCError>)
    ensures
        match outcome {
            Ok(c) => r is None && final(results)@ == old(results)@.push(c),
            Err(e) => r == Some(e) && final(results)@ == old(results)@,
        },
{
    match outcome {
        Ok(c) => {
            results.push(c);
            None
        },
        Err(e) => Some(e),
    }
}

proof fn lemma_row_of_identical_images_matches(
    images: (ImageHolder, ImageHolder),
    distances: Seq<u32>,
    tolerance: u8,
    y: int,
    n: int,
)
    requires
        images.0.image == images.1.image,
    ensures
        row_mismatches(images, distances, tolerance, y, n) == Seq::<PixelCoord>::empty(),
    decreases n,
{
    if n > 0 {
        lemma_row_of_identical_images_matches(images, distances, tolerance, y, n - 1);
    }
}

/// Comparing an image with an identical one finds no mismatched pixel, whatever the
/// distances and the tolerance.
pub proof fn identical_images_have_no_mismatches(
    images: (ImageHolder, ImageHolder),
    distances: Seq<u32>,
    tolerance: u8,
)
    requires
        images.0.image == images.1.image,
    ensures
        mismatched_pixels(images, distances, tolerance) == Seq::<PixelCoord>::empty(),
{
    lemma_rows_of_identical_images_match(
        images,
        distances,
        tolerance,
        images.0.image.spec_height() as int,
    );
}

proof fn lemma_rows_of_identical_images_match(
    images: (ImageHolder, ImageHolder),
    distances: Seq<u32>,
    tolerance: u8,
    rows: int,
)
    requires
        images.0.image == images.1.image,
    ensures
        mismatches_in_rows(images, distances, tolerance, rows) == Seq::<PixelCoord>::empty(),
    decreases rows,
{
    if rows > 0 {
        lemma_rows_of_identical_images_match(images, distances, tolerance, rows - 1);
        lemma_row_of_identical_images_matches(
            images,
            distances,
            tolerance,
            rows - 1,
            images.0.image.spec_width() as int,
        );
        assert(Seq::<PixelCoord>::empty() + Seq::<PixelCoord>::empty() =~= Seq::<
            PixelCoord,
        >::empty());
    }
}

} // verus!
