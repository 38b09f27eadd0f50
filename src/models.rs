use vstd::prelude::*;

verus! {

/// A pixel position within an image: column `x`, row `y`.
#[derive(Debug, Clone, Copy, PartialEq, Eq, Structural)]
pub struct PixelCoord {
    pub x: u32,
    pub y: u32,
}

impl PixelCoord {
    pub fn new(x: u32, y: u32) -> (r: PixelCoord)
        ensures
            r == (PixelCoord { x, y }),
    {
        PixelCoord { x, y }
    }
}

/// One 8-bit RGBA pixel value.
#[derive(Debug, Clone, Copy, PartialEq, Eq, Structural)]
pub struct Rgba {
    pub red: u8,
    pub green: u8,
    pub blue: u8,
    pub alpha: u8,
}

impl Rgba {
    pub fn new(red: u8, green: u8, blue: u8, alpha: u8) -> (r: Rgba)
        ensures
            r == (Rgba { red, green, blue, alpha }),
    {
        Rgba { red, green, blue, alpha }
    }
}

/// A decoded image: a `width` by `height` grid of RGBA pixels, stored row by row.
#[derive(Debug, PartialEq, Eq)]
pub struct Bitmap {
    width: u32,
    height: u32,
    pixels: Vec<Rgba>,
}

impl Bitmap {
    #[verifier::type_invariant]
    spec fn well_formed(&self) -> bool {
        self.pixels@.len() == self.width as nat * self.height as nat
    }

    pub closed spec fn spec_width(&self) -> u32 {
        self.width
    }

    pub closed spec fn spec_height(&self) -> u32 {
        self.height
    }

    /// The pixels, row after row.
    pub closed spec fn spec_pixels(&self) -> Seq<Rgba> {
        self.pixels@
    }

    /// The pixel in column `x` of row `y`.
    pub open spec fn pixel_at(&self, x: int, y: int) -> Rgba {
        self.spec_pixels()[y * self.spec_width() + x]
    }

    /// Builds a bitmap from its pixels in row-major order; `None` unless there are exactly
    /// `width * height` of them.
    pub fn new(width: u32, height: u32, pixels: Vec<Rgba>) -> (r: Option<Bitmap>)
        ensures
            r is Some <==> pixels@.len() == width as nat * height as nat,
            r matches Some(b) ==> b.spec_width() == width && b.spec_height() == height
                && b.spec_pixels() == pixels@,
    {
        assert(width as int * height as int <= u64::MAX) by (nonlinear_arith)
            requires
                width <= u32::MAX,
                height <= u32::MAX,
        ;
        let count = (width as u64) * (height as u64);
        if pixels.len() as u64 == count {
            Some(Bitmap { width, height, pixels })
        } else {
            None
        }
    }

    pub fn width(&self) -> (r: u32)
        ensures
            r == self.spec_width(),
    {
        self.width
    }

    pub fn height(&self) -> (r: u32)
        ensures
            r == self.spec_height(),
    {
        self.height
    }

    /// The pixel in column `x` of row `y`.
    pub fn pixel(&self, x: u32, y: u32) -> (r: Rgba)
        requires
            x < self.spec_width(),
            y < self.spec_height(),
        ensures
            r == self.pixel_at(x as int, y as int),
    {
        let len = self.pixels.len();
        proof {
            use_type_invariant(self);
            assert(y as int * self.width + x < self.width as int * self.height) by (nonlinear_arith)
                requires
                    x < self.width,
                    y < self.height,
            ;
            assert(0 <= y as int * self.width) by (nonlinear_arith);
        }
        let index = (y as usize) * (self.width as usize) + (x as usize);
        self.pixels[index]
    }
}

/// A decoded image together with the location it was read from.
#[derive(Debug, PartialEq, Eq)]
pub struct ImageHolder {
    pub image: Bitmap,
    pub location: String,
}

impl ImageHolder {
    pub fn new(image: Bitmap, location: &str) -> (r: ImageHolder)
        ensures
            r.image == image,
            r.location@ == location@,
    {
        ImageHolder { image, location: location.to_owned() }
    }
}

/// The outcome of comparing one pair of images: the pair, the pixels that differ beyond the
/// tolerance, and an optional rendering of the differences.
#[derive(Debug, PartialEq, Eq)]
pub struct ComparisonResult {
    original_image: ImageHolder,
    latest_image: ImageHolder,
    comparison_image: Option<ImageHolder>,
    mismatched_pixels: Vec<PixelCoord>,
}

impl ComparisonResult {
    pub closed spec fn spec_original_image(&self) -> ImageHolder {
        self.original_image
    }

    pub closed spec fn spec_latest_image(&self) -> ImageHolder {
        self.latest_image
    }

    pub closed spec fn spec_comparison_image(&self) -> Option<ImageHolder> {
        self.comparison_image
    }

    pub closed spec fn spec_mismatched_pixels(&self) -> Seq<PixelCoord> {
        self.mismatched_pixels@
    }

    pub fn new(
        original_latest_image_pair: (ImageHolder, ImageHolder),
        mismatched_pixels: Vec<PixelCoord>,
        comparison_image: Option<ImageHolder>,
    ) -> (r: ComparisonResult)
        ensures
            r.spec_original_image() == original_latest_image_pair.0,
            r.spec_latest_image() == original_latest_image_pair.1,
            r.spec_comparison_image() == comparison_image,
            r.spec_mismatched_pixels() == mismatched_pixels@,
    {
        ComparisonResult {
            original_image: original_latest_image_pair.0,
            latest_image: original_latest_image_pair.1,
            mismatched_pixels,
            comparison_image,
        }
    }

    pub fn original_image(&self) -> (r: &ImageHolder)
        ensures
            *r == self.spec_original_image(),
    {
        &self.original_image
    }

    pub fn latest_image(&self) -> (r: &ImageHolder)
        ensures
            *r == self.spec_latest_image(),
    {
        &self.latest_image
    }

    pub fn mismatched_pixels(&self) -> (r: &Vec<PixelCoord>)
        ensures
            r@ == self.spec_mismatched_pixels(),
    {
        &self.mismatched_pixels
    }
}

} // verus!
