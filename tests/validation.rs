use image_visual_comparator::image;
use image_visual_comparator::models::{Bitmap, ImageHolder, PixelCoord, Rgba};
use image_visual_comparator::validation::{
    are_dimensions_matching_for_images, is_pixel_for_images_matching,
};
use lab::Lab;

const X_OF_PIXEL: u32 = 2;
const Y_OF_PIXEL: u32 = 1;

fn pixels_for(width: u8, height: u8) -> Vec<Rgba> {
    let mut pixels = Vec::new();
    for y in 0..height {
        for x in 0..width {
            pixels.push(Rgba::new(x, y, 255, 255));
        }
    }
    pixels
}

fn create_dynamic_image(width: u8, height: u8) -> Bitmap {
    Bitmap::new(width.into(), height.into(), pixels_for(width, height)).unwrap()
}

fn create_image_with_pixel(width: u8, height: u8, x: u32, y: u32, pixel: Rgba) -> Bitmap {
    let mut pixels = pixels_for(width, height);
    pixels[(y * width as u32 + x) as usize] = pixel;
    Bitmap::new(width.into(), height.into(), pixels).unwrap()
}

/// The image with its pixel at (3, 3) turned white.
fn create_changed_image(width: u8, height: u8) -> Bitmap {
    create_image_with_pixel(width, height, 3, 3, Rgba::new(255, 255, 255, 255))
}

fn create_image_holders(image_one: Bitmap, image_two: Bitmap) -> (ImageHolder, ImageHolder) {
    (
        ImageHolder::new(image_one, "one.png"),
        ImageHolder::new(image_two, "two.png"),
    )
}

fn lab_of(pixel: Rgba) -> Lab {
    Lab::from_rgba(&[pixel.red, pixel.green, pixel.blue, pixel.alpha])
}

fn original_pixel() -> Rgba {
    Rgba::new(X_OF_PIXEL as u8, Y_OF_PIXEL as u8, 255, 255)
}

fn pixel_with_red(red: u8) -> Rgba {
    Rgba::new(red, Y_OF_PIXEL as u8, 255, 255)
}

#[test]
fn validation_when_heights_do_not_match() {
    let image_one = create_dynamic_image(4, 4);
    let image_two = create_dynamic_image(4, 5);

    assert_eq!(false, are_dimensions_matching_for_images(&(image_one, image_two)))
}

#[test]
fn validation_when_widths_do_not_match() {
    let image_one = create_dynamic_image(4, 4);
    let image_two = create_dynamic_image(3, 4);

    assert_eq!(false, are_dimensions_matching_for_images(&(image_one, image_two)))
}

#[test]
fn validation_when_height_and_width_match_but_content_does_not() {
    let image_one = create_dynamic_image(4, 4);
    let image_two = create_changed_image(4, 4);

    assert_ne!(image_one, image_two);
    assert_eq!(true, are_dimensions_matching_for_images(&(image_one, image_two)))
}

#[test]
fn validation_when_height_and_width_match_and_content_does_as_well() {
    let image_one = create_dynamic_image(4, 4);
    let image_two = create_dynamic_image(4, 4);

    assert_eq!(true, are_dimensions_matching_for_images(&(image_one, image_two)))
}

#[test]
fn validation_when_pixels_differ_past_the_desired_tolerance() {
    const TOLERANCE: u8 = 5;

    let image_one = create_dynamic_image(4, 4);
    let image_two = create_image_with_pixel(4, 4, X_OF_PIXEL, Y_OF_PIXEL, pixel_with_red(44));
    let pixel_coord = PixelCoord::new(X_OF_PIXEL, Y_OF_PIXEL);

    let difference: f32 = lab_of(original_pixel()).squared_distance(&lab_of(pixel_with_red(44)));

    assert!(difference > TOLERANCE as f32);
    assert_eq!(
        false,
        is_pixel_for_images_matching(
            &(image_one, image_two),
            &pixel_coord,
            difference.ceil() as u32,
            TOLERANCE
        )
    );
}

#[test]
fn validation_when_pixels_match_exactly() {
    let image_one = create_dynamic_image(4, 4);
    let image_two = create_dynamic_image(4, 4);
    let pixel_coord = PixelCoord::new(X_OF_PIXEL, Y_OF_PIXEL);

    let difference: f32 = lab_of(original_pixel()).squared_distance(&lab_of(original_pixel()));

    assert_eq!(0_f32, difference);
    assert_eq!(
        true,
        is_pixel_for_images_matching(
            &(image_one, image_two),
            &pixel_coord,
            difference.ceil() as u32,
            5
        )
    )
}

#[test]
fn validation_when_pixels_differ_but_are_within_desired_tolerance() {
    const TOLERANCE: u8 = 8;

    let image_one = create_dynamic_image(4, 4);
    let image_two = create_image_with_pixel(4, 4, X_OF_PIXEL, Y_OF_PIXEL, pixel_with_red(49));
    let pixel_coord = PixelCoord::new(X_OF_PIXEL, Y_OF_PIXEL);

    let difference: f32 = lab_of(original_pixel()).squared_distance(&lab_of(pixel_with_red(49)));

    assert!(difference < TOLERANCE as f32);
    assert_eq!(
        true,
        is_pixel_for_images_matching(
            &(image_one, image_two),
            &pixel_coord,
            difference.ceil() as u32,
            TOLERANCE
        )
    );
}

#[test]
fn image_when_heights_do_not_match() {
    let input = create_image_holders(create_dynamic_image(4, 4), create_dynamic_image(4, 5));

    assert_eq!(false, image::are_dimensions_matching_for_images(&input))
}

#[test]
fn image_when_widths_do_not_match() {
    let input = create_image_holders(create_dynamic_image(4, 4), create_dynamic_image(3, 4));

    assert_eq!(false, image::are_dimensions_matching_for_images(&input))
}

#[test]
fn image_when_height_and_width_match_but_content_does_not() {
    let input = create_image_holders(create_dynamic_image(4, 4), create_changed_image(4, 4));

    assert_eq!(true, image::are_dimensions_matching_for_images(&input))
}

#[test]
fn image_when_height_and_width_match_and_content_does_as_well() {
    let input = create_image_holders(create_dynamic_image(4, 4), create_dynamic_image(4, 4));

    assert_eq!(true, image::are_dimensions_matching_for_images(&input))
}

#[test]
fn image_when_pixels_differ_past_the_desired_tolerance() {
    const TOLERANCE: u8 = 5;

    let images = create_image_holders(
        create_dynamic_image(4, 4),
        create_image_with_pixel(4, 4, X_OF_PIXEL, Y_OF_PIXEL, pixel_with_red(44)),
    );
    let pixel_coord = PixelCoord::new(X_OF_PIXEL, Y_OF_PIXEL);
    let difference: f32 = lab_of(original_pixel()).squared_distance(&lab_of(pixel_with_red(44)));

    assert!(difference > TOLERANCE as f32);
    assert_eq!(
        false,
        image::is_pixel_for_images_matching(
            &images,
            &pixel_coord,
            difference.ceil() as u32,
            TOLERANCE
        )
    );
}

#[test]
fn image_when_pixels_match_exactly() {
    let images = create_image_holders(create_dynamic_image(4, 4), create_dynamic_image(4, 4));
    let pixel_coord = PixelCoord::new(X_OF_PIXEL, Y_OF_PIXEL);
    let difference: f32 = lab_of(original_pixel()).squared_distance(&lab_of(original_pixel()));

    assert_eq!(0_f32, difference);
    assert_eq!(
        true,
        image::is_pixel_for_images_matching(&images, &pixel_coord, difference.ceil() as u32, 5)
    )
}

#[test]
fn image_when_pixels_differ_but_are_within_desired_tolerance() {
    const TOLERANCE: u8 = 8;

    let images = create_image_holders(
        create_dynamic_image(4, 4),
        create_image_with_pixel(4, 4, X_OF_PIXEL, Y_OF_PIXEL, pixel_with_red(49)),
    );
    let pixel_coord = PixelCoord::new(X_OF_PIXEL, Y_OF_PIXEL);
    let difference: f32 = lab_of(original_pixel()).squared_distance(&lab_of(pixel_with_red(49)));

    assert!(difference < TOLERANCE as f32);
    assert_eq!(
        true,
        image::is_pixel_for_images_matching(
            &images,
            &pixel_coord,
            difference.ceil() as u32,
            TOLERANCE
        )
    );
}

#[test]
fn distance_exactly_at_tolerance_matches() {
    let images = (create_dynamic_image(4, 4), create_changed_image(4, 4));
    let coord = PixelCoord::new(3, 3);

    assert!(is_pixel_for_images_matching(&images, &coord, 7, 7));
    assert!(!is_pixel_for_images_matching(&images, &coord, 8, 7));
}

#[test]
fn zero_tolerance_needs_an_exact_match() {
    let images = (create_dynamic_image(4, 4), create_changed_image(4, 4));

    assert!(is_pixel_for_images_matching(&images, &PixelCoord::new(0, 0), 0, 0));
    assert!(!is_pixel_for_images_matching(&images, &PixelCoord::new(3, 3), 1, 0));
}

#[test]
fn dimension_check_is_symmetric() {
    let a = create_dynamic_image(3, 4);
    let b = create_dynamic_image(4, 3);
    let forward = are_dimensions_matching_for_images(&(a, b));
    let a = create_dynamic_image(3, 4);
    let b = create_dynamic_image(4, 3);
    let backward = are_dimensions_matching_for_images(&(b, a));

    assert_eq!(forward, backward);
    assert!(!forward);
}

#[test]
fn bitmap_needs_one_pixel_per_position() {
    assert!(Bitmap::new(2, 2, pixels_for(2, 1)).is_none());
    assert!(Bitmap::new(0, 7, Vec::new()).is_some());

    let bitmap = Bitmap::new(2, 3, pixels_for(2, 3)).unwrap();
    assert_eq!(2, bitmap.width());
    assert_eq!(3, bitmap.height());
    assert_eq!(Rgba::new(1, 2, 255, 255), bitmap.pixel(1, 2));
}
