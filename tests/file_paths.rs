use image_visual_comparator::config::AppConfig;
use image_visual_comparator::errors::IVCError;
use image_visual_comparator::file_paths::{
    are_file_path_pairs_valid, are_file_paths_valid, get_file_path_pairs_if_valid,
    get_pairs_of_file_paths_for_images,
};

const IMAGES: &str = "images";
const ORIGINAL: &str = "original";
const LATEST: &str = "latest";

fn create_config_for_test(directory: &str) -> AppConfig {
    AppConfig::new(directory, 5, "INFO")
}

fn create_file_names(base: &str) -> Vec<String> {
    vec![
        format!("{:}/another_dir/more_image.png", base),
        format!("{:}/image.png", base),
        format!("{:}/some_dir/some_image.png", base),
        format!("{:}/some_dir/some_image_two.png", base),
    ]
}

fn setup() -> (AppConfig, Vec<String>, Vec<String>) {
    (
        create_config_for_test(IMAGES),
        create_file_names(&format!("{}/{}", IMAGES, ORIGINAL)),
        create_file_names(&format!("{}/{}", IMAGES, LATEST)),
    )
}

fn create_input_for_test() -> (Vec<String>, Vec<String>) {
    (
        create_file_names("images/original"),
        create_file_names("images/latest"),
    )
}

#[test]
fn when_paths_do_not_match_when_ignoring_original_latest_path_prefixes() {
    let (config, mut original_file_names, mut latest_file_names) = setup();
    original_file_names.push(format!("{}/{}/image-with-no-pair.png", IMAGES, ORIGINAL));
    latest_file_names.push(format!("{}/{}/also-image-with-no-pair.png", IMAGES, LATEST));

    let expected = get_file_path_pairs_if_valid(&config, original_file_names, latest_file_names);

    assert!(expected.is_err());
    assert_eq!(
        "Not all images are paired up between original and latest. Please confirm image names are the same within the original and latest directories.",
        expected.unwrap_err().to_string()
    )
}

#[test]
fn when_paths_all_match() {
    let (config, original_file_names, latest_file_names) = setup();

    assert_eq!(original_file_names.len(), 4);
    assert_eq!(original_file_names.len(), latest_file_names.len());

    let expected = get_file_path_pairs_if_valid(&config, original_file_names, latest_file_names);

    assert!(expected.is_ok());
    assert_eq!(
        vec![
            (
                format!("{}/{}/another_dir/more_image.png", IMAGES, ORIGINAL),
                format!("{}/{}/another_dir/more_image.png", IMAGES, LATEST)
            ),
            (
                format!("{}/{}/image.png", IMAGES, ORIGINAL),
                format!("{}/{}/image.png", IMAGES, LATEST)
            ),
            (
                format!("{}/{}/some_dir/some_image.png", IMAGES, ORIGINAL),
                format!("{}/{}/some_dir/some_image.png", IMAGES, LATEST)
            ),
            (
                format!("{}/{}/some_dir/some_image_two.png", IMAGES, ORIGINAL),
                format!("{}/{}/some_dir/some_image_two.png", IMAGES, LATEST)
            ),
        ],
        expected.unwrap()
    )
}

#[test]
fn pairing_lists_of_different_lengths_gives_the_count_error() {
    let (config, original_file_names, mut latest_file_names) = setup();
    latest_file_names.pop();

    let error = get_file_path_pairs_if_valid(&config, original_file_names, latest_file_names)
        .unwrap_err();

    assert!(matches!(error, IVCError::ImageCountMismatch(_)));
    assert_eq!(
        "Number of images in original and latest directories do not match. Original: '4', Latest: '3'.",
        error.to_string()
    );
}

#[test]
fn pairing_two_empty_lists_gives_no_pairs() {
    let config = create_config_for_test(IMAGES);

    assert_eq!(
        Vec::<(String, String)>::new(),
        get_file_path_pairs_if_valid(&config, vec![], vec![]).unwrap()
    );
}

#[test]
fn returns_pairs_of_file_paths_between_original_and_latest() {
    let original = "images/original";
    let latest = "images/latest";

    let pairs =
        get_pairs_of_file_paths_for_images(create_file_names(original), create_file_names(latest));

    assert_eq!(
        vec![
            (
                format!("{:}/another_dir/more_image.png", original),
                format!("{:}/another_dir/more_image.png", latest)
            ),
            (
                format!("{:}/image.png", original),
                format!("{:}/image.png", latest)
            ),
            (
                format!("{:}/some_dir/some_image.png", original),
                format!("{:}/some_dir/some_image.png", latest)
            ),
            (
                format!("{:}/some_dir/some_image_two.png", original),
                format!("{:}/some_dir/some_image_two.png", latest)
            ),
        ],
        pairs,
    )
}

#[test]
fn pairs_stop_at_the_shorter_list() {
    let pairs = get_pairs_of_file_paths_for_images(
        vec!["a".to_string(), "b".to_string()],
        vec!["c".to_string()],
    );

    assert_eq!(vec![("a".to_string(), "c".to_string())], pairs);
}

#[test]
fn returns_false_if_more_original_files_than_latest() {
    let (mut original, mut latest) = create_input_for_test();

    latest.pop();

    original.sort();
    latest.sort();

    assert!(!are_file_paths_valid(
        &create_config_for_test(IMAGES),
        &original,
        &latest
    ));
}

#[test]
fn returns_false_if_more_latest_files_than_original() {
    let (mut original, mut latest) = create_input_for_test();

    original.pop();

    original.sort();
    latest.sort();

    assert!(!are_file_paths_valid(
        &create_config_for_test(IMAGES),
        &original,
        &latest
    ));
}

#[test]
fn returns_false_if_file_names_do_not_all_match_when_ignoring_base_path() {
    let (mut original, mut latest) = create_input_for_test();

    original.pop();
    original.push("/some/new/path/to/solo/image.png".to_string());

    original.sort();
    latest.sort();

    assert_eq!(original.len(), latest.len(), "lengths should match");
    assert!(!are_file_paths_valid(
        &create_config_for_test(IMAGES),
        &original,
        &latest
    ));
}

#[test]
fn returns_true_if_latest_and_original_contents_match_when_ignoring_base_path_to_those_folders() {
    let (original, latest) = create_input_for_test();

    assert!(!original.is_empty(), "should have elements");
    assert!(are_file_paths_valid(
        &create_config_for_test(IMAGES),
        &original,
        &latest
    ));
}

#[test]
fn pair_validity_strips_each_root_prefix() {
    let config = create_config_for_test("images/");
    let good = vec![(
        "images/original/a/b.png".to_string(),
        "images/latest/a/b.png".to_string(),
    )];
    let bad = vec![(
        "images/original/a/b.png".to_string(),
        "images/latest/a/c.png".to_string(),
    )];

    assert!(are_file_path_pairs_valid(&config, &good));
    assert!(!are_file_path_pairs_valid(&config, &bad));
}
