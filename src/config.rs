use vstd::prelude::*;
use vstd::string::*;

use crate::text::chars_of;

verus! {

/// The settings of one run.
///
/// `directory` holds the `original` and `latest` image trees (and, later, the `mismatched`
/// one); `tolerance` is the largest squared perceptual colour distance at which two pixels
/// still count as matching; `image_extension` selects the files to compare.
#[derive(Debug)]
pub struct AppConfig {
    pub directory: String,
    pub tolerance: u8,
    pub log_level: String,
    pub latest_images: String,
    pub original_images: String,
    pub mismatched_images: String,
    pub image_extension: String,
}

/// `name` appended to the directory `base` as a path: an absolute `name` replaces `base`,
/// otherwise a `/` separates the two unless `base` is empty or already ends with one.
pub open spec fn joined(base: Seq<char>, name: Seq<char>) -> Seq<char> {
    if name.len() > 0 && name[0] == '/' {
        name
    } else if base.len() == 0 || base.last() == '/' {
        base + name
    } else {
        base + seq!['/'] + name
    }
}

/// `name` appended to the directory `base`.
pub fn join_path(base: &str, name: &str) -> (r: String)
    ensures
        r@ == joined(base@, name@),
{
    let base_chars = chars_of(base);
    let name_chars = chars_of(name);
    if name_chars.len() > 0 && name_chars[0] == '/' {
        return String::from_str(name);
    }
    let mut r = String::from_str(base);
    let n = base_chars.len();
    if n > 0 && base_chars[n - 1] != '/' {
        let separator = "/";
        proof {
            reveal_strlit("/");
        }
        r.append(separator);
    }
    r.append(name);
    r
}

impl AppConfig {
    /// A configuration for the image trees under `directory`: they are named `original`,
    /// `latest` and `mismatched`, and the images are the files with extension `png`.
    pub fn new(directory: &str, tolerance: u8, log_level: &str) -> (r: AppConfig)
        ensures
            r.directory@ == directory@,
            r.tolerance == tolerance,
            r.log_level@ == log_level@,
            r.latest_images@ == "latest"@,
            r.original_images@ == "original"@,
            r.mismatched_images@ == "mismatched"@,
            r.image_extension@ == "png"@,
    {
        AppConfig {
            directory: String::from_str(directory),
            tolerance,
            log_level: String::from_str(log_level),
            latest_images: String::from_str("latest"),
            original_images: String::from_str("original"),
            mismatched_images: String::from_str("mismatched"),
            image_extension: String::from_str("png"),
        }
    }

    pub open spec fn original_images_dir(&self) -> Seq<char> {
        joined(self.directory@, self.original_images@)
    }

    pub open spec fn latest_images_dir(&self) -> Seq<char> {
        joined(self.directory@, self.latest_images@)
    }

    pub open spec fn mismatched_images_dir(&self) -> Seq<char> {
        joined(self.directory@, self.mismatched_images@)
    }

    /// The largest squared colour distance at which two pixels still match.
    pub fn get_tolerance(&self) -> (r: u8)
        ensures
            r == self.tolerance,
    {
        self.tolerance
    }

    /// The root of the original images.
    pub fn get_original_images_dir(&self) -> (r: String)
        ensures
            r@ == self.original_images_dir(),
    {
        join_path(self.directory.as_str(), self.original_images.as_str())
    }

    /// The root of the latest images.
    pub fn get_latest_images_dir(&self) -> (r: String)
        ensures
            r@ == self.latest_images_dir(),
    {
        join_path(self.directory.as_str(), self.latest_images.as_str())
    }

    /// The directory meant for renderings of the differences.
    pub fn get_mismatched_images_dir(&self) -> (r: String)
        ensures
            r@ == self.mismatched_images_dir(),
    {
        join_path(self.directory.as_str(), self.mismatched_images.as_str())
    }
}

} // verus!
