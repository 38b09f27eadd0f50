use vstd::prelude::*;

use crate::config::AppConfig;
use crate::errors::{create_missing_directories_error, entries_view, missing_entries, IVCError};

verus! {

/// Relies on `std::path::Path::is_dir`: whether a directory exists at `dir` when asked. The
/// answer depends on the file system, so nothing is promised about it.
#[verifier::external_body]
pub fn directory_exists(dir: &str) -> (r: bool) {
    std::path::Path::new(dir).is_dir()
}

/// Decides on the two roots from whether each exists: success when both do, and otherwise the
/// error that names exactly the missing ones, `original` before `latest`, with their paths.
pub fn validate_directories_exist(
    original_dir: &String,
    does_orig_exist: bool,
    latest_dir: &String,
    does_latest_exist: bool,
) -> (r: Result<(), IVCError>)
    ensures
        r is Ok <==> does_orig_exist && does_latest_exist,
        r matches Err(e) ==> (e matches IVCError::MissingDirectory(m) && entries_view(
            m.missing_directories@,
        ) == missing_entries(original_dir@, does_orig_exist, latest_dir@, does_latest_exist)),
{
    if does_orig_exist && does_latest_exist {
        return Ok(());
    }
    Err(
        create_missing_directories_error(
            original_dir.clone(),
            does_orig_exist,
            latest_dir.clone(),
            does_latest_exist,
        ),
    )
}

/// The original and latest roots of `config`, when both are directories; otherwise the error
/// that names the roots found missing.
pub fn get_directories_if_exist(config: &AppConfig) -> (r: Result<(String, String), IVCError>)
    ensures
        match r {
            Ok((original, latest)) => original@ == config.original_images_dir() && latest@
                == config.latest_images_dir(),
            Err(e) => exists|orig_exists: bool, latest_exists: bool|
                !(orig_exists && latest_exists) && (e matches IVCError::MissingDirectory(m)
                    && entries_view(m.missing_directories@) == #[trigger] missing_entries(
                    config.original_images_dir(),
                    orig_exists,
                    config.latest_images_dir(),
                    latest_exists,
                )),
        },
{
    let original_dir = config.get_original_images_dir();
    let latest_dir = config.get_latest_images_dir();
    let orig_exists = directory_exists(original_dir.as_str());
    let latest_exists = directory_exists(latest_dir.as_str());
    match validate_directories_exist(&original_dir, orig_exists, &latest_dir, latest_exists) {
        Ok(()) => Ok((original_dir, latest_dir)),
        Err(e) => Err(e),
    }
}

} // verus!
