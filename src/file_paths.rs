use vstd::prelude::*;

use crate::config::AppConfig;
use crate::errors::{create_image_count_mismatch_error, create_image_not_paired_error, IVCError};
use crate::text::{strip_prefix_or_self, strip_prefix_or_whole};

verus! {

/// Whether the two paths name the same file relative to their roots: each loses its root's
/// prefix, where it has it, and what is left is equal.
pub open spec fn relative_paths_match(
    config: &AppConfig,
    original: Seq<char>,
    latest: Seq<char>,
) -> bool {
    strip_prefix_or_self(original, config.original_images_dir()) == strip_prefix_or_self(
        latest,
        config.latest_images_dir(),
    )
}

/// Whether every pair names the same file relative to the two roots.
pub open spec fn all_pairs_match(config: &AppConfig, pairs: Seq<(String, String)>) -> bool {
    forall|i: int| 0 <= i < pairs.len() ==> relative_paths_match(config, #[trigger] pairs[i].0@, pairs[i].1@)
}

/// The element-wise pairs of the two lists, as many as the shorter one has.
pub open spec fn zipped(
    original: Seq<String>,
    latest: Seq<String>,
    pairs: Seq<(String, String)>,
) -> bool {
    &&& pairs.len() == if original.len() <= latest.len() {
        original.len()
    } else {
        latest.len()
    }
    &&& forall|i: int|
        0 <= i < pairs.len() ==> (#[trigger] pairs[i]).0@ == original[i]@ && pairs[i].1@
            == latest[i]@
}

/// Pairs the two lists position by position, stopping at the end of the shorter one.
pub fn get_pairs_of_file_paths_for_images(orig: Vec<String>, latest: Vec<String>) -> (r: Vec<
    (String, String),
>)
    ensures
        zipped(orig@, latest@, r@),
{
    let mut pairs: Vec<(String, String)> = Vec::new();
    let mut i: usize = 0;
    while i < orig.len() && i < latest.len()
        invariant
            i <= orig@.len(),
            i <= latest@.len(),
            pairs@.len() == i,
            forall|k: int|
                0 <= k < i ==> (#[trigger] pairs@[k]).0@ == orig@[k]@ && pairs@[k].1@
                    == latest@[k]@,
        decreases orig@.len() - i,
    {
        pairs.push((orig[i].clone(), latest[i].clone()));
        i = i + 1;
    }
    pairs
}

/// Whether every pair names the same file relative to the original and latest roots.
pub fn are_file_path_pairs_valid(config: &AppConfig, image_pairs: &Vec<(String, String)>) -> (r:
    bool)
    ensures
        r == all_pairs_match(config, image_pairs@),
{
    let original_dir = config.get_original_images_dir();
    let latest_dir = config.get_latest_images_dir();
    let mut i: usize = 0;
    while i < image_pairs.len()
        invariant
            i <= image_pairs@.len(),
            original_dir@ == config.original_images_dir(),
            latest_dir@ == config.latest_images_dir(),
            forall|k: int|
                0 <= k < i ==> relative_paths_match(
                    config,
                    #[trigger] image_pairs@[k].0@,
                    image_pairs@[k].1@,
                ),
        decreases image_pairs@.len() - i,
    {
        let pair = &image_pairs[i];
        let original_clean = strip_prefix_or_whole(pair.0.as_str(), original_dir.as_str());
        let latest_clean = strip_prefix_or_whole(pair.1.as_str(), latest_dir.as_str());
        if original_clean != latest_clean {
            return false;
        }
        i = i + 1;
    }
    true
}

/// Whether the two lists have the same length and each original path names the same file,
/// relative to its root, as the latest path at the same position.
pub fn are_file_paths_valid(config: &AppConfig, orig: &Vec<String>, latest: &Vec<String>) -> (r:
    bool)
    ensures
        r == (orig@.len() == latest@.len() && forall|i: int|
            0 <= i < orig@.len() ==> relative_paths_match(
                config,
                #[trigger] orig@[i]@,
                latest@[i]@,
            )),
{
    if orig.len() != latest.len() {
        return false;
    }
    let original_dir = config.get_original_images_dir();
    let latest_dir = config.get_latest_images_dir();
    let mut i: usize = 0;
    while i < orig.len()
        invariant
            orig@.len() == latest@.len(),
            i <= orig@.len(),
            original_dir@ == config.original_images_dir(),
            latest_dir@ == config.latest_images_dir(),
            forall|k: int|
                0 <= k < i ==> relative_paths_match(config, #[trigger] orig@[k]@, latest@[k]@),
        decreases orig@.len() - i,
    {
        let orig_clean = strip_prefix_or_whole(orig[i].as_str(), original_dir.as_str());
        let latest_clean = strip_prefix_or_whole(latest[i].as_str(), latest_dir.as_str());
        if orig_clean != latest_clean {
            return false;
        }
        i = i + 1;
    }
    true
}

/// Pairs the two sorted lists of image paths.
///
/// Lists of different lengths give the count error with both lengths; otherwise the pairs are
/// taken position by position and returned when each names the same file relative to its root,
/// and the not-paired error comes when any does not.
pub fn get_file_path_pairs_if_valid(
    config: &AppConfig,
    original_paths: Vec<String>,
    latest_paths: Vec<String>,
) -> (r: Result<Vec<(String, String)>, IVCError>)
    ensures
        original_paths@.len() != latest_paths@.len() ==> (r matches Err(
            IVCError::ImageCountMismatch(e),
        ) && e.original_count == original_paths@.len() && e.latest_count
            == latest_paths@.len()),
        original_paths@.len() == latest_paths@.len() ==> match r {
            Ok(pairs) => zipped(original_paths@, latest_paths@, pairs@) && all_pairs_match(
                config,
                pairs@,
            ),
            Err(e) => e is ImageNotPaired && exists|i: int|
                0 <= i < original_paths@.len() && !relative_paths_match(
                    config,
                    #[trigger] original_paths@[i]@,
                    latest_paths@[i]@,
                ),
        },
        original_paths@.len() == latest_paths@.len() && (exists|i: int|
            0 <= i < original_paths@.len() && !relative_paths_match(
                config,
                #[trigger] original_paths@[i]@,
                latest_paths@[i]@,
            )) ==> (r matches Err(IVCError::ImageNotPaired(_))),
{
    if original_paths.len() != latest_paths.len() {
        return Err(create_image_count_mismatch_error(original_paths.len(), latest_paths.len()));
    }
    let ghost original = original_paths@;
    let ghost latest = latest_paths@;
    let image_pairs = get_pairs_of_file_paths_for_images(original_paths, latest_paths);
    if are_file_path_pairs_valid(config, &image_pairs) {
        assert forall|i: int| 0 <= i < original.len() implies relative_paths_match(
            config,
            #[trigger] original[i]@,
            latest[i]@,
        ) by {
            assert(relative_paths_match(config, image_pairs@[i].0@, image_pairs@[i].1@));
        }
        return Ok(image_pairs);
    }
    proof {
        let i = choose|i: int|
            0 <= i < image_pairs@.len() && !relative_paths_match(
                config,
                #[trigger] image_pairs@[i].0@,
                image_pairs@[i].1@,
            );
        assert(image_pairs@[i].0@ == original[i]@);
    }
    Err(create_image_not_paired_error())
}

} // verus!
