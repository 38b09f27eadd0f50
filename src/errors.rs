use vstd::prelude::*;
use vstd::string::*;

use crate::models::ImageHolder;
use crate::text::{decimal, decimal_text};

verus! {

/// The roots that could not be found, each as its name (`original` or `latest`) and the path
/// it was looked for at, in that order.
#[derive(Debug)]
pub struct MissingDirectoriesError {
    pub missing_directories: Vec<(String, String)>,
}

/// The two images of a pair differ in width or height.
#[derive(Debug)]
pub struct ImagePairDimensionMismatchError {
    pub location_one: String,
    pub location_two: String,
}

/// The two trees hold different numbers of images.
#[derive(Debug)]
pub struct ImageCountMismatchError {
    pub original_count: usize,
    pub latest_count: usize,
}

/// Some image has no counterpart under the same relative path in the other tree.
#[derive(Debug)]
pub struct ImageNotPairedError {}

/// An image could not be read or decoded; `source_message` is the decoder's own text.
#[derive(Debug)]
pub struct IOReadError {
    pub location: String,
    pub source_message: String,
}

/// A worker running part of the comparison failed, apart from any problem with the images.
#[derive(Debug)]
pub struct TokioJoinError {
    pub action: String,
    pub source_message: String,
}

/// Every way a run can fail.
#[derive(Debug)]
pub enum IVCError {
    ImagePairDimensionMismatch(ImagePairDimensionMismatchError),
    IORead(IOReadError),
    MissingDirectory(MissingDirectoriesError),
    ImageCountMismatch(ImageCountMismatchError),
    ImageNotPaired(ImageNotPairedError),
    TokioJoin(TokioJoinError),
}

/// Two images that were to be compared differ in size.
#[derive(Debug)]
pub struct DimensionMismatchError {
    pub location_one: String,
    pub location_two: String,
}

/// Reading an image failed.
#[derive(Debug)]
pub enum IOError {
    Read { location: String, source_message: String },
}

/// The name and path of each entry, as character sequences.
pub open spec fn entries_view(entries: Seq<(String, String)>) -> Seq<(Seq<char>, Seq<char>)> {
    entries.map_values(|e: (String, String)| (e.0@, e.1@))
}

/// The entries for the roots that do not exist: `original` first, then `latest`.
pub open spec fn missing_entries(
    original_dir: Seq<char>,
    does_orig_exist: bool,
    latest_dir: Seq<char>,
    does_latest_exist: bool,
) -> Seq<(Seq<char>, Seq<char>)> {
    (if does_orig_exist {
        Seq::empty()
    } else {
        seq![("original"@, original_dir)]
    }) + (if does_latest_exist {
        Seq::empty()
    } else {
        seq![("latest"@, latest_dir)]
    })
}

/// One line per entry, `"name": "path",`, indented by four spaces.
pub open spec fn entries_text(entries: Seq<(Seq<char>, Seq<char>)>) -> Seq<char>
    decreases entries.len(),
{
    if entries.len() == 0 {
        Seq::empty()
    } else {
        let last = entries.last();
        entries_text(entries.drop_last()) + "    \""@ + last.0 + "\": \""@ + last.1 + "\",\n"@
    }
}

/// The entries as a block in braces, or `{}` when there are none.
pub open spec fn entries_block(entries: Seq<(Seq<char>, Seq<char>)>) -> Seq<char> {
    if entries.len() == 0 {
        "{}"@
    } else {
        "{\n"@ + entries_text(entries) + "}"@
    }
}

impl MissingDirectoriesError {
    pub fn new(missing_directories: Vec<(String, String)>) -> (r: Self)
        ensures
            r.missing_directories@ == missing_directories@,
    {
        MissingDirectoriesError { missing_directories }
    }

    pub open spec fn message(&self) -> Seq<char> {
        "Could not find directories: '"@ + entries_block(entries_view(self.missing_directories@))
            + "'."@
    }

    pub fn to_string(&self) -> (r: String)
        ensures
            r@ == self.message(),
    {
        let entries = &self.missing_directories;
        let ghost view = entries_view(entries@);
        let mut block = String::new();
        if entries.len() == 0 {
            block.append("{}");
        } else {
            block.append("{\n");
            let mut lines = String::new();
            let mut i: usize = 0;
            while i < entries.len()
                invariant
                    i <= entries@.len(),
                    view == entries_view(entries@),
                    lines@ == entries_text(view.subrange(0, i as int)),
                decreases entries@.len() - i,
            {
                let entry = &entries[i];
                lines.append("    \"");
                lines.append(entry.0.as_str());
                lines.append("\": \"");
                lines.append(entry.1.as_str());
                lines.append("\",\n");
                assert(view.subrange(0, i + 1).drop_last() =~= view.subrange(0, i as int));
                i = i + 1;
            }
            assert(view.subrange(0, entries@.len() as int) =~= view);
            block.append(lines.as_str());
            block.append("}");
        }
        let mut r = String::from_str("Could not find directories: '");
        r.append(block.as_str());
        r.append("'.");
        r
    }
}

impl ImagePairDimensionMismatchError {
    pub fn new(location_one: String, location_two: String) -> (r: Self)
        ensures
            r.location_one@ == location_one@,
            r.location_two@ == location_two@,
    {
        ImagePairDimensionMismatchError { location_one, location_two }
    }

    pub open spec fn message(&self) -> Seq<char> {
        "Image dimensions do not match: '"@ + self.location_one@ + "' and '"@ + self.location_two@
            + "'."@
    }

    pub fn to_string(&self) -> (r: String)
        ensures
            r@ == self.message(),
    {
        let mut r = String::from_str("Image dimensions do not match: '");
        r.append(self.location_one.as_str());
        r.append("' and '");
        r.append(self.location_two.as_str());
        r.append("'.");
        r
    }
}

impl ImageCountMismatchError {
    pub fn new(original_count: usize, latest_count: usize) -> (r: Self)
        ensures
            r.original_count == original_count,
            r.latest_count == latest_count,
    {
        ImageCountMismatchError { original_count, latest_count }
    }

    pub open spec fn message(&self) -> Seq<char> {
        "Number of images in original and latest directories do not match. Original: '"@
            + decimal(self.original_count as nat) + "', Latest: '"@ + decimal(
            self.latest_count as nat,
        ) + "'."@
    }

    pub fn to_string(&self) -> (r: String)
        ensures
            r@ == self.message(),
    {
        let mut r = String::from_str(
            "Number of images in original and latest directories do not match. Original: '",
        );
        r.append(decimal_text(self.original_count).as_str());
        r.append("', Latest: '");
        r.append(decimal_text(self.latest_count).as_str());
        r.append("'.");
        r
    }
}

impl ImageNotPairedError {
    pub fn new() -> (r: Self) {
        ImageNotPairedError {  }
    }

    pub open spec fn message(&self) -> Seq<char> {
        "Not all images are paired up between original and latest. Please confirm image names are the same within the original and latest directories."@
    }

    pub fn to_string(&self) -> (r: String)
        ensures
            r@ == self.message(),
    {
        String::from_str(
            "Not all images are paired up between original and latest. Please confirm image names are the same within the original and latest directories.",
        )
    }
}

impl Default for ImageNotPairedError {
    fn default() -> (r: Self) {
        Self::new()
    }
}

impl IOReadError {
    pub fn new(location: String, source_message: String) -> (r: Self)
        ensures
            r.location@ == location@,
            r.source_message@ == source_message@,
    {
        IOReadError { location, source_message }
    }

    pub open spec fn message(&self) -> Seq<char> {
        "Issue parsing file at location: '"@ + self.location@ + "'. Message: '"@
            + self.source_message@ + "'"@
    }

    pub fn to_string(&self) -> (r: String)
        ensures
            r@ == self.message(),
    {
        let mut r = String::from_str("Issue parsing file at location: '");
        r.append(self.location.as_str());
        r.append("'. Message: '");
        r.append(self.source_message.as_str());
        r.append("'");
        r
    }
}

impl TokioJoinError {
    pub fn new(action: String, source_message: String) -> (r: Self)
        ensures
            r.action@ == action@,
            r.source_message@ == source_message@,
    {
        TokioJoinError { action, source_message }
    }

    pub open spec fn message(&self) -> Seq<char> {
        "Issue with tokio join set when performing '"@ + self.action@ + "'"@
    }

    pub fn to_string(&self) -> (r: String)
        ensures
            r@ == self.message(),
    {
        let mut r = String::from_str("Issue with tokio join set when performing '");
        r.append(self.action.as_str());
        r.append("'");
        r
    }
}

impl IVCError {
    pub open spec fn message(&self) -> Seq<char> {
        match self {
            IVCError::ImagePairDimensionMismatch(e) => e.message(),
            IVCError::IORead(e) => e.message(),
            IVCError::MissingDirectory(e) => e.message(),
            IVCError::ImageCountMismatch(e) => e.message(),
            IVCError::ImageNotPaired(e) => e.message(),
            IVCError::TokioJoin(e) => e.message(),
        }
    }

    /// The text shown to the user for this error.
    pub fn to_string(&self) -> (r: String)
        ensures
            r@ == self.message(),
    {
        match self {
            IVCError::ImagePairDimensionMismatch(e) => e.to_string(),
            IVCError::IORead(e) => e.to_string(),
            IVCError::MissingDirectory(e) => e.to_string(),
            IVCError::ImageCountMismatch(e) => e.to_string(),
            IVCError::ImageNotPaired(e) => e.to_string(),
            IVCError::TokioJoin(e) => e.to_string(),
        }
    }
}

impl DimensionMismatchError {
    pub fn new(location_one: String, location_two: String) -> (r: Self)
        ensures
            r.location_one@ == location_one@,
            r.location_two@ == location_two@,
    {
        DimensionMismatchError { location_one, location_two }
    }

    pub open spec fn message(&self) -> Seq<char> {
        "dimensions do not match: "@ + self.location_one@ + " and "@ + self.location_two@
    }

    pub fn to_string(&self) -> (r: String)
        ensures
            r@ == self.message(),
    {
        let mut r = String::from_str("dimensions do not match: ");
        r.append(self.location_one.as_str());
        r.append(" and ");
        r.append(self.location_two.as_str());
        r
    }
}

impl IOError {
    pub open spec fn message(&self) -> Seq<char> {
        match self {
            IOError::Read { location, source_message } => "when reading location: '"@
                + location@ + "'. Message: '"@ + source_message@ + "'"@,
        }
    }

    pub fn to_string(&self) -> (r: String)
        ensures
            r@ == self.message(),
    {
        match self {
            IOError::Read { location, source_message } => {
                let mut r = String::from_str("when reading location: '");
                r.append(location.as_str());
                r.append("'. Message: '");
                r.append(source_message.as_str());
                r.append("'");
                r
            },
        }
    }
}

/// The error for the roots that do not exist; it names exactly the missing ones, `original`
/// before `latest`, each with its path.
pub fn create_missing_directories_error(
    original_dir: String,
    does_orig_exist: bool,
    latest_dir: String,
    does_latest_exist: bool,
) -> (r: IVCError)
    ensures
        r matches IVCError::MissingDirectory(e) && entries_view(e.missing_directories@)
            == missing_entries(original_dir@, does_orig_exist, latest_dir@, does_latest_exist),
{
    let mut missing_directories: Vec<(String, String)> = Vec::new();
    if !does_orig_exist {
        missing_directories.push((String::from_str("original"), original_dir));
    }
    if !does_latest_exist {
        missing_directories.push((String::from_str("latest"), latest_dir));
    }
    assert(entries_view(missing_directories@) =~= missing_entries(
        original_dir@,
        does_orig_exist,
        latest_dir@,
        does_latest_exist,
    ));
    IVCError::MissingDirectory(MissingDirectoriesError::new(missing_directories))
}

pub fn create_image_count_mismatch_error(original_count: usize, latest_count: usize) -> (r:
    IVCError)
    ensures
        r matches IVCError::ImageCountMismatch(e) && e.original_count == original_count
            && e.latest_count == latest_count,
{
    IVCError::ImageCountMismatch(ImageCountMismatchError::new(original_count, latest_count))
}

pub fn create_image_not_paired_error() -> (r: IVCError)
    ensures
        r is ImageNotPaired,
{
    IVCError::ImageNotPaired(ImageNotPairedError::new())
}

pub fn create_io_read_error(location: String, source_message: String) -> (r: IVCError)
    ensures
        r matches IVCError::IORead(e) && e.location@ == location@ && e.source_message@
            == source_message@,
{
    IVCError::IORead(IOReadError::new(location, source_message))
}

/// The error for a pair whose images differ in size, naming both locations.
pub fn create_dimension_mismatch_error(images: (ImageHolder, ImageHolder)) -> (r: IVCError)
    ensures
        r matches IVCError::ImagePairDimensionMismatch(e) && e.location_one@
            == images.0.location@ && e.location_two@ == images.1.location@,
{
    IVCError::ImagePairDimensionMismatch(
        ImagePairDimensionMismatchError::new(
            String::from_str(images.0.location.as_str()),
            String::from_str(images.1.location.as_str()),
        ),
    )
}

pub fn create_tokio_join_error(action: &str, source_message: String) -> (r: IVCError)
    ensures
        r matches IVCError::TokioJoin(e) && e.action@ == action@ && e.source_message@
            == source_message@,
{
    IVCError::TokioJoin(TokioJoinError::new(String::from_str(action), source_message))
}

} // verus!
