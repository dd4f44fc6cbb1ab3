//! Asset storage: the names under which assets are kept and the records that
//! report on what was done with a file.
//!
//! The files themselves are written and read elsewhere.

use vstd::prelude::*;
use vstd::string::*;
use crate::text::text_of;

verus! {

/// How an operation on a file ended.
#[derive(Debug, Clone, PartialEq, Eq)]
pub struct FileResult {
    pub success: bool,
    pub path: Option<String>,
    pub error: Option<String>,
}

/// What is known of an asset that is to be stored.
#[derive(Debug, Clone, PartialEq, Eq)]
pub struct AssetInfo {
    pub id: String,
    /// The kind of asset: image, video or audio.
    pub asset_type: String,
    /// The extension of its file, without the point.
    pub extension: String,
}

impl AssetInfo {
    /// The name of the file of an asset: its identifier, a point, its
    /// extension.
    pub open spec fn file_name_text(self) -> Seq<char> {
        self.id@ + "."@ + self.extension@
    }

    /// The name of the file under which the asset is stored.
    pub fn file_name(&self) -> (name: String)
        ensures
            name@ == self.file_name_text(),
    {
        let mut name = self.id.clone();
        name.append(".");
        name.append(self.extension.as_str());
        name
    }
}

impl FileResult {
    /// The record of a file that was written to `path`.
    pub fn stored(path: &str) -> (result: FileResult)
        ensures
            result.success,
            text_of(result.path) == Some(path@),
            result.error is None,
    {
        FileResult { success: true, path: Some(String::from_str(path)), error: None }
    }

    /// The record of an operation that left no file to name.
    pub fn done() -> (result: FileResult)
        ensures
            result.success,
            result.path is None,
            result.error is None,
    {
        FileResult { success: true, path: None, error: None }
    }

    /// The record of a download that the server refused, with the status that
    /// it gave.
    pub fn http_error(status: &str) -> (result: FileResult)
        ensures
            !result.success,
            result.path is None,
            text_of(result.error) == Some("HTTP error: "@ + status@),
    {
        let mut message = String::from_str("HTTP error: ");
        message.append(status);
        FileResult { success: false, path: None, error: Some(message) }
    }

    /// The record of a copy whose source is not there.
    pub fn missing_source() -> (result: FileResult)
        ensures
            !result.success,
            result.path is None,
            text_of(result.error) == Some("Source file does not exist"@),
    {
        FileResult {
            success: false,
            path: None,
            error: Some(String::from_str("Source file does not exist")),
        }
    }
}

/// Reports on a download: the file that was written after a success of the
/// server, its refusal otherwise.
///
/// `status_ok` says whether the server reported success, `status` is the
/// status as the server gave it, `path` the place the file is written to.
pub fn download_result(status_ok: bool, status: &str, path: &str) -> (result: FileResult)
    ensures
        result.success == status_ok,
        status_ok ==> text_of(result.path) == Some(path@) && result.error is None,
        !status_ok ==> result.path is None && text_of(result.error) == Some(
            "HTTP error: "@ + status@,
        ),
{
    if status_ok {
        FileResult::stored(path)
    } else {
        FileResult::http_error(status)
    }
}

/// Reports on a copy: the place of the copy, or that the source is not there.
pub fn copy_result(source_there: bool, destination: &str) -> (result: FileResult)
    ensures
        result.success == source_there,
        source_there ==> text_of(result.path) == Some(destination@) && result.error is None,
        !source_there ==> result.path is None && text_of(result.error) == Some(
            "Source file does not exist"@,
        ),
{
    if source_there {
        FileResult::stored(destination)
    } else {
        FileResult::missing_source()
    }
}

/// The sum of the sizes of files, in bytes.
pub open spec fn total_size(sizes: Seq<u64>) -> int
    decreases sizes.len(),
{
    if sizes.len() == 0 {
        0
    } else {
        total_size(sizes.drop_last()) + sizes.last()
    }
}

/// Adds up the sizes of files; a sum beyond the largest number is held at that
/// number.
pub fn storage_usage(sizes: &Vec<u64>) -> (total: u64)
    ensures
        total == if total_size(sizes@) > u64::MAX {
            u64::MAX as int
        } else {
            total_size(sizes@)
        },
{
    let mut sum: u128 = 0;
    let mut i: usize = 0;
    while i < sizes.len()
        invariant
            i <= sizes@.len(),
            sum == total_size(sizes@.take(i as int)),
            sum <= i * 0xffff_ffff_ffff_ffff,
        decreases sizes@.len() - i,
    {
        assert(sizes@.take(i + 1).drop_last() =~= sizes@.take(i as int));
        sum = sum + sizes[i] as u128;
        i = i + 1;
    }
    assert(sizes@.take(i as int) =~= sizes@);
    if sum > u64::MAX as u128 {
        u64::MAX
    } else {
        sum as u64
    }
}

} // verus!
