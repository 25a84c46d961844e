//! The fetch operation's decisions: which adapter serves a locator, and
//! what a finished `file` read yields.
use vstd::prelude::*;

use crate::config::UrlResourceHash;
use crate::content::{bytes_contents, spec_hash_label, UrlResourceContent};
use crate::error::UrlResourceError;
use crate::locator::Locator;
use crate::text::same_text;

verus! {

/// The fetch adapters, one per supported scheme.
#[derive(Clone, Copy, Debug, PartialEq, Eq)]
pub enum FetchAdapter {
    /// Reads a file of the local file system; serves the `file` scheme.
    File,
}

/// Picks the adapter for a locator by its scheme alone. A scheme that no
/// adapter serves fails at once, before any adapter runs.
pub fn select_adapter(url: &Locator) -> (r: Result<FetchAdapter, UrlResourceError>)
    ensures
        r is Ok <==> url.spec_scheme() == "file"@,
        r matches Ok(a) ==> a == FetchAdapter::File,
        r matches Err(e) ==> e matches UrlResourceError::UnsupportedScheme { scheme } && scheme@
            == url.spec_scheme(),
{
    if same_text(url.scheme(), "file") {
        Ok(FetchAdapter::File)
    } else {
        Err(UrlResourceError::new_unsupported_scheme(String::from_str(url.scheme())))
    }
}

/// The failure of a fetch operation that ran past its bound: the resource
/// is reported unavailable, and the failure is cached like any other.
pub fn fetch_timed_out() -> (e: UrlResourceError)
    ensures
        e matches UrlResourceError::ServiceUnavailable { message } && message@ == "timed out"@,
{
    UrlResourceError::new_service_unavailable(String::from_str("timed out"))
}

/// Where reading a `file` resource failed.
#[derive(Clone, Debug, PartialEq, Eq)]
pub enum FileReadFailure {
    /// The locator names no path of the local file system.
    NoFilePath,
    /// The file could not be opened for want of permission.
    AccessDenied { message: String },
    /// The file could not be opened for another reason.
    Open { message: String },
    /// The file was opened but could not be read.
    Read { message: String },
}

impl FileReadFailure {
    /// Classifies a failure: a locator without a file path is a failed
    /// precondition, a file that may not be opened is access denied, one
    /// that cannot be opened otherwise is not found, and one
    /// that cannot be read is a read error; the reason is kept as the
    /// message.
    pub fn into_error(self, url: &Locator) -> (r: UrlResourceError)
        ensures
            match self {
                FileReadFailure::NoFilePath => r matches UrlResourceError::FailedPrecondition {
                    message,
                } && message@ == "Configured URL resource invalid: "@ + url.spec_href(),
                FileReadFailure::AccessDenied { message } => r == (
                UrlResourceError::ResourceAccessDenied { message }),
                FileReadFailure::Open { message } => r == (UrlResourceError::ResourceNotFound {
                    message,
                }),
                FileReadFailure::Read { message } => r == (UrlResourceError::ResourceReadError {
                    message,
                }),
            },
    {
        match self {
            FileReadFailure::NoFilePath => UrlResourceError::new_failed_precondition(
                String::from_str("Configured URL resource invalid: ").concat(url.as_str()),
            ),
            FileReadFailure::AccessDenied { message } => UrlResourceError::new_resource_access_denied(
                message,
            ),
            FileReadFailure::Open { message } => UrlResourceError::new_resource_not_found(message),
            FileReadFailure::Read { message } => UrlResourceError::new_resource_read_error(message),
        }
    }
}

/// The result of a `file` fetch, once the file was read or failed to be:
/// the bytes read, labelled where a hashing mode is given, or the failure
/// classified.
pub fn finish_file_fetch(
    read: Result<Vec<u8>, FileReadFailure>,
    url: &Locator,
    hash: Option<UrlResourceHash>,
) -> (r: Result<UrlResourceContent, UrlResourceError>)
    ensures
        read is Ok <==> r is Ok,
        read matches Ok(data) ==> r matches Ok(c) && bytes_contents(c.data) == data@ && (hash is None
            ==> c.hash is None) && (hash matches Some(mode) ==> c.hash matches Some(h) && h@
            == spec_hash_label(mode, data@)),
        read matches Err(FileReadFailure::AccessDenied { message }) ==> r matches Err(e) && e == (
        UrlResourceError::ResourceAccessDenied { message }),
        read matches Err(FileReadFailure::Open { message }) ==> r matches Err(e) && e == (
        UrlResourceError::ResourceNotFound { message }),
        read matches Err(FileReadFailure::Read { message }) ==> r matches Err(e) && e == (
        UrlResourceError::ResourceReadError { message }),
        read matches Err(FileReadFailure::NoFilePath) ==> r matches Err(e) && e is FailedPrecondition,
{
    match read {
        Ok(data) => Ok(UrlResourceContent::from_fetched(data, hash)),
        Err(failure) => Err(failure.into_error(url)),
    }
}

} // verus!
