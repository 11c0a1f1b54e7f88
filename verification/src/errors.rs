//! The errors of the engine: what a download reports, what the staging layer
//! reports, and what a caller of the engine finally sees.

use vstd::prelude::*;
use vstd::string::*;

verus! {

/// Seconds the engine waits for a download before it gives up on it.
pub const DOWNLOAD_TIMEOUT: u64 = 600;

/// Why a download did not complete.
#[derive(Debug, PartialEq, Eq)]
pub enum DownloadError {
    /// The cancel handle of the download was fired.
    Canceled,
    /// The server answered with this status code.
    Http(String),
    /// Anything else, with a message.
    Other(String),
}

/// Mathematical value of a [`DownloadError`].
pub enum DownloadErrorView {
    Canceled,
    Http(Seq<char>),
    Other(Seq<char>),
}

impl View for DownloadError {
    type V = DownloadErrorView;

    open spec fn view(&self) -> DownloadErrorView {
        match self {
            DownloadError::Canceled => DownloadErrorView::Canceled,
            DownloadError::Http(code) => DownloadErrorView::Http(code@),
            DownloadError::Other(message) => DownloadErrorView::Other(message@),
        }
    }
}

impl Clone for DownloadError {
    fn clone(&self) -> (copy: Self)
        ensures
            copy@ == self@,
    {
        match self {
            DownloadError::Canceled => DownloadError::Canceled,
            DownloadError::Http(code) => DownloadError::Http(code.clone()),
            DownloadError::Other(message) => DownloadError::Other(message.clone()),
        }
    }
}

impl DownloadError {
    /// Whether this is the cancellation of the download.
    pub fn is_canceled(&self) -> (yes: bool)
        ensures
            yes == (self@ == DownloadErrorView::Canceled),
    {
        match self {
            DownloadError::Canceled => true,
            _ => false,
        }
    }

    /// Whether this is the answer `304 Not Modified`.
    pub fn is_not_modified(&self) -> (yes: bool)
        ensures
            yes == (self@ == DownloadErrorView::Http("304"@)),
    {
        match self {
            DownloadError::Http(code) => crate::text::same_text(code.as_str(), "304"),
            _ => false,
        }
    }

    /// The error of a download that outlived [`DOWNLOAD_TIMEOUT`].
    pub fn timed_out() -> (error: Self)
        ensures
            error@ == DownloadErrorView::Other("Timed Out"@),
    {
        DownloadError::Other(String::from_str("Timed Out"))
    }
}

/// How the wait for a download ended.
#[derive(Debug, PartialEq, Eq)]
pub enum Completion {
    /// The download delivered its result in time.
    Finished(Result<(), DownloadError>),
    /// Nothing was delivered within [`DOWNLOAD_TIMEOUT`] seconds.
    TimedOut,
}

/// What a completed wait amounts to: the delivered result, or the timeout
/// error `Other("Timed Out")`.
pub open spec fn completion_result(completion: Completion) -> Result<(), DownloadErrorView> {
    match completion {
        Completion::Finished(Ok(())) => Ok(()),
        Completion::Finished(Err(error)) => Err(error@),
        Completion::TimedOut => Err(DownloadErrorView::Other("Timed Out"@)),
    }
}

/// Mathematical value of a download result.
pub open spec fn download_result_view(result: Result<(), DownloadError>) -> Result<
    (),
    DownloadErrorView,
> {
    match result {
        Ok(()) => Ok(()),
        Err(error) => Err(error@),
    }
}

impl Completion {
    /// The result this wait amounts to.
    pub fn into_result(self) -> (result: Result<(), DownloadError>)
        ensures
            download_result_view(result) == completion_result(self),
    {
        match self {
            Completion::Finished(result) => result,
            Completion::TimedOut => Err(DownloadError::timed_out()),
        }
    }
}

/// Errors of the staging layer, which the caller sees as an
/// [`AppsServiceError`].
#[derive(Debug, PartialEq, Eq)]
pub enum AppsMgmtError {
    /// The package could not be downloaded.
    PackageDownloadFailed(DownloadError),
    /// The update manifest could not be downloaded.
    ManifestDownloadFailed(DownloadError),
    /// The server reported that the update manifest has not changed.
    NotModified,
    /// The staging directory could not be prepared.
    Filesystem,
}

/// Mathematical value of an [`AppsMgmtError`].
pub enum AppsMgmtErrorView {
    PackageDownloadFailed(DownloadErrorView),
    ManifestDownloadFailed(DownloadErrorView),
    NotModified,
    Filesystem,
}

impl View for AppsMgmtError {
    type V = AppsMgmtErrorView;

    open spec fn view(&self) -> AppsMgmtErrorView {
        match self {
            AppsMgmtError::PackageDownloadFailed(e) => AppsMgmtErrorView::PackageDownloadFailed(
                e@,
            ),
            AppsMgmtError::ManifestDownloadFailed(e) => AppsMgmtErrorView::ManifestDownloadFailed(
                e@,
            ),
            AppsMgmtError::NotModified => AppsMgmtErrorView::NotModified,
            AppsMgmtError::Filesystem => AppsMgmtErrorView::Filesystem,
        }
    }
}

impl AppsMgmtError {
    /// Whether this error is a download that was canceled.
    pub fn is_canceled(&self) -> (yes: bool)
        ensures
            yes == (self@ == AppsMgmtErrorView::PackageDownloadFailed(DownloadErrorView::Canceled)
                || self@ == AppsMgmtErrorView::ManifestDownloadFailed(
                DownloadErrorView::Canceled,
            )),
    {
        match self {
            AppsMgmtError::PackageDownloadFailed(e) => e.is_canceled(),
            AppsMgmtError::ManifestDownloadFailed(e) => e.is_canceled(),
            _ => false,
        }
    }

    /// Whether this error is the unchanged update manifest.
    pub fn is_not_modified(&self) -> (yes: bool)
        ensures
            yes == (self@ == AppsMgmtErrorView::NotModified),
    {
        match self {
            AppsMgmtError::NotModified => true,
            _ => false,
        }
    }
}

/// What a caller of the engine sees when a request fails.
#[derive(Clone, Copy, Debug, PartialEq, Eq, Structural)]
pub enum AppsServiceError {
    AppNotFound,
    Canceled,
    DiskSpaceNotEnough,
    DownloadManifestFailed,
    DownloadPackageFailed,
    FilesystemFailure,
    InvalidAppName,
    InvalidManifest,
    InvalidPackage,
    InvalidSignature,
    InvalidStartUrl,
    RegistrationError,
}

} // verus!
