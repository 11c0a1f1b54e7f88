//! One cancelable download, seen from the engine: it stores the cancel
//! handle while the download is in flight, takes it out when the wait is
//! over, and says what the outcome means.

use crate::downloadings::{set_or_update_canceller, CancelRegistry};
use crate::errors::{
    completion_result, download_result_view, AppsMgmtError, AppsMgmtErrorView, Completion,
    DownloadError, DownloadErrorView,
};
use crate::guards::SenderRemover;
use crate::staging::{hash, staging_dir, staging_dir_of, update_manifest_path, update_manifest_path_of};
use vstd::prelude::*;
use vstd::string::*;

verus! {

/// A download that the embedding program is asked to make: fetch `url` into
/// the file `dest`, and wait for the end no longer than
/// [`crate::errors::DOWNLOAD_TIMEOUT`] seconds.
#[derive(Debug, PartialEq, Eq)]
pub struct Download {
    /// The update URL under which the cancel handle is stored.
    pub app_update_url: String,
    pub url: String,
    pub dest: String,
}

impl Download {
    /// The download has started and can be canceled through `canceller`:
    /// the handle is stored under the update URL, in place of an older one.
    /// The guard that comes back takes it out again.
    pub fn started<H>(&self, downloadings: &mut CancelRegistry<H>, canceller: H) -> (guard:
        SenderRemover)
        ensures
            final(downloadings)@ == old(downloadings)@.insert(self.app_update_url@, canceller),
            guard.url() == self.app_update_url@,
    {
        set_or_update_canceller(downloadings, self.app_update_url.as_str(), canceller);
        SenderRemover::new(self.app_update_url.as_str())
    }

    /// The wait for the download is over: its slot leaves the cancellation
    /// registry, and a wait that timed out counts as the error
    /// `Other("Timed Out")`.
    pub fn finished<H>(
        &self,
        guard: SenderRemover,
        downloadings: &mut CancelRegistry<H>,
        completion: Completion,
    ) -> (result: Result<(), DownloadError>)
        ensures
            final(downloadings)@ == old(downloadings)@.remove(guard.url()),
            download_result_view(result) == completion_result(completion),
    {
        guard.finish(downloadings);
        completion.into_result()
    }
}

/// What the end of the download of an update manifest means to the staging
/// layer: the answer `304` is the unchanged manifest, any other error a
/// failed download.
pub open spec fn manifest_fetch_outcome(result: Result<(), DownloadErrorView>) -> Result<
    (),
    AppsMgmtErrorView,
> {
    match result {
        Ok(()) => Ok(()),
        Err(error) => if error == DownloadErrorView::Http("304"@) {
            Err(AppsMgmtErrorView::NotModified)
        } else {
            Err(AppsMgmtErrorView::ManifestDownloadFailed(error))
        },
    }
}

/// What the end of the download of a package means to the staging layer.
pub open spec fn package_fetch_outcome(result: Result<(), DownloadErrorView>) -> Result<
    (),
    AppsMgmtErrorView,
> {
    match result {
        Ok(()) => Ok(()),
        Err(error) => Err(AppsMgmtErrorView::PackageDownloadFailed(error)),
    }
}

/// Mathematical value of a staging result.
pub open spec fn mgmt_result_view(result: Result<(), AppsMgmtError>) -> Result<
    (),
    AppsMgmtErrorView,
> {
    match result {
        Ok(()) => Ok(()),
        Err(error) => Err(error@),
    }
}

/// What the end of the download of an update manifest means to the
/// staging layer.
pub fn manifest_fetched(result: Result<(), DownloadError>) -> (outcome: Result<(), AppsMgmtError>)
    ensures
        mgmt_result_view(outcome) == manifest_fetch_outcome(download_result_view(result)),
{
    match result {
        Ok(()) => Ok(()),
        Err(error) => {
            if error.is_not_modified() {
                Err(AppsMgmtError::NotModified)
            } else {
                Err(AppsMgmtError::ManifestDownloadFailed(error))
            }
        },
    }
}

/// What the end of the download of a package means to the staging layer.
pub fn package_fetched(result: Result<(), DownloadError>) -> (outcome: Result<(), AppsMgmtError>)
    ensures
        mgmt_result_view(outcome) == package_fetch_outcome(download_result_view(result)),
{
    match result {
        Ok(()) => Ok(()),
        Err(error) => Err(AppsMgmtError::PackageDownloadFailed(error)),
    }
}

/// The fetch of the update manifest of one update URL into its scratch
/// directory.
#[derive(Debug, PartialEq, Eq)]
pub struct ManifestFetch {
    /// The data directory.
    pub webapp_path: String,
    pub update_url: String,
    /// The hash of the update URL that names the scratch directory.
    pub url_hash: u64,
    /// The scratch directory, which the embedding program creates.
    pub available_dir: String,
    /// The file that receives the update manifest.
    pub update_manifest: String,
}

impl ManifestFetch {
    /// Lays out the fetch of the update manifest of `url` under the data
    /// directory `path`.
    pub fn new(url: &str, path: &str) -> (fetch: Self)
        ensures
            fetch.webapp_path@ == path@,
            fetch.update_url@ == url@,
            fetch.available_dir@ == staging_dir_of(path@, fetch.url_hash),
            fetch.update_manifest@ == update_manifest_path_of(fetch.available_dir@),
    {
        let url_hash = hash(url);
        let available_dir = staging_dir(path, url_hash);
        let update_manifest = update_manifest_path(available_dir.as_str());
        ManifestFetch {
            webapp_path: String::from_str(path),
            update_url: String::from_str(url),
            url_hash,
            available_dir,
            update_manifest,
        }
    }

    /// The download to make: the update URL, into the staged file, with the
    /// cancel handle stored under the update URL.
    pub fn download(&self) -> (download: Download)
        ensures
            download.app_update_url@ == self.update_url@,
            download.url@ == self.update_url@,
            download.dest@ == self.update_manifest@,
    {
        Download {
            app_update_url: self.update_url.clone(),
            url: self.update_url.clone(),
            dest: self.update_manifest.clone(),
        }
    }
}

} // verus!
