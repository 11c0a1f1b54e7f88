use apps_service::download::{manifest_fetched, package_fetched, Download};
use apps_service::downloadings::{set_or_update_canceller, CancelRegistry};
use apps_service::errors::{AppsMgmtError, Completion, DownloadError, DOWNLOAD_TIMEOUT};
use apps_service::guards::SenderRemover;

const URL: &str = "https://store.test/app/update.webmanifest";

#[test]
fn canceller_is_stored_and_overwritten_in_place() {
    let mut downloadings: CancelRegistry<u32> = CancelRegistry::new();
    assert_eq!(downloadings.len(), 0);
    assert_eq!(downloadings.get(URL), None);

    set_or_update_canceller(&mut downloadings, URL, 1);
    assert_eq!(downloadings.len(), 1);
    assert_eq!(downloadings.get(URL), Some(&1));
    assert!(downloadings.contains(URL));

    // A second download for the same URL replaces the handle.
    set_or_update_canceller(&mut downloadings, URL, 2);
    assert_eq!(downloadings.len(), 1);
    assert_eq!(downloadings.get(URL), Some(&2));

    set_or_update_canceller(&mut downloadings, "https://store.test/other", 3);
    assert_eq!(downloadings.len(), 2);
    assert_eq!(downloadings.get(URL), Some(&2));
    assert_eq!(downloadings.get("https://store.test/other"), Some(&3));

    assert_eq!(downloadings.remove(URL), Some(2));
    assert_eq!(downloadings.remove(URL), None);
    assert_eq!(downloadings.len(), 1);
    assert!(!downloadings.contains(URL));
    assert_eq!(downloadings.get("https://store.test/other"), Some(&3));
}

#[test]
fn sender_remover_takes_the_slot_out_whoever_stored_it() {
    let mut downloadings: CancelRegistry<u32> = CancelRegistry::new();
    downloadings.set(URL, 1);
    let first = SenderRemover::new(URL);
    // A newer download replaces the handle; the guard of the older one
    // still removes the slot.
    downloadings.set(URL, 2);
    first.finish(&mut downloadings);
    assert_eq!(downloadings.get(URL), None);
    assert_eq!(downloadings.len(), 0);
}

fn download() -> Download {
    Download {
        app_update_url: String::from(URL),
        url: String::from("https://store.test/app/application.zip"),
        dest: String::from("/data/downloading/42/application.zip"),
    }
}

#[test]
fn slot_lives_as_long_as_the_download() {
    let mut downloadings: CancelRegistry<u32> = CancelRegistry::new();
    let download = download();
    let guard = download.started(&mut downloadings, 7);
    assert_eq!(downloadings.get(URL), Some(&7));
    let result = download.finished(guard, &mut downloadings, Completion::Finished(Ok(())));
    assert_eq!(result, Ok(()));
    assert!(!downloadings.contains(URL));
}

#[test]
fn timed_out_wait_is_an_error_with_a_message() {
    assert_eq!(DOWNLOAD_TIMEOUT, 600);
    let mut downloadings: CancelRegistry<u32> = CancelRegistry::new();
    let download = download();
    let guard = download.started(&mut downloadings, 7);
    let result = download.finished(guard, &mut downloadings, Completion::TimedOut);
    assert_eq!(result, Err(DownloadError::Other(String::from("Timed Out"))));
    assert!(!downloadings.contains(URL));
    assert_eq!(
        Completion::Finished(Err(DownloadError::Canceled)).into_result(),
        Err(DownloadError::Canceled)
    );
}

#[test]
fn download_errors_are_told_apart_by_their_tag() {
    assert!(DownloadError::Canceled.is_canceled());
    assert!(!DownloadError::Http(String::from("304")).is_canceled());
    assert!(DownloadError::Http(String::from("304")).is_not_modified());
    assert!(!DownloadError::Http(String::from("404")).is_not_modified());
    assert!(!DownloadError::Other(String::from("304")).is_not_modified());
    assert_eq!(
        DownloadError::Http(String::from("500")).clone(),
        DownloadError::Http(String::from("500"))
    );
}

#[test]
fn end_of_a_manifest_download() {
    assert_eq!(manifest_fetched(Ok(())), Ok(()));
    assert_eq!(
        manifest_fetched(Err(DownloadError::Http(String::from("304")))),
        Err(AppsMgmtError::NotModified)
    );
    assert_eq!(
        manifest_fetched(Err(DownloadError::Http(String::from("404")))),
        Err(AppsMgmtError::ManifestDownloadFailed(DownloadError::Http(String::from("404"))))
    );
    assert_eq!(
        manifest_fetched(Err(DownloadError::Canceled)),
        Err(AppsMgmtError::ManifestDownloadFailed(DownloadError::Canceled))
    );
    assert!(AppsMgmtError::NotModified.is_not_modified());
    assert!(AppsMgmtError::ManifestDownloadFailed(DownloadError::Canceled).is_canceled());
    assert!(!AppsMgmtError::Filesystem.is_canceled());
}

#[test]
fn end_of_a_package_download() {
    assert_eq!(package_fetched(Ok(())), Ok(()));
    assert_eq!(
        package_fetched(Err(DownloadError::Http(String::from("304")))),
        Err(AppsMgmtError::PackageDownloadFailed(DownloadError::Http(String::from("304"))))
    );
    assert!(AppsMgmtError::PackageDownloadFailed(DownloadError::Canceled).is_canceled());
}
