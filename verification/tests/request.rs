use apps_service::apps_item::{AppsItem, AppsObject};
use apps_service::errors::{AppsMgmtError, AppsServiceError, DownloadError};
use apps_service::manifest::{Manifest, UpdateManifest};
use apps_service::registry::AppsRegistry;
use apps_service::request::check_for_update;
use apps_service::shared_state::{AppsSharedData, Config};

const UPDATE_URL: &str = "https://store.test/app/update.webmanifest";
const CONTENT: &[u8] = b"hello world";

fn update_manifest(version: &str) -> UpdateManifest {
    UpdateManifest {
        name: String::from("app"),
        version: String::from(version),
        package_path: String::from("https://store.test/app/application.zip"),
        packaged_size: 1,
        role: String::new(),
        permissions: Vec::new(),
    }
}

fn registry_with(version: &str, hash: &str) -> (AppsRegistry, AppsItem) {
    let mut registry = AppsRegistry::new(80);
    let mut item = AppsItem::default("app", 80);
    item.set_update_url(UPDATE_URL);
    item.set_version(version);
    item.set_manifest_hash(hash);
    let manifest = Manifest {
        name: String::from("app"),
        version: String::from(version),
        start_url: String::new(),
        icons: None,
        role: String::new(),
        permissions: Vec::new(),
    };
    assert_eq!(registry.save_app(false, &item, &manifest), Ok(()));
    (registry, item)
}

#[test]
fn check_needs_a_registered_application() {
    let (registry, item) = registry_with("1.0.0", "");
    assert_eq!(
        check_for_update(&registry, "https://store.test/other", false).err(),
        Some(AppsServiceError::AppNotFound)
    );
    let check = check_for_update(&registry, UPDATE_URL, true).unwrap();
    assert_eq!(check.app, item);
    assert!(check.is_auto_update);
}

#[test]
fn check_reports_an_update_with_its_auto_download_flag() {
    let (registry, item) = registry_with("1.0.0", "");
    let mut expected = AppsObject::from(&item);

    let check = check_for_update(&registry, UPDATE_URL, false).unwrap();
    assert_eq!(
        check.fetched(Ok(()), Some(&update_manifest("1.0.1")), CONTENT),
        Ok(Some(expected.clone()))
    );

    let check = check_for_update(&registry, UPDATE_URL, true).unwrap();
    expected.allowed_auto_download = true;
    assert_eq!(
        check.fetched(Ok(()), Some(&update_manifest("1.0.1")), CONTENT),
        Ok(Some(expected))
    );
}

#[test]
fn check_finds_nothing_new() {
    let (registry, _) = registry_with("1.0.1", "");
    let check = check_for_update(&registry, UPDATE_URL, false).unwrap();
    assert_eq!(check.fetched(Ok(()), Some(&update_manifest("1.0.1")), CONTENT), Ok(None));
    assert_eq!(check.fetched(Ok(()), Some(&update_manifest("1.0.0")), CONTENT), Ok(None));
    assert_eq!(check.fetched(Ok(()), None, CONTENT), Ok(None));

    let (registry, _) = registry_with("", "5eb63bbbe01eeed093cb22bb8f5acdc3");
    let check = check_for_update(&registry, UPDATE_URL, false).unwrap();
    assert_eq!(check.fetched(Ok(()), Some(&update_manifest("1.0.1")), CONTENT), Ok(None));
}

#[test]
fn check_reports_the_end_of_the_fetch() {
    let (registry, _) = registry_with("1.0.0", "");
    let check = check_for_update(&registry, UPDATE_URL, false).unwrap();
    // Not modified: nothing new, whatever is staged.
    assert_eq!(
        check.fetched(Err(AppsMgmtError::NotModified), Some(&update_manifest("9.0")), CONTENT),
        Ok(None)
    );
    assert_eq!(
        check.fetched(
            Err(AppsMgmtError::ManifestDownloadFailed(DownloadError::Http(String::from("500")))),
            None,
            b""
        ),
        Err(AppsServiceError::DownloadManifestFailed)
    );
    // A canceled check is a failed download too.
    assert_eq!(
        check.fetched(
            Err(AppsMgmtError::ManifestDownloadFailed(DownloadError::Canceled)),
            None,
            b""
        ),
        Err(AppsServiceError::DownloadManifestFailed)
    );
    assert_eq!(
        check.fetched(Err(AppsMgmtError::Filesystem), None, b""),
        Err(AppsServiceError::DownloadManifestFailed)
    );
}

#[test]
fn repeated_checks_agree_and_leave_the_registry_alone() {
    let (registry, item) = registry_with("1.0.0", "");
    let first = check_for_update(&registry, UPDATE_URL, false)
        .unwrap()
        .fetched(Ok(()), Some(&update_manifest("1.0.1")), CONTENT);
    let second = check_for_update(&registry, UPDATE_URL, false)
        .unwrap()
        .fetched(Ok(()), Some(&update_manifest("1.0.1")), CONTENT);
    assert_eq!(first, second);
    assert_eq!(registry.count(), 1);
    assert_eq!(registry.get_by_update_url(UPDATE_URL), Some(item));
}

#[test]
fn shared_data_starts_empty() {
    let config = Config {
        root_path: String::from("/system/webapps"),
        data_path: String::from("/data/webapps"),
        uds_path: String::from("uds_path"),
        cert_type: String::from("test"),
        updater_socket: String::from("updater_socket"),
    };
    let shared: AppsSharedData<u32> = AppsSharedData::new(config.clone(), 8081);
    assert_eq!(shared.config, config);
    assert_eq!(shared.registry.count(), 0);
    assert_eq!(shared.registry.get_vhost_port(), 8081);
    assert_eq!(shared.downloadings.len(), 0);
}
