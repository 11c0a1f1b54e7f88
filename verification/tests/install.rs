use apps_service::apps_item::{AppsInstallState, AppsItem, AppsObject, AppsUpdateState};
use apps_service::decider::compute_manifest_hash;
use apps_service::download::{manifest_fetched, package_fetched, ManifestFetch};
use apps_service::downloadings::CancelRegistry;
use apps_service::errors::{AppsMgmtError, AppsServiceError, Completion, DownloadError};
use apps_service::events::AppsEvent;
use apps_service::install::{
    manifest_fetch_failed, register_intent, Failure, PackageFetch, ZipVerification,
};
use apps_service::manifest::{Manifest, UpdateManifest};
use apps_service::registry::AppsRegistry;
use apps_service::request::check_for_update;
use apps_service::shared_state::Config;
use apps_service::staging::Placement;

const UPDATE_URL: &str = "https://store.test/app/update.webmanifest";
const PACKAGE_URL: &str = "https://store.test/app/application.zip";
const CONTENT: &[u8] = b"{\"name\": \"app\", \"version\": \"1.0.0\"}";
const MIB: u64 = 1024 * 1024;

fn manifest(version: &str) -> Manifest {
    Manifest {
        name: String::from("app"),
        version: String::from(version),
        start_url: String::from("/index.html"),
        icons: None,
        role: String::new(),
        permissions: vec![String::from("storage")],
    }
}

fn update_manifest(version: &str, packaged_size: u64) -> UpdateManifest {
    UpdateManifest {
        name: String::from("app"),
        version: String::from(version),
        package_path: String::from(PACKAGE_URL),
        packaged_size,
        role: String::new(),
        permissions: vec![String::from("storage")],
    }
}

fn config() -> Config {
    Config {
        root_path: String::from("/system/webapps"),
        data_path: String::from("/data"),
        uds_path: String::from("/tmp/uds"),
        cert_type: String::from("production"),
        updater_socket: String::from("/tmp/updater"),
    }
}

fn fetch() -> ManifestFetch {
    ManifestFetch::new(UPDATE_URL, "/data")
}

// Runs a new installation up to the point where the package is fetched.
fn until_package_fetch(registry: &mut AppsRegistry) -> PackageFetch {
    let registered =
        register_intent(&fetch(), false, registry, Some(manifest("1.0.0")), CONTENT).unwrap();
    registered
        .check_package(registry, Some(update_manifest("1.0.0", 10 * MIB)), 20 * MIB)
        .unwrap()
}

fn assert_rolled_back(failure: Failure, error: AppsServiceError, registry: &AppsRegistry) {
    assert_eq!(failure.error, error);
    assert_eq!(failure.remove_dir, fetch().available_dir);
    assert_eq!(registry.count(), 0);
    assert_eq!(registry.get_by_update_url(UPDATE_URL), None);
}

#[test]
fn successful_installation() {
    let mut registry = AppsRegistry::new(80);
    let mut downloadings: CancelRegistry<u32> = CancelRegistry::new();
    let fetch = fetch();

    // FetchUpdateManifest
    let download = fetch.download();
    let guard = download.started(&mut downloadings, 1);
    assert_eq!(downloadings.get(UPDATE_URL), Some(&1));
    let result = download.finished(guard, &mut downloadings, Completion::Finished(Ok(())));
    assert!(!downloadings.contains(UPDATE_URL));
    assert_eq!(manifest_fetched(result), Ok(()));

    // RegisterIntent
    let registered =
        register_intent(&fetch, false, &mut registry, Some(manifest("1.0.0")), CONTENT).unwrap();
    let mut installing = AppsItem::default("app", 80);
    installing.set_update_url(UPDATE_URL);
    installing.set_install_state(AppsInstallState::Installing);
    installing.set_version("1.0.0");
    assert_eq!(registered.run.get_apps_item(), installing);
    assert_eq!(registry.get_by_update_url(UPDATE_URL), Some(installing.clone()));
    assert_eq!(
        registry.event_broadcaster.take_pending(),
        vec![AppsEvent::AppInstalling {
            is_update: false,
            apps_object: AppsObject::from(&installing),
        }]
    );

    // FetchPackage
    let package_fetch = registered
        .check_package(&mut registry, Some(update_manifest("1.0.0", 10 * MIB)), 20 * MIB)
        .unwrap();
    let download = package_fetch.download();
    assert_eq!(download.app_update_url, UPDATE_URL);
    assert_eq!(download.url, PACKAGE_URL);
    assert_eq!(download.dest, format!("{}/application.zip", fetch.available_dir));
    let guard = download.started(&mut downloadings, 2);
    assert_eq!(downloadings.get(UPDATE_URL), Some(&2));
    let result = download.finished(guard, &mut downloadings, Completion::Finished(Ok(())));
    assert!(!downloadings.contains(UPDATE_URL));

    // VerifySignature, ValidatePackage, CrossCheckManifests
    let verify = package_fetch.fetched(&mut registry, package_fetched(result)).unwrap();
    assert_eq!(verify.package(), format!("{}/application.zip", fetch.available_dir));
    assert_eq!(
        verify.verification(&config()),
        ZipVerification {
            zip_path: format!("{}/application.zip", fetch.available_dir),
            cert_type: String::from("production"),
            folder: String::from("inf"),
        }
    );
    let validate = verify.signature_checked(&mut registry, true).unwrap();
    assert_eq!(validate.package(), format!("{}/application.zip", fetch.available_dir));
    let apply = validate.validated(&mut registry, Some(manifest("1.0.0"))).unwrap();
    assert_eq!(
        apply.placement(),
        Placement { from: fetch.available_dir.clone(), to: String::from("/data/apps/app") }
    );

    // Apply, Commit
    let object = apply.applied(&mut registry, Ok(())).unwrap();
    let mut installed = installing.clone();
    installed.set_install_state(AppsInstallState::Installed);
    installed.set_manifest_hash(&compute_manifest_hash(CONTENT));
    assert_eq!(object, AppsObject::from(&installed));
    assert_eq!(object.name, "app");
    assert_eq!(object.install_state, AppsInstallState::Installed);
    assert_eq!(object.update_state, AppsUpdateState::Idle);
    assert_eq!(registry.count(), 1);
    assert_eq!(registry.get_by_update_url(UPDATE_URL), Some(installed.clone()));
    assert_eq!(registry.get_manifest(UPDATE_URL), Some(manifest("1.0.0")));
    assert_eq!(
        registry.event_broadcaster.take_pending(),
        vec![AppsEvent::AppInstalled(AppsObject::from(&installed))]
    );

    // A check against the same manifest finds no update.
    let check = check_for_update(&registry, UPDATE_URL, false).unwrap();
    assert_eq!(
        check.fetched(Ok(()), Some(&update_manifest("1.0.0", 10 * MIB)), CONTENT),
        Ok(None)
    );
}

#[test]
fn no_update_after_installation_without_versions() {
    let mut registry = AppsRegistry::new(80);
    let registered =
        register_intent(&fetch(), false, &mut registry, Some(manifest("")), CONTENT).unwrap();
    let object = registered
        .check_package(&mut registry, Some(update_manifest("", 1)), 2)
        .unwrap()
        .fetched(&mut registry, Ok(()))
        .unwrap()
        .signature_checked(&mut registry, true)
        .unwrap()
        .validated(&mut registry, Some(manifest("")))
        .unwrap()
        .applied(&mut registry, Ok(()))
        .unwrap();
    assert_eq!(object.install_state, AppsInstallState::Installed);

    let check = check_for_update(&registry, UPDATE_URL, true).unwrap();
    assert_eq!(check.fetched(Ok(()), Some(&update_manifest("", 1)), CONTENT), Ok(None));
    // Other bytes are an update, and an automatic check allows its download.
    let announced = check
        .fetched(Ok(()), Some(&update_manifest("", 1)), b"other bytes")
        .unwrap()
        .unwrap();
    assert!(announced.allowed_auto_download);
    assert_eq!(announced.name, "app");
}

#[test]
fn failures_before_registration_leave_everything_alone() {
    assert_eq!(
        manifest_fetch_failed(&AppsMgmtError::ManifestDownloadFailed(DownloadError::Canceled)),
        AppsServiceError::Canceled
    );
    assert_eq!(
        manifest_fetch_failed(&AppsMgmtError::ManifestDownloadFailed(DownloadError::Http(
            String::from("404")
        ))),
        AppsServiceError::DownloadManifestFailed
    );
    // An unchanged manifest is a failed download for an installation.
    assert_eq!(
        manifest_fetch_failed(&AppsMgmtError::NotModified),
        AppsServiceError::DownloadManifestFailed
    );
    assert_eq!(
        manifest_fetch_failed(&AppsMgmtError::Filesystem),
        AppsServiceError::DownloadManifestFailed
    );
    assert_eq!(
        manifest_fetch_failed(&AppsMgmtError::PackageDownloadFailed(DownloadError::Canceled)),
        AppsServiceError::DownloadManifestFailed
    );

    let mut registry = AppsRegistry::new(80);
    assert_eq!(
        register_intent(&fetch(), false, &mut registry, None, CONTENT).err(),
        Some(AppsServiceError::InvalidManifest)
    );
    assert_eq!(
        register_intent(&fetch(), true, &mut registry, Some(manifest("1.0.0")), CONTENT).err(),
        Some(AppsServiceError::AppNotFound)
    );
    let mut nameless = manifest("1.0.0");
    nameless.name = String::new();
    assert_eq!(
        register_intent(&fetch(), false, &mut registry, Some(nameless), CONTENT).err(),
        Some(AppsServiceError::InvalidAppName)
    );
    assert_eq!(registry.count(), 0);
    assert_eq!(registry.event_broadcaster.pending_count(), 0);
}

#[test]
fn full_disk_rolls_back() {
    let mut registry = AppsRegistry::new(80);
    let registered =
        register_intent(&fetch(), false, &mut registry, Some(manifest("1.0.0")), CONTENT).unwrap();
    assert_eq!(registry.count(), 1);
    let failure = registered
        .check_package(&mut registry, Some(update_manifest("1.0.0", 10 * MIB)), 15 * MIB)
        .unwrap_err();
    assert_rolled_back(failure, AppsServiceError::DiskSpaceNotEnough, &registry);
}

#[test]
fn twice_the_package_must_fit() {
    let mut registry = AppsRegistry::new(80);
    let registered =
        register_intent(&fetch(), false, &mut registry, Some(manifest("1.0.0")), CONTENT).unwrap();
    let failure = registered
        .check_package(&mut registry, Some(update_manifest("1.0.0", 10 * MIB)), 20 * MIB - 1)
        .unwrap_err();
    assert_eq!(failure.error, AppsServiceError::DiskSpaceNotEnough);

    let registered =
        register_intent(&fetch(), false, &mut registry, Some(manifest("1.0.0")), CONTENT).unwrap();
    assert!(registered
        .check_package(&mut registry, Some(update_manifest("1.0.0", 10 * MIB)), 20 * MIB)
        .is_ok());

    // Sizes whose double does not fit 64 bits are compared all the same.
    let mut other = AppsRegistry::new(80);
    let registered =
        register_intent(&fetch(), false, &mut other, Some(manifest("1.0.0")), CONTENT).unwrap();
    let failure = registered
        .check_package(&mut other, Some(update_manifest("1.0.0", u64::MAX)), u64::MAX)
        .unwrap_err();
    assert_eq!(failure.error, AppsServiceError::DiskSpaceNotEnough);
}

#[test]
fn update_manifest_must_parse_and_name_a_package() {
    let mut registry = AppsRegistry::new(80);
    let registered =
        register_intent(&fetch(), false, &mut registry, Some(manifest("1.0.0")), CONTENT).unwrap();
    let failure = registered.check_package(&mut registry, None, 20 * MIB).unwrap_err();
    assert_rolled_back(failure, AppsServiceError::InvalidManifest, &registry);

    let registered =
        register_intent(&fetch(), false, &mut registry, Some(manifest("1.0.0")), CONTENT).unwrap();
    let mut no_package = update_manifest("1.0.0", 0);
    no_package.package_path = String::new();
    let failure = registered
        .check_package(&mut registry, Some(no_package), 20 * MIB)
        .unwrap_err();
    assert_rolled_back(failure, AppsServiceError::InvalidManifest, &registry);
}

#[test]
fn canceled_package_download_rolls_back() {
    let mut registry = AppsRegistry::new(80);
    let mut downloadings: CancelRegistry<u32> = CancelRegistry::new();
    let package_fetch = until_package_fetch(&mut registry);
    assert_eq!(registry.count(), 1);

    let download = package_fetch.download();
    let guard = download.started(&mut downloadings, 9);
    // The handle to fire is found under the update URL.
    assert_eq!(downloadings.get(UPDATE_URL), Some(&9));
    // Fired, it makes the download end as canceled.
    let result = download.finished(
        guard,
        &mut downloadings,
        Completion::Finished(Err(DownloadError::Canceled)),
    );
    assert!(!downloadings.contains(UPDATE_URL));
    assert_eq!(downloadings.len(), 0);

    let failure = package_fetch.fetched(&mut registry, package_fetched(result)).unwrap_err();
    assert_rolled_back(failure, AppsServiceError::Canceled, &registry);
}

#[test]
fn failed_package_download() {
    let mut registry = AppsRegistry::new(80);
    let mut downloadings: CancelRegistry<u32> = CancelRegistry::new();
    let package_fetch = until_package_fetch(&mut registry);
    let download = package_fetch.download();
    let guard = download.started(&mut downloadings, 9);
    let result = download.finished(guard, &mut downloadings, Completion::TimedOut);
    let failure = package_fetch.fetched(&mut registry, package_fetched(result)).unwrap_err();
    assert_rolled_back(failure, AppsServiceError::DownloadPackageFailed, &registry);

    let package_fetch = until_package_fetch(&mut registry);
    let failure = package_fetch
        .fetched(
            &mut registry,
            Err(AppsMgmtError::PackageDownloadFailed(DownloadError::Http(String::from("404")))),
        )
        .unwrap_err();
    assert_rolled_back(failure, AppsServiceError::DownloadPackageFailed, &registry);
}

#[test]
fn package_checks() {
    let mut registry = AppsRegistry::new(80);
    let verify = until_package_fetch(&mut registry).fetched(&mut registry, Ok(())).unwrap();
    let failure = verify.signature_checked(&mut registry, false).unwrap_err();
    assert_rolled_back(failure, AppsServiceError::InvalidSignature, &registry);

    let validate = until_package_fetch(&mut registry)
        .fetched(&mut registry, Ok(()))
        .unwrap()
        .signature_checked(&mut registry, true)
        .unwrap();
    let failure = validate.validated(&mut registry, None).unwrap_err();
    assert_rolled_back(failure, AppsServiceError::InvalidPackage, &registry);

    let validate = until_package_fetch(&mut registry)
        .fetched(&mut registry, Ok(()))
        .unwrap()
        .signature_checked(&mut registry, true)
        .unwrap();
    let failure = validate.validated(&mut registry, Some(manifest("1.0.1"))).unwrap_err();
    assert_rolled_back(failure, AppsServiceError::InvalidManifest, &registry);

    let apply = until_package_fetch(&mut registry)
        .fetched(&mut registry, Ok(()))
        .unwrap()
        .signature_checked(&mut registry, true)
        .unwrap()
        .validated(&mut registry, Some(manifest("1.0.0")))
        .unwrap();
    let failure = apply
        .applied(&mut registry, Err(AppsServiceError::FilesystemFailure))
        .unwrap_err();
    assert_rolled_back(failure, AppsServiceError::FilesystemFailure, &registry);
    assert_eq!(registry.event_broadcaster.take_pending().len(), 4);
}

fn install(registry: &mut AppsRegistry, version: &str) -> AppsItem {
    let registered =
        register_intent(&fetch(), false, registry, Some(manifest(version)), CONTENT).unwrap();
    registered
        .check_package(registry, Some(update_manifest(version, 1)), 2)
        .unwrap()
        .fetched(registry, Ok(()))
        .unwrap()
        .signature_checked(registry, true)
        .unwrap()
        .validated(registry, Some(manifest(version)))
        .unwrap()
        .applied(registry, Ok(()))
        .unwrap();
    registry.get_by_update_url(UPDATE_URL).unwrap()
}

#[test]
fn successful_update() {
    let mut registry = AppsRegistry::new(80);
    let installed = install(&mut registry, "1.0.0");
    let _ = registry.event_broadcaster.take_pending();

    let registered =
        register_intent(&fetch(), true, &mut registry, Some(manifest("1.0.1")), b"new").unwrap();
    let mut updating = installed.clone();
    updating.set_update_state(AppsUpdateState::Updating);
    updating.set_version("1.0.1");
    assert_eq!(registry.get_by_update_url(UPDATE_URL), Some(updating.clone()));
    assert!(registered.run.get_is_update());

    let object = registered
        .check_package(&mut registry, Some(update_manifest("1.0.1", 1)), 2)
        .unwrap()
        .fetched(&mut registry, Ok(()))
        .unwrap()
        .signature_checked(&mut registry, true)
        .unwrap()
        .validated(&mut registry, Some(manifest("1.0.1")))
        .unwrap()
        .applied(&mut registry, Ok(()))
        .unwrap();
    let mut updated = updating.clone();
    updated.set_update_state(AppsUpdateState::Idle);
    updated.set_manifest_hash(&compute_manifest_hash(b"new"));
    assert_eq!(object, AppsObject::from(&updated));
    assert_eq!(registry.count(), 1);
    assert_eq!(registry.get_by_update_url(UPDATE_URL), Some(updated.clone()));
    assert_eq!(registry.get_manifest(UPDATE_URL), Some(manifest("1.0.1")));
    assert_eq!(
        registry.event_broadcaster.take_pending(),
        vec![
            AppsEvent::AppInstalling { is_update: true, apps_object: AppsObject::from(&updating) },
            AppsEvent::AppUpdated(AppsObject::from(&updated)),
        ]
    );
}

#[test]
fn failed_update_leaves_the_application_with_an_update_available() {
    let mut registry = AppsRegistry::new(80);
    let installed = install(&mut registry, "1.0.0");

    let registered =
        register_intent(&fetch(), true, &mut registry, Some(manifest("1.0.1")), b"new").unwrap();
    let failure = registered
        .check_package(&mut registry, Some(update_manifest("1.0.1", 10)), 19)
        .unwrap_err();
    assert_eq!(failure.error, AppsServiceError::DiskSpaceNotEnough);
    assert_eq!(failure.remove_dir, fetch().available_dir);

    let mut expected = installed.clone();
    expected.set_update_state(AppsUpdateState::Available);
    assert_eq!(registry.count(), 1);
    assert_eq!(registry.get_by_update_url(UPDATE_URL), Some(expected));
    assert_eq!(registry.get_manifest(UPDATE_URL), Some(manifest("1.0.0")));
}

#[test]
fn manifest_without_version_keeps_the_recorded_version() {
    let mut registry = AppsRegistry::new(80);
    let installed = install(&mut registry, "1.0.0");
    let registered =
        register_intent(&fetch(), true, &mut registry, Some(manifest("")), b"new").unwrap();
    assert_eq!(registered.run.get_apps_item().get_version(), installed.get_version());
}

#[test]
fn second_application_with_the_same_name_is_renamed() {
    let mut registry = AppsRegistry::new(80);
    let _ = install(&mut registry, "1.0.0");
    let other = ManifestFetch::new("https://mirror.test/app/update.webmanifest", "/data");
    let registered =
        register_intent(&other, false, &mut registry, Some(manifest("1.0.0")), CONTENT).unwrap();
    let item = registered.run.get_apps_item();
    assert_eq!(item.get_name(), "app1");
    assert_eq!(item.get_manifest_url(), "http://app1.localhost/manifest.webmanifest");
    assert_eq!(registry.count(), 2);
    assert_eq!(registered.run.get_staging_dir(), other.available_dir);
    assert_eq!(registered.run.get_update_url(), other.update_url);
}
