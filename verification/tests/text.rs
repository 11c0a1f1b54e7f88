use apps_service::apps_item::{AppsInstallState, AppsItem, AppsObject, AppsUpdateState};
use apps_service::download::ManifestFetch;
use apps_service::staging::{
    cached_dir, installed_dir, package_path, pwa_manifest_path, staging_dir, update_manifest_path,
};
use apps_service::text::{chars_of, concatenate, decimal_string, join_path, same_text};

#[test]
fn decimal_string_writes_numbers() {
    assert_eq!(decimal_string(0), "0");
    assert_eq!(decimal_string(7), "7");
    assert_eq!(decimal_string(10), "10");
    assert_eq!(decimal_string(443), "443");
    assert_eq!(decimal_string(1234567890), "1234567890");
    assert_eq!(decimal_string(u64::MAX), "18446744073709551615");
}

#[test]
fn paths_are_joined_by_one_slash() {
    assert_eq!(join_path("/data", "downloading"), "/data/downloading");
    assert_eq!(join_path("", "x"), "/x");
    assert_eq!(concatenate("ab", "cd"), "abcd");
    assert!(same_text("abc", "abc"));
    assert!(!same_text("abc", "abd"));
    assert_eq!(chars_of("a/é"), vec!['a', '/', 'é']);
}

#[test]
fn staging_layout() {
    assert_eq!(staging_dir("/data", 42), "/data/downloading/42");
    assert_eq!(
        staging_dir("/data", u64::MAX),
        "/data/downloading/18446744073709551615"
    );
    assert_eq!(
        update_manifest_path("/data/downloading/42"),
        "/data/downloading/42/update.webmanifest"
    );
    assert_eq!(
        package_path("/data/downloading/42"),
        "/data/downloading/42/application.zip"
    );
    assert_eq!(
        pwa_manifest_path("/data/downloading/42"),
        "/data/downloading/42/manifest.webmanifest"
    );
    assert_eq!(installed_dir("/data", "app"), "/data/apps/app");
    assert_eq!(cached_dir("/data", "helloworld"), "/data/cached/helloworld");
}

#[test]
fn manifest_fetch_is_laid_out_under_the_hash_of_the_url() {
    let fetch = ManifestFetch::new("https://store.test/app/update.webmanifest", "/data");
    assert_eq!(fetch.webapp_path, "/data");
    assert_eq!(fetch.update_url, "https://store.test/app/update.webmanifest");
    assert_eq!(fetch.available_dir, format!("/data/downloading/{}", fetch.url_hash));
    assert_eq!(
        fetch.update_manifest,
        format!("/data/downloading/{}/update.webmanifest", fetch.url_hash)
    );
    let download = fetch.download();
    assert_eq!(download.app_update_url, fetch.update_url);
    assert_eq!(download.url, fetch.update_url);
    assert_eq!(download.dest, fetch.update_manifest);

    // The same URL is staged in the same place.
    let again = ManifestFetch::new("https://store.test/app/update.webmanifest", "/data");
    assert_eq!(again, fetch);
}

#[test]
fn default_items() {
    let item = AppsItem::default("test", 443);
    assert_eq!(item.get_name(), "test");
    assert_eq!(item.get_manifest_url(), "http://test.localhost:443/manifest.webmanifest");
    assert_eq!(item.get_update_url(), "");
    assert_eq!(item.get_version(), "");
    assert_eq!(item.get_manifest_hash(), "");
    assert_eq!(item.get_install_state(), AppsInstallState::Installed);
    assert_eq!(item.get_update_state(), AppsUpdateState::Idle);
    assert!(!item.is_pwa());
    assert!(item.is_removable());

    let item = AppsItem::default("test", 80);
    assert_eq!(item.get_manifest_url(), "http://test.localhost/manifest.webmanifest");

    let pwa = AppsItem::default_pwa("helloworld", 8081);
    assert_eq!(
        pwa.get_manifest_url(),
        "http://cached.localhost:8081/helloworld/manifest.webmanifest"
    );
    assert!(pwa.is_pwa());
    assert!(pwa.is_removable());
    let pwa = AppsItem::default_pwa("helloworld", 80);
    assert_eq!(
        pwa.get_manifest_url(),
        "http://cached.localhost/helloworld/manifest.webmanifest"
    );
}

#[test]
fn setters_change_one_field() {
    let mut item = AppsItem::default("test", 80);
    let before = item.clone();
    item.set_version("1.2.3");
    assert_eq!(item.get_version(), "1.2.3");
    item.set_version("");
    assert_eq!(item, before);
    item.set_update_url("https://store.test/app");
    item.set_manifest_hash("abc");
    item.set_install_state(AppsInstallState::Installing);
    item.set_update_state(AppsUpdateState::Available);
    assert!(item.has_update_url("https://store.test/app"));
    assert!(!item.has_update_url("https://store.test/other"));
    assert!(item.has_name("test"));
    assert_eq!(item.get_manifest_hash(), "abc");
    assert_eq!(item.get_install_state(), AppsInstallState::Installing);
    assert_eq!(item.get_update_state(), AppsUpdateState::Available);
    assert_eq!(item.get_name(), before.get_name());
    assert_eq!(item.get_manifest_url(), before.get_manifest_url());
}

#[test]
fn apps_object_shows_the_item() {
    let mut item = AppsItem::default("test", 80);
    item.set_update_url("https://store.test/app");
    item.set_install_state(AppsInstallState::Installing);
    let object = AppsObject::from(&item);
    assert_eq!(
        object,
        AppsObject {
            name: String::from("test"),
            install_state: AppsInstallState::Installing,
            manifest_url: String::from("http://test.localhost/manifest.webmanifest"),
            removable: true,
            update_state: AppsUpdateState::Idle,
            update_url: String::from("https://store.test/app"),
            allowed_auto_download: false,
        }
    );
}
