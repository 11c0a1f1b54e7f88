use apps_service::apps_item::{AppsInstallState, AppsItem, AppsObject, AppsUpdateState};
use apps_service::errors::AppsServiceError;
use apps_service::events::{AppsEvent, DownloadFailedReason};
use apps_service::guards::AppsStatusRestorer;
use apps_service::manifest::{compare_manifests, Icons, Manifest, UpdateManifest};
use apps_service::registry::AppsRegistry;
use apps_service::request::broadcast_download_failed;

fn manifest(name: &str, version: &str) -> Manifest {
    Manifest {
        name: String::from(name),
        version: String::from(version),
        start_url: String::from("/index.html"),
        icons: None,
        role: String::new(),
        permissions: Vec::new(),
    }
}

fn item(name: &str, url: &str) -> AppsItem {
    let mut item = AppsItem::default(name, 80);
    item.set_update_url(url);
    item
}

#[test]
fn save_and_find() {
    let mut registry = AppsRegistry::new(8081);
    assert_eq!(registry.count(), 0);
    assert_eq!(registry.get_vhost_port(), 8081);
    assert_eq!(registry.get_by_update_url("https://a.test/m"), None);

    let a = item("a", "https://a.test/m");
    assert_eq!(registry.save_app(false, &a, &manifest("a", "1.0")), Ok(()));
    assert_eq!(registry.count(), 1);
    assert_eq!(registry.get_by_update_url("https://a.test/m"), Some(a.clone()));
    assert_eq!(registry.get_manifest("https://a.test/m"), Some(manifest("a", "1.0")));
    assert_eq!(registry.get_manifest("https://b.test/m"), None);

    // Saving again for the same update URL replaces the entry.
    let mut a2 = a.clone();
    a2.set_version("2.0");
    assert_eq!(registry.save_app(true, &a2, &manifest("a", "2.0")), Ok(()));
    assert_eq!(registry.count(), 1);
    assert_eq!(registry.get_by_update_url("https://a.test/m"), Some(a2));
    assert_eq!(registry.get_manifest("https://a.test/m"), Some(manifest("a", "2.0")));
}

#[test]
fn update_urls_and_names_stay_unique() {
    let mut registry = AppsRegistry::new(80);
    let a = item("a", "https://a.test/m");
    assert_eq!(registry.save_app(false, &a, &manifest("a", "")), Ok(()));

    // The same name under another update URL is refused.
    let clash = item("a", "https://b.test/m");
    assert_eq!(
        registry.save_app(false, &clash, &manifest("a", "")),
        Err(AppsServiceError::RegistrationError)
    );
    assert_eq!(registry.count(), 1);
    assert_eq!(registry.get_by_update_url("https://b.test/m"), None);

    // An update needs the application to be registered.
    let b = item("b", "https://b.test/m");
    assert_eq!(
        registry.save_app(true, &b, &manifest("b", "")),
        Err(AppsServiceError::AppNotFound)
    );
    assert_eq!(registry.save_app(false, &b, &manifest("b", "")), Ok(()));
    assert_eq!(registry.count(), 2);

    // Renaming b to the name of a is refused as well.
    let renamed = item("a", "https://b.test/m");
    assert_eq!(
        registry.save_app(true, &renamed, &manifest("a", "")),
        Err(AppsServiceError::RegistrationError)
    );
    assert_eq!(registry.get_by_update_url("https://b.test/m"), Some(b));
}

#[test]
fn unique_names() {
    let mut registry = AppsRegistry::new(80);
    assert_eq!(
        registry.get_unique_name("hello", "https://a.test/m"),
        Ok(String::from("hello"))
    );
    assert_eq!(
        registry.get_unique_name("", "https://a.test/m"),
        Err(AppsServiceError::InvalidAppName)
    );

    let a = item("hello", "https://a.test/m");
    assert_eq!(registry.save_app(false, &a, &manifest("hello", "")), Ok(()));
    // The registered application keeps its name, whatever it proposes.
    assert_eq!(
        registry.get_unique_name("other", "https://a.test/m"),
        Ok(String::from("hello"))
    );
    assert_eq!(
        registry.get_unique_name("", "https://a.test/m"),
        Ok(String::from("hello"))
    );
    // Another application that proposes the same name gets a suffix.
    assert_eq!(
        registry.get_unique_name("hello", "https://b.test/m"),
        Ok(String::from("hello1"))
    );
    let b = item("hello1", "https://b.test/m");
    assert_eq!(registry.save_app(false, &b, &manifest("hello", "")), Ok(()));
    assert_eq!(
        registry.get_unique_name("hello", "https://c.test/m"),
        Ok(String::from("hello2"))
    );
    assert_eq!(
        registry.get_unique_name("hello1", "https://c.test/m"),
        Ok(String::from("hello11"))
    );
    assert_eq!(
        registry.get_unique_name("world", "https://c.test/m"),
        Ok(String::from("world"))
    );
}

#[test]
fn restore_removes_a_new_installation() {
    let mut registry = AppsRegistry::new(80);
    let other = item("other", "https://other.test/m");
    assert_eq!(registry.save_app(false, &other, &manifest("other", "")), Ok(()));

    let snapshot = item("a", "https://a.test/m");
    let mut installing = snapshot.clone();
    installing.set_install_state(AppsInstallState::Installing);
    assert_eq!(registry.save_app(false, &installing, &manifest("a", "")), Ok(()));
    assert_eq!(registry.count(), 2);

    registry.restore_apps_status(false, &snapshot, &manifest("a", ""));
    assert_eq!(registry.count(), 1);
    assert_eq!(registry.get_by_update_url("https://a.test/m"), None);
    assert_eq!(registry.get_by_update_url("https://other.test/m"), Some(other));

    // Restoring what is not there changes nothing.
    registry.restore_apps_status(false, &snapshot, &manifest("a", ""));
    assert_eq!(registry.count(), 1);
}

#[test]
fn restore_marks_a_failed_update_as_available() {
    let mut registry = AppsRegistry::new(80);
    let mut snapshot = item("a", "https://a.test/m");
    snapshot.set_version("1.0");
    assert_eq!(registry.save_app(false, &snapshot, &manifest("a", "1.0")), Ok(()));

    let mut updating = snapshot.clone();
    updating.set_update_state(AppsUpdateState::Updating);
    updating.set_version("2.0");
    assert_eq!(registry.save_app(true, &updating, &manifest("a", "2.0")), Ok(()));

    registry.restore_apps_status(true, &snapshot, &manifest("a", "1.0"));
    let mut expected = snapshot.clone();
    expected.set_update_state(AppsUpdateState::Available);
    assert_eq!(registry.count(), 1);
    assert_eq!(registry.get_by_update_url("https://a.test/m"), Some(expected));
    assert_eq!(registry.get_manifest("https://a.test/m"), Some(manifest("a", "1.0")));
}

#[test]
fn status_restorer_fires_unless_disarmed() {
    let mut registry = AppsRegistry::new(80);
    let snapshot = item("a", "https://a.test/m");
    assert_eq!(registry.save_app(false, &snapshot, &manifest("a", "")), Ok(()));

    let mut kept = AppsStatusRestorer::new(false, snapshot.clone(), manifest("a", ""));
    kept.dont_restore();
    kept.finish(&mut registry);
    assert_eq!(registry.count(), 1);

    let armed = AppsStatusRestorer::new(false, snapshot, manifest("a", ""));
    armed.finish(&mut registry);
    assert_eq!(registry.count(), 0);
}

#[test]
fn apply_download_installs_and_announces() {
    let mut registry = AppsRegistry::new(80);
    let mut app = item("a", "https://a.test/m");
    app.set_install_state(AppsInstallState::Installing);
    let before = app.clone();

    assert_eq!(
        registry.apply_download(&mut app, &manifest("a", "1.0"), "0123", false),
        Ok(())
    );
    assert_eq!(app.get_install_state(), AppsInstallState::Installed);
    assert_eq!(app.get_update_state(), AppsUpdateState::Idle);
    assert_eq!(app.get_manifest_hash(), "0123");
    assert_eq!(app.get_name(), before.get_name());
    assert_eq!(registry.get_by_update_url("https://a.test/m"), Some(app.clone()));
    assert_eq!(
        registry.event_broadcaster.take_pending(),
        vec![AppsEvent::AppInstalled(AppsObject::from(&app))]
    );

    // As an update of an application that is not registered it is refused,
    // and nothing changes.
    let mut missing = item("b", "https://b.test/m");
    let unchanged = missing.clone();
    assert_eq!(
        registry.apply_download(&mut missing, &manifest("b", ""), "4567", true),
        Err(AppsServiceError::AppNotFound)
    );
    assert_eq!(missing, unchanged);
    assert_eq!(registry.count(), 1);
    assert_eq!(registry.event_broadcaster.pending_count(), 0);

    app.set_update_state(AppsUpdateState::Updating);
    assert_eq!(
        registry.apply_download(&mut app, &manifest("a", "2.0"), "89ab", true),
        Ok(())
    );
    assert_eq!(
        registry.event_broadcaster.take_pending(),
        vec![AppsEvent::AppUpdated(AppsObject::from(&app))]
    );
}

#[test]
fn events_are_queued_in_order() {
    let mut registry = AppsRegistry::new(80);
    let app = item("a", "https://a.test/m");
    registry.broadcast_installing(false, AppsObject::from(&app));
    broadcast_download_failed(
        &mut registry,
        "https://a.test/m",
        AppsServiceError::DownloadPackageFailed,
        Some(AppsObject::from(&app)),
    );
    // Without an application, only the update URL is known.
    broadcast_download_failed(
        &mut registry,
        "https://b.test/m",
        AppsServiceError::DownloadManifestFailed,
        None,
    );
    let mut skeleton = AppsItem::default("", 0);
    skeleton.set_update_url("https://b.test/m");
    assert_eq!(registry.event_broadcaster.pending_count(), 3);
    assert_eq!(
        registry.event_broadcaster.take_pending(),
        vec![
            AppsEvent::AppInstalling { is_update: false, apps_object: AppsObject::from(&app) },
            AppsEvent::AppDownloadFailed(DownloadFailedReason {
                apps_object: AppsObject::from(&app),
                reason: AppsServiceError::DownloadPackageFailed,
            }),
            AppsEvent::AppDownloadFailed(DownloadFailedReason {
                apps_object: AppsObject::from(&skeleton),
                reason: AppsServiceError::DownloadManifestFailed,
            }),
        ]
    );
    assert_eq!(registry.event_broadcaster.pending_count(), 0);
}

#[test]
fn manifests_are_cross_checked() {
    let update = UpdateManifest {
        name: String::from("a"),
        version: String::from("1.0"),
        package_path: String::from("https://a.test/a.zip"),
        packaged_size: 10,
        role: String::from("system"),
        permissions: vec![String::from("camera"), String::from("storage")],
    };
    let mut inside = manifest("a", "1.0");
    inside.role = String::from("system");
    inside.permissions = vec![String::from("storage"), String::from("camera")];
    // The order of the permissions does not matter.
    assert!(compare_manifests(&update, &inside));

    let mut other = inside.clone();
    other.permissions.push(String::from("contacts"));
    assert!(!compare_manifests(&update, &other));
    let mut other = inside.clone();
    other.permissions = vec![String::from("camera")];
    assert!(!compare_manifests(&update, &other));
    let mut other = inside.clone();
    other.name = String::from("b");
    assert!(!compare_manifests(&update, &other));
    let mut other = inside.clone();
    other.version = String::from("1.1");
    assert!(!compare_manifests(&update, &other));
    let mut other = inside.clone();
    other.role = String::new();
    assert!(!compare_manifests(&update, &other));
    // What is not mirrored is not compared.
    let mut other = inside.clone();
    other.start_url = String::from("/other.html");
    other.icons = Some(vec![Icons {
        src: String::from("/icon.png"),
        sizes: String::from("128x128"),
        kind: String::from("image/png"),
    }]);
    assert!(compare_manifests(&update, &other));
}
