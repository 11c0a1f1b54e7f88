use apps_service::apps_item::{AppsInstallState, AppsItem, AppsObject};
use apps_service::decider::compute_manifest_hash;
use apps_service::errors::{AppsServiceError, DownloadError};
use apps_service::events::AppsEvent;
use apps_service::manifest::{Icons, Manifest};
use apps_service::pwa::{plan_pwa, register_pwa, strip_leading_slash, IconDownload, PwaFetch};
use apps_service::registry::AppsRegistry;
use apps_service::staging::Placement;

const CONTENT: &[u8] = b"{\"name\": \"helloworld\"}";

fn icon(src: &str, sizes: &str) -> Icons {
    Icons { src: String::from(src), sizes: String::from(sizes), kind: String::from("image/png") }
}

fn manifest(name: &str) -> Manifest {
    Manifest {
        name: String::from(name),
        version: String::new(),
        start_url: String::from("/index.html"),
        icons: Some(vec![
            icon("/icons/icon-72.png", "72x72"),
            icon("icons/icon-128.png", "128x128"),
            icon("/icons/icon-256.png", "256x256"),
            icon("https://cdn.test/icons/icon-512.png", "512x512"),
        ]),
        role: String::new(),
        permissions: Vec::new(),
    }
}

fn download(url: &str, path: &str) -> IconDownload {
    IconDownload { url: String::from(url), path: String::from(path) }
}

#[test]
fn leading_slash_is_dropped_once() {
    assert_eq!(strip_leading_slash("/icons/a.png"), "icons/a.png");
    assert_eq!(strip_leading_slash("icons/a.png"), "icons/a.png");
    assert_eq!(strip_leading_slash("//cdn.test/a.png"), "/cdn.test/a.png");
    assert_eq!(strip_leading_slash("/"), "");
    assert_eq!(strip_leading_slash(""), "");
    assert_eq!(strip_leading_slash("/é"), "é");
}

#[test]
fn test_apply_pwa() {
    let mut registry = AppsRegistry::new(80);

    // Apply a manifest that is already staged.
    let update_url = "https://pwa1.test/manifest.webmanifest";
    let fetch = PwaFetch::new("/data", update_url);
    assert_eq!(fetch.download_dir, format!("/data/downloading/{}", fetch.url_hash));
    assert_eq!(
        fetch.download_manifest,
        format!("/data/downloading/{}/manifest.webmanifest", fetch.url_hash)
    );
    assert_eq!(fetch.fetched(true, Ok(())), Ok(()));

    let manifest = manifest("helloworld");
    assert_eq!(4, manifest.get_icons().unwrap().len());
    let registered =
        register_pwa(&fetch, &mut registry, Some(manifest.clone()), CONTENT).unwrap();
    assert_eq!(registered.apps_item.get_name(), "helloworld");
    assert_eq!(registered.apps_item.get_install_state(), AppsInstallState::Installing);
    assert_eq!(registry.count(), 1);

    let plan = registered.plan();
    let dir = fetch.download_dir.clone();
    assert_eq!(
        plan.downloads,
        vec![
            download(
                "https://pwa1.test/icons/icon-72.png",
                &format!("{}/icons/icon-72.png", dir)
            ),
            download(
                "https://pwa1.test/icons/icon-128.png",
                &format!("{}/icons/icon-128.png", dir)
            ),
            download(
                "https://pwa1.test/icons/icon-256.png",
                &format!("{}/icons/icon-256.png", dir)
            ),
            download(
                "https://cdn.test/icons/icon-512.png",
                &format!("{}/https://cdn.test/icons/icon-512.png", dir)
            ),
        ]
    );
    let rewritten = plan.manifest.unwrap();
    // start url should be absolute url of remote address
    assert_eq!(rewritten.get_start_url(), "https://pwa1.test/index.html");
    // icon url should be relative path of local cached address
    let icons = rewritten.get_icons().unwrap();
    assert_eq!(4, icons.len());
    assert_eq!(
        icons[0],
        icon("http://cached.localhost/helloworld/icons/icon-72.png", "72x72")
    );
    assert_eq!(
        icons[1],
        icon("http://cached.localhost/helloworld/icons/icon-128.png", "128x128")
    );
    assert_eq!(
        icons[2],
        icon("http://cached.localhost/helloworld/icons/icon-256.png", "256x256")
    );
    assert_eq!(icons[3], icon("https://cdn.test/icons/icon-512.png", "512x512"));
    assert_eq!(rewritten.get_name(), "helloworld");

    let apply = registered.planned(rewritten.clone()).written(true).unwrap();
    assert_eq!(
        apply.placement(),
        Placement { from: dir.clone(), to: String::from("/data/cached/helloworld") }
    );
    match apply.applied(&mut registry, Ok(())) {
        Ok(app) => {
            assert_eq!(app.name, "helloworld");
            assert_eq!(app.removable, true);
            assert_eq!(app.install_state, AppsInstallState::Installed);
        },
        Err(err) => {
            println!("err: {:?}", err);
            panic!();
        },
    }

    if let Some(app) = registry.get_by_update_url(update_url) {
        assert_eq!(app.get_name(), "helloworld");
        assert_eq!(app.get_install_state(), AppsInstallState::Installed);
        assert!(app.is_pwa());
        assert!(app.is_removable());
        assert_eq!(app.get_manifest_hash(), compute_manifest_hash(CONTENT));
        assert_eq!(
            app.get_manifest_url(),
            "http://cached.localhost/helloworld/manifest.webmanifest"
        );
        // The registered manifest is the rewritten one.
        assert_eq!(registry.get_manifest(update_url), Some(rewritten));
    } else {
        panic!();
    }

    let events = registry.event_broadcaster.take_pending();
    assert_eq!(events.len(), 2);
    assert!(matches!(events[0], AppsEvent::AppInstalling { is_update: false, .. }));
    assert!(matches!(events[1], AppsEvent::AppInstalled(_)));
}

#[test]
fn manifest_without_icons_keeps_none() {
    let mut plain = manifest("helloworld");
    plain.icons = None;
    let plan = plan_pwa(
        &plain,
        "https://pwa1.test/app/manifest.webmanifest",
        "http://cached.localhost/helloworld/manifest.webmanifest",
        "/data/downloading/1",
    );
    assert_eq!(plan.downloads, Vec::new());
    let rewritten = plan.manifest.unwrap();
    assert_eq!(rewritten.get_icons(), None);
    assert_eq!(rewritten.get_start_url(), "https://pwa1.test/index.html");

    // A relative start URL is resolved next to the manifest.
    plain.start_url = String::from("index.html");
    let plan = plan_pwa(
        &plain,
        "https://pwa1.test/app/manifest.webmanifest",
        "http://cached.localhost/helloworld/manifest.webmanifest",
        "/data/downloading/1",
    );
    assert_eq!(plan.manifest.unwrap().get_start_url(), "https://pwa1.test/app/index.html");
}

#[test]
fn urls_that_do_not_parse_end_the_plan() {
    let manifest = manifest("helloworld");
    let plan = plan_pwa(
        &manifest,
        "not a url",
        "http://cached.localhost/helloworld/manifest.webmanifest",
        "/data/downloading/1",
    );
    assert_eq!(plan.downloads, Vec::new());
    assert_eq!(plan.manifest.err(), Some(AppsServiceError::InvalidManifest));

    let plan = plan_pwa(
        &manifest,
        "https://pwa1.test/manifest.webmanifest",
        "cached/helloworld",
        "/data/downloading/1",
    );
    assert_eq!(plan.downloads, Vec::new());
    assert_eq!(plan.manifest.err(), Some(AppsServiceError::InvalidManifest));
}

#[test]
fn icon_that_does_not_resolve_ends_the_plan_after_the_icons_before_it() {
    let mut broken = manifest("helloworld");
    broken.icons = Some(vec![
        icon("/icons/icon-72.png", "72x72"),
        icon("http://[", "128x128"),
        icon("/icons/icon-256.png", "256x256"),
    ]);
    let plan = plan_pwa(
        &broken,
        "https://pwa1.test/manifest.webmanifest",
        "http://cached.localhost/helloworld/manifest.webmanifest",
        "/data/downloading/1",
    );
    assert_eq!(
        plan.downloads,
        vec![download(
            "https://pwa1.test/icons/icon-72.png",
            "/data/downloading/1/icons/icon-72.png"
        )]
    );
    assert_eq!(plan.manifest.err(), Some(AppsServiceError::InvalidManifest));
}

#[test]
fn start_url_that_does_not_resolve_is_invalid() {
    let mut broken = manifest("helloworld");
    broken.start_url = String::from("http://[");
    let plan = plan_pwa(
        &broken,
        "https://pwa1.test/manifest.webmanifest",
        "http://cached.localhost/helloworld/manifest.webmanifest",
        "/data/downloading/1",
    );
    // The icons are fetched all the same.
    assert_eq!(plan.downloads.len(), 4);
    assert_eq!(plan.manifest.err(), Some(AppsServiceError::InvalidStartUrl));
}

#[test]
fn pwa_manifest_must_be_fetched_and_parse() {
    let fetch = PwaFetch::new("/data", "https://pwa1.test/manifest.webmanifest");
    assert_eq!(fetch.fetched(false, Ok(())), Err(AppsServiceError::DownloadManifestFailed));
    assert_eq!(
        fetch.fetched(true, Err(DownloadError::Http(String::from("404")))),
        Err(AppsServiceError::DownloadManifestFailed)
    );
    assert_eq!(
        fetch.fetched(true, Err(DownloadError::Canceled)),
        Err(AppsServiceError::DownloadManifestFailed)
    );

    let mut registry = AppsRegistry::new(80);
    assert_eq!(
        register_pwa(&fetch, &mut registry, None, CONTENT).err(),
        Some(AppsServiceError::InvalidManifest)
    );
    assert_eq!(
        register_pwa(&fetch, &mut registry, Some(manifest("")), CONTENT).err(),
        Some(AppsServiceError::InvalidAppName)
    );
    assert_eq!(registry.count(), 0);
}

#[test]
fn failed_pwa_run_leaves_its_registration_behind() {
    let mut registry = AppsRegistry::new(8081);
    let fetch = PwaFetch::new("/data", "https://pwa1.test/manifest.webmanifest");
    let registered =
        register_pwa(&fetch, &mut registry, Some(manifest("helloworld")), CONTENT).unwrap();
    let mut expected = AppsItem::default_pwa("helloworld", 8081);
    expected.set_install_state(AppsInstallState::Installing);
    expected.set_update_url("https://pwa1.test/manifest.webmanifest");
    assert_eq!(registered.apps_item, expected);
    let object = AppsObject::from(&expected);

    let plan = registered.plan();
    let write = registered.planned(plan.manifest.unwrap());
    assert_eq!(write.written(false).err(), Some(AppsServiceError::InvalidManifest));
    assert_eq!(
        registry.get_by_update_url("https://pwa1.test/manifest.webmanifest"),
        Some(expected)
    );
    assert_eq!(
        registry.event_broadcaster.take_pending(),
        vec![AppsEvent::AppInstalling { is_update: false, apps_object: object }]
    );
}

#[test]
fn pwa_that_cannot_be_moved_is_not_applied() {
    let mut registry = AppsRegistry::new(80);
    let fetch = PwaFetch::new("/data", "https://pwa1.test/manifest.webmanifest");
    let registered =
        register_pwa(&fetch, &mut registry, Some(manifest("helloworld")), CONTENT).unwrap();
    let plan = registered.plan();
    let apply = registered.planned(plan.manifest.unwrap()).written(true).unwrap();
    assert_eq!(
        apply.applied(&mut registry, Err(AppsServiceError::FilesystemFailure)),
        Err(AppsServiceError::FilesystemFailure)
    );
    let app = registry.get_by_update_url("https://pwa1.test/manifest.webmanifest").unwrap();
    assert_eq!(app.get_install_state(), AppsInstallState::Installing);
}
