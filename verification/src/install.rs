//! The pipeline that installs or updates a signed package.
//!
//! A run goes through these states, each a type of its own: the intent is
//! registered, the package is checked against the free space and fetched,
//! its signature and its content are checked, and it is applied. Every step
//! takes what the embedding program found out and either moves on or ends
//! the run. A run that ends after its registration undoes it: the registry
//! goes back to the snapshot and the scratch directory is to be removed.

use crate::apps_item::{
    default_item, object_of, AppsInstallState, AppsItem, AppsItemView, AppsObject,
    AppsUpdateState,
};
use crate::decider::{compute_manifest_hash, manifest_hash_of};
use crate::download::{mgmt_result_view, Download, ManifestFetch};
use crate::errors::{AppsMgmtError, AppsMgmtErrorView, AppsServiceError, DownloadErrorView};
use crate::events::AppsEventView;
use crate::guards::{AppsStatusRestorer, DirRemover};
use crate::manifest::{
    compare_manifests, manifests_agree, Manifest, ManifestView, UpdateManifest,
    UpdateManifestView,
};
use crate::registry::{
    applied, applied_event, lemma_saved_unique, lookup, restored, save_outcome, saved, unique,
    unique_name, AppEntryView, AppsRegistry,
};
use crate::shared_state::Config;
use crate::staging::{installed_dir, installed_dir_of, package_path, package_path_of, Placement};
use vstd::prelude::*;
use vstd::string::*;

verus! {

/// What a run intends to register: the record to save, and what the
/// registry held before.
pub struct Intent {
    /// The record to save.
    pub item: AppsItemView,
    /// The record to go back to if the run fails.
    pub snapshot: AppsItemView,
    /// The manifest to go back to if the run fails.
    pub prior_manifest: ManifestView,
}

/// `item` with the version `version`, where the manifest states one.
pub open spec fn with_version(item: AppsItemView, version: Seq<char>) -> AppsItemView {
    if version.len() > 0 {
        AppsItemView { version, ..item }
    } else {
        item
    }
}

/// What a run for `url` intends to register, given the manifest it fetched.
///
/// An update starts from the registered record, which must exist, and
/// marks it as updating. An installation starts from a fresh record under
/// the name that the registry assigns, and marks it as installing.
pub open spec fn intent(
    apps: Seq<AppEntryView>,
    vhost_port: u16,
    url: Seq<char>,
    is_update: bool,
    manifest: ManifestView,
) -> Result<Intent, AppsServiceError> {
    if is_update {
        match lookup(apps, url) {
            None => Err(AppsServiceError::AppNotFound),
            Some(entry) => Ok(
                Intent {
                    item: with_version(
                        AppsItemView { update_state: AppsUpdateState::Updating, ..entry.item },
                        manifest.version,
                    ),
                    snapshot: entry.item,
                    prior_manifest: entry.manifest,
                },
            ),
        }
    } else {
        match unique_name(apps, manifest.name, url) {
            Err(error) => Err(error),
            Ok(name) => {
                let fresh = AppsItemView { update_url: url, ..default_item(name, vhost_port) };
                Ok(
                    Intent {
                        item: with_version(
                            AppsItemView { install_state: AppsInstallState::Installing, ..fresh },
                            manifest.version,
                        ),
                        snapshot: fresh,
                        prior_manifest: manifest,
                    },
                )
            },
        }
    }
}

/// How the registration of a run ends: with the intent that was saved, or
/// with the error that stopped it. A manifest that did not parse is
/// invalid; after that the intent and then the registry decide.
pub open spec fn registration(
    apps: Seq<AppEntryView>,
    vhost_port: u16,
    url: Seq<char>,
    is_update: bool,
    manifest: Option<ManifestView>,
) -> Result<Intent, AppsServiceError> {
    match manifest {
        None => Err(AppsServiceError::InvalidManifest),
        Some(m) => match intent(apps, vhost_port, url, is_update, m) {
            Err(error) => Err(error),
            Ok(intended) => match save_outcome(apps, is_update, intended.item) {
                Err(error) => Err(error),
                Ok(()) => Ok(intended),
            },
        },
    }
}

/// The registry after the registration of a run.
///
/// On success the intended record is saved with the fetched manifest. Where
/// the registry refuses to save it, the guard that was already armed rolls
/// back to the snapshot. In every other case nothing changes.
pub open spec fn registered_apps(
    apps: Seq<AppEntryView>,
    vhost_port: u16,
    url: Seq<char>,
    is_update: bool,
    manifest: Option<ManifestView>,
) -> Seq<AppEntryView> {
    match manifest {
        None => apps,
        Some(m) => match intent(apps, vhost_port, url, is_update, m) {
            Err(_) => apps,
            Ok(intended) => match save_outcome(apps, is_update, intended.item) {
                Err(_) => restored(apps, is_update, intended.snapshot, intended.prior_manifest),
                Ok(()) => saved(apps, AppEntryView { item: intended.item, manifest: m }),
            },
        },
    }
}

/// What the caller learns when the fetch of the update manifest failed: a
/// canceled download is a cancellation, anything else a failed download.
pub open spec fn manifest_fetch_error(error: AppsMgmtErrorView) -> AppsServiceError {
    if error == AppsMgmtErrorView::ManifestDownloadFailed(DownloadErrorView::Canceled) {
        AppsServiceError::Canceled
    } else {
        AppsServiceError::DownloadManifestFailed
    }
}

/// What the caller learns when the fetch of the package failed.
pub open spec fn package_fetch_error(error: AppsMgmtErrorView) -> AppsServiceError {
    if error == AppsMgmtErrorView::PackageDownloadFailed(DownloadErrorView::Canceled) {
        AppsServiceError::Canceled
    } else {
        AppsServiceError::DownloadPackageFailed
    }
}

/// Whether the package that `update_manifest` announces can be fetched
/// with `available_space` bytes free: the manifest must have parsed and
/// name a package, and twice the size of the package must fit.
pub open spec fn package_check(
    update_manifest: Option<UpdateManifestView>,
    available_space: u64,
) -> Result<(), AppsServiceError> {
    match update_manifest {
        None => Err(AppsServiceError::InvalidManifest),
        Some(m) => if m.package_path.len() == 0 {
            Err(AppsServiceError::InvalidManifest)
        } else if available_space < 2 * m.packaged_size {
            Err(AppsServiceError::DiskSpaceNotEnough)
        } else {
            Ok(())
        },
    }
}

/// Whether the manifest found in the package is acceptable: the package
/// must have held one, and it must agree with the update manifest.
pub open spec fn package_validation(
    update_manifest: UpdateManifestView,
    manifest: Option<ManifestView>,
) -> Result<(), AppsServiceError> {
    match manifest {
        None => Err(AppsServiceError::InvalidPackage),
        Some(m) => if manifests_agree(update_manifest, m) {
            Ok(())
        } else {
            Err(AppsServiceError::InvalidManifest)
        },
    }
}

/// How a run ended that did not reach its commit after it was registered.
#[derive(Debug)]
pub struct Failure {
    /// What the caller is told.
    pub error: AppsServiceError,
    /// The scratch directory, which is to be removed now.
    pub remove_dir: String,
}

/// What a registered run carries from step to step: the record it works on
/// and the two armed guards that undo the run.
#[derive(Debug)]
pub struct RunState {
    webapp_path: String,
    update_url: String,
    is_update: bool,
    staging_dir: String,
    apps_item: AppsItem,
    manifest_hash: String,
    restorer: AppsStatusRestorer,
    dir_remover: DirRemover,
}

impl RunState {
    #[verifier::type_invariant]
    spec fn guards_are_armed(&self) -> bool {
        &&& self.restorer.armed()
        &&& self.restorer.is_update() == self.is_update
        &&& self.dir_remover.armed()
        &&& self.dir_remover.path() == self.staging_dir@
        &&& self.apps_item@.update_url == self.update_url@
    }

    /// The data directory of the run.
    pub closed spec fn webapp_path(&self) -> Seq<char> {
        self.webapp_path@
    }

    /// The update URL of the run.
    pub closed spec fn update_url(&self) -> Seq<char> {
        self.update_url@
    }

    /// Whether the run is an update.
    pub closed spec fn is_update(&self) -> bool {
        self.is_update
    }

    /// The scratch directory of the run.
    pub closed spec fn staging_dir(&self) -> Seq<char> {
        self.staging_dir@
    }

    /// The record the run works on.
    pub closed spec fn item(&self) -> AppsItemView {
        self.apps_item@
    }

    /// The hash of the update manifest that the run fetched.
    pub closed spec fn manifest_hash(&self) -> Seq<char> {
        self.manifest_hash@
    }

    /// The record to go back to if the run fails.
    pub closed spec fn snapshot(&self) -> AppsItemView {
        self.restorer.snapshot()
    }

    /// The manifest to go back to if the run fails.
    pub closed spec fn prior_manifest(&self) -> ManifestView {
        self.restorer.manifest()
    }

    /// The registry as a failure of this run leaves it.
    pub open spec fn rolled_back(&self, apps: Seq<AppEntryView>) -> Seq<AppEntryView> {
        restored(apps, self.is_update(), self.snapshot(), self.prior_manifest())
    }

    /// `next` is this run, one step further.
    pub open spec fn same_run(&self, next: &RunState) -> bool {
        &&& next.webapp_path() == self.webapp_path()
        &&& next.update_url() == self.update_url()
        &&& next.is_update() == self.is_update()
        &&& next.staging_dir() == self.staging_dir()
        &&& next.item() == self.item()
        &&& next.manifest_hash() == self.manifest_hash()
        &&& next.snapshot() == self.snapshot()
        &&& next.prior_manifest() == self.prior_manifest()
    }

    /// The scratch directory of the run.
    pub fn get_staging_dir(&self) -> (dir: String)
        ensures
            dir@ == self.staging_dir(),
    {
        self.staging_dir.clone()
    }

    /// The data directory of the run.
    pub fn get_webapp_path(&self) -> (path: String)
        ensures
            path@ == self.webapp_path(),
    {
        self.webapp_path.clone()
    }

    /// The record the run works on.
    pub fn get_apps_item(&self) -> (item: AppsItem)
        ensures
            item@ == self.item(),
    {
        self.apps_item.clone()
    }

    /// Whether the run is an update.
    pub fn get_is_update(&self) -> (is_update: bool)
        ensures
            is_update == self.is_update(),
    {
        self.is_update
    }

    /// The update URL of the run.
    pub fn get_update_url(&self) -> (url: String)
        ensures
            url@ == self.update_url(),
    {
        self.update_url.clone()
    }

    /// Ends the run with `error`: both guards fire. The registry goes back
    /// to the snapshot, and the scratch directory is handed out for
    /// removal.
    fn fail(self, registry: &mut AppsRegistry, error: AppsServiceError) -> (failure: Failure)
        ensures
            failure.error == error,
            failure.remove_dir@ == self.staging_dir(),
            final(registry)@.apps == self.rolled_back(old(registry)@.apps),
            final(registry)@.events == old(registry)@.events,
            final(registry)@.vhost_port == old(registry)@.vhost_port,
    {
        proof {
            use_type_invariant(&self);
        }
        let RunState { staging_dir, restorer, dir_remover, .. } = self;
        restorer.finish(registry);
        match dir_remover.finish() {
            Some(remove_dir) => Failure { error, remove_dir },
            None => Failure { error, remove_dir: staging_dir },
        }
    }
}

/// What the caller of an installation or update is told when the fetch of
/// the update manifest failed.
pub fn manifest_fetch_failed(error: &AppsMgmtError) -> (reported: AppsServiceError)
    ensures
        reported == manifest_fetch_error(error@),
{
    match error {
        AppsMgmtError::ManifestDownloadFailed(e) => {
            if e.is_canceled() {
                AppsServiceError::Canceled
            } else {
                AppsServiceError::DownloadManifestFailed
            }
        },
        _ => AppsServiceError::DownloadManifestFailed,
    }
}

/// A run whose intent is registered and announced.
#[derive(Debug)]
pub struct Registered {
    pub run: RunState,
}

/// Mathematical value of an optional manifest.
pub open spec fn manifest_option_view(manifest: Option<Manifest>) -> Option<ManifestView> {
    match manifest {
        Some(m) => Some(m@),
        None => None,
    }
}

/// Mathematical value of an optional update manifest.
pub open spec fn update_manifest_option_view(manifest: Option<UpdateManifest>) -> Option<
    UpdateManifestView,
> {
    match manifest {
        Some(m) => Some(m@),
        None => None,
    }
}

/// Registers the intent of a run, once the update manifest is staged.
///
/// `manifest` is the staged document read as a manifest, or nothing where it
/// did not parse; `content` holds its bytes. On success the record is saved
/// as installing or updating, the event of it is broadcast, and both guards
/// of the run are armed.
pub fn register_intent(
    fetch: &ManifestFetch,
    is_update: bool,
    registry: &mut AppsRegistry,
    manifest: Option<Manifest>,
    content: &[u8],
) -> (outcome: Result<Registered, AppsServiceError>)
    ensures
        unique(final(registry)@.apps),
        final(registry)@.vhost_port == old(registry)@.vhost_port,
        final(registry)@.apps == registered_apps(
            old(registry)@.apps,
            old(registry)@.vhost_port,
            fetch.update_url@,
            is_update,
            manifest_option_view(manifest),
        ),
        match outcome {
            Ok(registered) => {
                let run = registered.run;
                &&& registration(
                    old(registry)@.apps,
                    old(registry)@.vhost_port,
                    fetch.update_url@,
                    is_update,
                    manifest_option_view(manifest),
                ) == Ok::<Intent, AppsServiceError>(
                    Intent {
                        item: run.item(),
                        snapshot: run.snapshot(),
                        prior_manifest: run.prior_manifest(),
                    },
                )
                &&& run.webapp_path() == fetch.webapp_path@
                &&& run.update_url() == fetch.update_url@
                &&& run.is_update() == is_update
                &&& run.staging_dir() == fetch.available_dir@
                &&& run.manifest_hash() == manifest_hash_of(content@)
                &&& final(registry)@.events == old(registry)@.events.push(
                    AppsEventView::AppInstalling { is_update, apps_object: object_of(run.item()) },
                )
            },
            Err(error) => {
                &&& registration(
                    old(registry)@.apps,
                    old(registry)@.vhost_port,
                    fetch.update_url@,
                    is_update,
                    manifest_option_view(manifest),
                ) == Err::<Intent, AppsServiceError>(error)
                &&& final(registry)@.events == old(registry)@.events
            },
        },
{
    let _ = registry.count();
    let manifest = match manifest {
        Some(manifest) => manifest,
        None => {
            return Err(AppsServiceError::InvalidManifest);
        },
    };
    let url = fetch.update_url.as_str();
    let mut apps_item: AppsItem;
    let snapshot: AppsItem;
    let prior_manifest: Manifest;
    if is_update {
        match registry.get_by_update_url(url) {
            Some(app) => {
                snapshot = app.clone();
                apps_item = app;
                apps_item.set_update_state(AppsUpdateState::Updating);
            },
            None => {
                return Err(AppsServiceError::AppNotFound);
            },
        }
        prior_manifest = match registry.get_manifest(url) {
            Some(prior) => prior,
            None => {
                assert(false);
                manifest.clone()
            },
        };
    } else {
        let proposed = manifest.get_name();
        match registry.get_unique_name(proposed.as_str(), url) {
            Ok(name) => {
                let mut app = AppsItem::default(name.as_str(), registry.get_vhost_port());
                app.set_update_url(url);
                snapshot = app.clone();
                app.set_install_state(AppsInstallState::Installing);
                apps_item = app;
            },
            Err(error) => {
                return Err(error);
            },
        }
        prior_manifest = manifest.clone();
    }
    let version = manifest.get_version();
    if !version.as_str().is_empty() {
        apps_item.set_version(version.as_str());
    }
    let restorer = AppsStatusRestorer::new(is_update, snapshot, prior_manifest);
    match registry.save_app(is_update, &apps_item, &manifest) {
        Ok(()) => {},
        Err(error) => {
            restorer.finish(registry);
            let _ = registry.count();
            return Err(error);
        },
    }
    registry.broadcast_installing(is_update, AppsObject::from(&apps_item));
    let dir_remover = DirRemover::new(fetch.available_dir.as_str());
    let manifest_hash = compute_manifest_hash(content);
    Ok(
        Registered {
            run: RunState {
                webapp_path: fetch.webapp_path.clone(),
                update_url: fetch.update_url.clone(),
                is_update,
                staging_dir: fetch.available_dir.clone(),
                apps_item,
                manifest_hash,
                restorer,
                dir_remover,
            },
        },
    )
}

/// A run that is about to fetch its package.
#[derive(Debug)]
pub struct PackageFetch {
    pub run: RunState,
    pub update_manifest: UpdateManifest,
}

/// A run whose package is staged and awaits the check of its signature.
#[derive(Debug)]
pub struct PackageVerify {
    pub run: RunState,
    pub update_manifest: UpdateManifest,
}

/// A run whose package is signed and awaits the check of its content.
#[derive(Debug)]
pub struct PackageValidate {
    pub run: RunState,
    pub update_manifest: UpdateManifest,
}

/// A run whose package is accepted and awaits its move into place.
#[derive(Debug)]
pub struct PackageApply {
    pub run: RunState,
    /// The manifest found in the package.
    pub manifest: Manifest,
}

/// What every failing step leaves behind: the caller is told `error`, the
/// scratch directory of the run is to be removed, and the registry is
/// rolled back.
pub open spec fn run_failed(
    run: RunState,
    before: &AppsRegistry,
    after: &AppsRegistry,
    failure: Failure,
    error: AppsServiceError,
) -> bool {
    &&& failure.error == error
    &&& failure.remove_dir@ == run.staging_dir()
    &&& after@.apps == run.rolled_back(before@.apps)
    &&& after@.events == before@.events
    &&& after@.vhost_port == before@.vhost_port
}

impl Registered {
    /// Checks that the package can be fetched.
    ///
    /// `update_manifest` is the staged document read as an update manifest,
    /// or nothing where it did not parse; `available_space` is the number of
    /// bytes free under the data directory.
    pub fn check_package(
        self,
        registry: &mut AppsRegistry,
        update_manifest: Option<UpdateManifest>,
        available_space: u64,
    ) -> (outcome: Result<PackageFetch, Failure>)
        ensures
            match outcome {
                Ok(next) => {
                    &&& package_check(
                        update_manifest_option_view(update_manifest),
                        available_space,
                    ) is Ok
                    &&& self.run.same_run(&next.run)
                    &&& update_manifest == Some(next.update_manifest)
                    &&& *final(registry) == *old(registry)
                },
                Err(failure) => {
                    &&& package_check(
                        update_manifest_option_view(update_manifest),
                        available_space,
                    ) == Err::<(), AppsServiceError>(failure.error)
                    &&& run_failed(self.run, old(registry), final(registry), failure, failure.error)
                },
            },
    {
        let update_manifest = match update_manifest {
            Some(update_manifest) => update_manifest,
            None => {
                return Err(self.run.fail(registry, AppsServiceError::InvalidManifest));
            },
        };
        if update_manifest.package_path.as_str().is_empty() {
            return Err(self.run.fail(registry, AppsServiceError::InvalidManifest));
        }
        if available_space / 2 < update_manifest.packaged_size {
            return Err(self.run.fail(registry, AppsServiceError::DiskSpaceNotEnough));
        }
        Ok(PackageFetch { run: self.run, update_manifest })
    }
}

impl PackageFetch {
    /// The download to make: the package that the update manifest names,
    /// into the scratch directory, with the cancel handle stored under the
    /// update URL of the run.
    pub fn download(&self) -> (download: Download)
        ensures
            download.app_update_url@ == self.run.update_url(),
            download.url@ == self.update_manifest@.package_path,
            download.dest@ == package_path_of(self.run.staging_dir()),
    {
        let staging_dir = self.run.get_staging_dir();
        Download {
            app_update_url: self.run.get_update_url(),
            url: self.update_manifest.package_path.clone(),
            dest: package_path(staging_dir.as_str()),
        }
    }

    /// Takes the end of the fetch of the package.
    pub fn fetched(self, registry: &mut AppsRegistry, result: Result<(), AppsMgmtError>) -> (outcome:
        Result<PackageVerify, Failure>)
        ensures
            match outcome {
                Ok(next) => {
                    &&& result is Ok
                    &&& self.run.same_run(&next.run)
                    &&& next.update_manifest == self.update_manifest
                    &&& *final(registry) == *old(registry)
                },
                Err(failure) => {
                    &&& mgmt_result_view(result) matches Err(error)
                    &&& run_failed(
                        self.run,
                        old(registry),
                        final(registry),
                        failure,
                        package_fetch_error(error),
                    )
                },
            },
    {
        match result {
            Ok(()) => Ok(PackageVerify { run: self.run, update_manifest: self.update_manifest }),
            Err(error) => {
                let reported = match error {
                    AppsMgmtError::PackageDownloadFailed(e) => {
                        if e.is_canceled() {
                            AppsServiceError::Canceled
                        } else {
                            AppsServiceError::DownloadPackageFailed
                        }
                    },
                    _ => AppsServiceError::DownloadPackageFailed,
                };
                Err(self.run.fail(registry, reported))
            },
        }
    }
}

/// A signature check that the embedding program is asked to make.
#[derive(Debug, PartialEq, Eq)]
pub struct ZipVerification {
    /// The package to check.
    pub zip_path: String,
    /// Which certificates the signature is checked against.
    pub cert_type: String,
    /// The directory inside the package that holds the signature.
    pub folder: String,
}

impl PackageVerify {
    /// The staged package, whose signature is to be checked.
    pub fn package(&self) -> (path: String)
        ensures
            path@ == package_path_of(self.run.staging_dir()),
    {
        let staging_dir = self.run.get_staging_dir();
        package_path(staging_dir.as_str())
    }

    /// The check to make: the staged package, against the certificates that
    /// the configuration names, with the signature in the directory `inf`.
    pub fn verification(&self, config: &Config) -> (check: ZipVerification)
        ensures
            check.zip_path@ == package_path_of(self.run.staging_dir()),
            check.cert_type@ == config.cert_type@,
            check.folder@ == "inf"@,
    {
        ZipVerification {
            zip_path: self.package(),
            cert_type: config.cert_type.clone(),
            folder: String::from_str("inf"),
        }
    }

    /// Takes the answer of the signature check.
    pub fn signature_checked(self, registry: &mut AppsRegistry, valid: bool) -> (outcome: Result<
        PackageValidate,
        Failure,
    >)
        ensures
            match outcome {
                Ok(next) => {
                    &&& valid
                    &&& self.run.same_run(&next.run)
                    &&& next.update_manifest == self.update_manifest
                    &&& *final(registry) == *old(registry)
                },
                Err(failure) => {
                    &&& !valid
                    &&& run_failed(
                        self.run,
                        old(registry),
                        final(registry),
                        failure,
                        AppsServiceError::InvalidSignature,
                    )
                },
            },
    {
        if valid {
            Ok(PackageValidate { run: self.run, update_manifest: self.update_manifest })
        } else {
            Err(self.run.fail(registry, AppsServiceError::InvalidSignature))
        }
    }
}

impl PackageValidate {
    /// The staged package, whose content is to be checked.
    pub fn package(&self) -> (path: String)
        ensures
            path@ == package_path_of(self.run.staging_dir()),
    {
        let staging_dir = self.run.get_staging_dir();
        package_path(staging_dir.as_str())
    }

    /// Takes the manifest found in the package, or nothing where the package
    /// did not hold a valid one, and cross-checks it against the update
    /// manifest.
    pub fn validated(self, registry: &mut AppsRegistry, manifest: Option<Manifest>) -> (outcome:
        Result<PackageApply, Failure>)
        ensures
            match outcome {
                Ok(next) => {
                    &&& package_validation(self.update_manifest@, manifest_option_view(manifest))
                        is Ok
                    &&& self.run.same_run(&next.run)
                    &&& manifest == Some(next.manifest)
                    &&& *final(registry) == *old(registry)
                },
                Err(failure) => {
                    &&& package_validation(self.update_manifest@, manifest_option_view(manifest))
                        == Err::<(), AppsServiceError>(failure.error)
                    &&& run_failed(self.run, old(registry), final(registry), failure, failure.error)
                },
            },
    {
        let manifest = match manifest {
            Some(manifest) => manifest,
            None => {
                return Err(self.run.fail(registry, AppsServiceError::InvalidPackage));
            },
        };
        if !compare_manifests(&self.update_manifest, &manifest) {
            return Err(self.run.fail(registry, AppsServiceError::InvalidManifest));
        }
        Ok(PackageApply { run: self.run, manifest })
    }
}

/// How the last step of a run ends, given whether the staged files could be
/// moved into place and whether the registry can save the applied record.
pub open spec fn apply_outcome(
    apps: Seq<AppEntryView>,
    is_update: bool,
    item: AppsItemView,
    manifest_hash: Seq<char>,
    moved: Result<(), AppsServiceError>,
) -> Result<(), AppsServiceError> {
    match moved {
        Err(error) => Err(error),
        Ok(()) => save_outcome(apps, is_update, applied(item, manifest_hash)),
    }
}

impl PackageApply {
    /// The move to make before the package is applied: the scratch
    /// directory of the run becomes the directory of the application.
    pub fn placement(&self) -> (placement: Placement)
        ensures
            placement.from@ == self.run.staging_dir(),
            placement.to@ == installed_dir_of(self.run.webapp_path(), self.run.item().name),
    {
        let item = self.run.get_apps_item();
        let name = item.get_name();
        let webapp_path = self.run.get_webapp_path();
        Placement {
            from: self.run.get_staging_dir(),
            to: installed_dir(webapp_path.as_str(), name.as_str()),
        }
    }

    /// Applies the package: the last step of a run.
    ///
    /// `moved` tells whether the staged files could be moved into place. If
    /// so, the registry records the application as installed and idle, with
    /// the manifest of the package and the hash of the update manifest, and
    /// broadcasts the event. The run is then committed: both guards are
    /// disarmed, and nothing is removed or rolled back.
    pub fn applied(self, registry: &mut AppsRegistry, moved: Result<(), AppsServiceError>) -> (outcome:
        Result<AppsObject, Failure>)
        ensures
            unique(final(registry)@.apps),
            match outcome {
                Ok(apps_object) => {
                    let item = applied(self.run.item(), self.run.manifest_hash());
                    let entry = AppEntryView { item, manifest: self.manifest@ };
                    &&& apply_outcome(
                        old(registry)@.apps,
                        self.run.is_update(),
                        self.run.item(),
                        self.run.manifest_hash(),
                        moved,
                    ) is Ok
                    &&& apps_object@ == object_of(item)
                    &&& final(registry)@.apps == saved(old(registry)@.apps, entry)
                    &&& lookup(final(registry)@.apps, self.run.update_url()) == Some(entry)
                    &&& final(registry)@.events == old(registry)@.events.push(
                        applied_event(self.run.is_update(), item),
                    )
                    &&& final(registry)@.vhost_port == old(registry)@.vhost_port
                },
                Err(failure) => {
                    &&& apply_outcome(
                        old(registry)@.apps,
                        self.run.is_update(),
                        self.run.item(),
                        self.run.manifest_hash(),
                        moved,
                    ) == Err::<(), AppsServiceError>(failure.error)
                    &&& run_failed(self.run, old(registry), final(registry), failure, failure.error)
                },
            },
    {
        proof {
            use_type_invariant(&self.run);
        }
        let _ = registry.count();
        match moved {
            Ok(()) => {},
            Err(error) => {
                let failure = self.run.fail(registry, error);
                let _ = registry.count();
                return Err(failure);
            },
        }
        let PackageApply { run, manifest } = self;
        let RunState {
            webapp_path,
            update_url,
            is_update,
            staging_dir,
            mut apps_item,
            manifest_hash,
            mut restorer,
            mut dir_remover,
        } = run;
        match registry.apply_download(&mut apps_item, &manifest, manifest_hash.as_str(), is_update) {
            Ok(()) => {
                proof {
                    lemma_saved_unique(
                        old(registry)@.apps,
                        AppEntryView { item: apps_item@, manifest: manifest@ },
                    );
                }
                dir_remover.keep();
                restorer.dont_restore();
                let _ = dir_remover.finish();
                restorer.finish(registry);
                Ok(AppsObject::from(&apps_item))
            },
            Err(error) => {
                let run = RunState {
                    webapp_path,
                    update_url,
                    is_update,
                    staging_dir,
                    apps_item,
                    manifest_hash,
                    restorer,
                    dir_remover,
                };
                let failure = run.fail(registry, error);
                let _ = registry.count();
                Err(failure)
            },
        }
    }
}

} // verus!
