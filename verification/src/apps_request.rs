//! Whole requests, run against recorded answers.
//!
//! A request asks its surroundings for downloads, for documents and for
//! checks, one after the other. Here the answers are handed over in one
//! piece and the request is run from its first step to its last: this is
//! what a request amounts to, whoever gives the answers and however long
//! they take.

use crate::apps_item::{object_of, AppsItemView, AppsObject, AppsObjectView};
use crate::decider::manifest_hash_of;
use crate::download::{
    manifest_fetch_outcome, manifest_fetched, mgmt_result_view, package_fetch_outcome,
    package_fetched, Download, ManifestFetch,
};
use crate::errors::{
    completion_result, AppsMgmtError, AppsMgmtErrorView, AppsServiceError, Completion,
    DownloadError,
};
use crate::events::AppsEventView;
use crate::install::{
    apply_outcome, manifest_fetch_error, manifest_fetch_failed, manifest_option_view,
    package_check, package_fetch_error, package_validation, register_intent, registered_apps,
    registration, update_manifest_option_view,
};
use crate::manifest::{Manifest, UpdateManifest};
use crate::pwa::{
    pwa_registered_apps, pwa_registration, register_pwa, rewritten_manifest, PwaFetch,
};
use crate::registry::{
    applied, applied_event, lookup, restored, save_outcome, saved, unique, AppEntryView,
};
use crate::request::{
    broadcast_download_failed, check_for_update, check_outcome, check_result_view, failed_object,
};
use crate::shared_state::AppsSharedData;
use crate::staging::{package_path, package_path_of, staging_dir_of, update_manifest_path_of};
use vstd::prelude::*;
use vstd::string::*;

verus! {

/// What the surroundings answer during one cancelable download.
#[derive(Debug)]
pub struct DownloadAnswer<H> {
    /// The handle that cancels the download.
    pub canceller: H,
    /// How the wait for the download ended.
    pub completion: Completion,
}

/// What the surroundings answer during the fetch of an update manifest.
#[derive(Debug)]
pub struct FetchAnswer<H> {
    /// Whether the scratch directory could be made. If not, nothing is
    /// downloaded.
    pub staged: bool,
    pub download: DownloadAnswer<H>,
}

/// A staged update manifest: its bytes, and how they read.
#[derive(Debug)]
pub struct StagedDocument {
    pub content: Vec<u8>,
    /// The document read as a manifest, unless it does not parse.
    pub manifest: Option<Manifest>,
    /// The document read as an update manifest, unless it does not parse.
    pub update_manifest: Option<UpdateManifest>,
}

/// How the fetch of an update manifest ends, given the answers.
pub open spec fn fetch_outcome<H>(answer: FetchAnswer<H>) -> Result<(), AppsMgmtErrorView> {
    if !answer.staged {
        Err(AppsMgmtErrorView::Filesystem)
    } else {
        manifest_fetch_outcome(completion_result(answer.download.completion))
    }
}

/// The cancellation registry after the fetch of the update manifest of
/// `url`: once a download was made, no slot is left for `url`.
pub open spec fn after_fetch<H>(
    downloadings: Map<Seq<char>, H>,
    url: Seq<char>,
    answer: FetchAnswer<H>,
) -> Map<Seq<char>, H> {
    if answer.staged {
        downloadings.remove(url)
    } else {
        downloadings
    }
}

/// What the surroundings answer during an installation or update.
#[derive(Debug)]
pub struct InstallAnswers<H> {
    pub fetch: FetchAnswer<H>,
    pub staged: StagedDocument,
    /// Bytes free under the data directory.
    pub available_space: u64,
    pub package: DownloadAnswer<H>,
    /// Whether the signature of the package is valid.
    pub signature_valid: bool,
    /// The manifest found in the package, unless the package is invalid.
    pub package_manifest: Option<Manifest>,
    /// Whether the staged files could be moved into place.
    pub moved: Result<(), AppsServiceError>,
}

/// How a run ended.
#[derive(Debug)]
pub struct InstallReport {
    /// What the caller is told.
    pub result: Result<AppsObject, AppsServiceError>,
    /// The scratch directory, where the run asks for its removal.
    pub removed_dir: Option<String>,
}

/// Mathematical value of the end of a run, with the registry it leaves.
pub struct RunView {
    pub result: Result<AppsObjectView, AppsServiceError>,
    pub removed_dir: Option<Seq<char>>,
    pub apps: Seq<AppEntryView>,
    pub events: Seq<AppsEventView>,
}

impl View for InstallReport {
    type V = (Result<AppsObjectView, AppsServiceError>, Option<Seq<char>>);

    open spec fn view(&self) -> Self::V {
        (
            match self.result {
                Ok(apps_object) => Ok(apps_object@),
                Err(error) => Err(error),
            },
            match self.removed_dir {
                Some(dir) => Some(dir@),
                None => None,
            },
        )
    }
}

/// What the steps after the registration of a run check, in order: the
/// first check that fails gives the error of the run.
pub open spec fn checks_after_registration<H>(
    registered: Seq<AppEntryView>,
    is_update: bool,
    item: AppsItemView,
    answers: InstallAnswers<H>,
) -> Result<(), AppsServiceError> {
    let update_manifest = update_manifest_option_view(answers.staged.update_manifest);
    match package_check(update_manifest, answers.available_space) {
        Err(error) => Err(error),
        Ok(()) => match package_fetch_outcome(completion_result(answers.package.completion)) {
            Err(error) => Err(package_fetch_error(error)),
            Ok(()) => if !answers.signature_valid {
                Err(AppsServiceError::InvalidSignature)
            } else {
                match package_validation(
                    update_manifest->0,
                    manifest_option_view(answers.package_manifest),
                ) {
                    Err(error) => Err(error),
                    Ok(()) => apply_outcome(
                        registered,
                        is_update,
                        item,
                        manifest_hash_of(answers.staged.content@),
                        answers.moved,
                    ),
                }
            },
        },
    }
}

/// An installation or update of `url`, from its first step to its last,
/// in a registry with the entries `apps` and the events `events`.
///
/// A run that fails before its registration leaves everything as it was. A
/// run that fails after it rolls the registry back and asks for the removal
/// of its scratch directory. A run that succeeds saves the applied record
/// with the manifest of the package, and removes nothing.
pub open spec fn install_run<H>(
    apps: Seq<AppEntryView>,
    vhost_port: u16,
    events: Seq<AppsEventView>,
    url: Seq<char>,
    is_update: bool,
    staging_dir: Seq<char>,
    answers: InstallAnswers<H>,
) -> RunView {
    let manifest = manifest_option_view(answers.staged.manifest);
    match fetch_outcome(answers.fetch) {
        Err(error) => RunView {
            result: Err(manifest_fetch_error(error)),
            removed_dir: None,
            apps,
            events,
        },
        Ok(()) => match registration(apps, vhost_port, url, is_update, manifest) {
            Err(error) => RunView {
                result: Err(error),
                removed_dir: None,
                apps: registered_apps(apps, vhost_port, url, is_update, manifest),
                events,
            },
            Ok(intended) => {
                let registered = registered_apps(apps, vhost_port, url, is_update, manifest);
                let announced = events.push(
                    AppsEventView::AppInstalling {
                        is_update,
                        apps_object: object_of(intended.item),
                    },
                );
                match checks_after_registration(registered, is_update, intended.item, answers) {
                    Err(error) => RunView {
                        result: Err(error),
                        removed_dir: Some(staging_dir),
                        apps: restored(
                            registered,
                            is_update,
                            intended.snapshot,
                            intended.prior_manifest,
                        ),
                        events: announced,
                    },
                    Ok(()) => {
                        let item = applied(
                            intended.item,
                            manifest_hash_of(answers.staged.content@),
                        );
                        RunView {
                            result: Ok(object_of(item)),
                            removed_dir: None,
                            apps: saved(
                                registered,
                                AppEntryView { item, manifest: answers.package_manifest->0@ },
                            ),
                            events: announced.push(applied_event(is_update, item)),
                        }
                    },
                }
            },
        },
    }
}

/// The cancellation registry after an installation or update of `url`: once
/// a download was made, no slot is left for `url`.
pub open spec fn after_install<H>(
    downloadings: Map<Seq<char>, H>,
    url: Seq<char>,
    answers: InstallAnswers<H>,
) -> Map<Seq<char>, H> {
    after_fetch(downloadings, url, answers.fetch)
}

/// What the surroundings answer during the installation of a progressive
/// web app. How the fetches of the icons end is not among the answers:
/// nothing depends on it.
#[derive(Debug)]
pub struct PwaAnswers {
    /// Whether the scratch directory could be made.
    pub staged_dir: bool,
    /// How the download of the manifest ended.
    pub download: Result<(), DownloadError>,
    /// The bytes of the staged manifest.
    pub content: Vec<u8>,
    /// The staged manifest, unless it does not parse.
    pub manifest: Option<Manifest>,
    /// Whether the rewritten manifest could be written.
    pub written: bool,
    /// Whether the cache could be moved into place.
    pub moved: Result<(), AppsServiceError>,
}

/// Mathematical value of the end of the installation of a progressive web
/// app, with the registry it leaves.
pub struct PwaRunView {
    pub result: Result<AppsObjectView, AppsServiceError>,
    pub apps: Seq<AppEntryView>,
    pub events: Seq<AppsEventView>,
}

/// The installation of the progressive web app at `url`, from its first
/// step to its last, in a registry with the entries `apps` and the events
/// `events`.
///
/// Nothing is undone when the run fails: what it registered stays.
pub open spec fn pwa_run(
    apps: Seq<AppEntryView>,
    vhost_port: u16,
    events: Seq<AppsEventView>,
    url: Seq<char>,
    answers: PwaAnswers,
) -> PwaRunView {
    let manifest = manifest_option_view(answers.manifest);
    if !(answers.staged_dir && answers.download is Ok) {
        PwaRunView { result: Err(AppsServiceError::DownloadManifestFailed), apps, events }
    } else {
        match pwa_registration(apps, vhost_port, url, manifest) {
            Err(error) => PwaRunView { result: Err(error), apps, events },
            Ok(item) => {
                let registered = pwa_registered_apps(apps, vhost_port, url, manifest);
                let announced = events.push(
                    AppsEventView::AppInstalling { is_update: false, apps_object: object_of(item) },
                );
                let installed = applied(item, manifest_hash_of(answers.content@));
                let outcome = match rewritten_manifest(manifest->0, url, item.manifest_url) {
                    Err(error) => Err(error),
                    Ok(rewritten) => if !answers.written {
                        Err(AppsServiceError::InvalidManifest)
                    } else {
                        match answers.moved {
                            Err(error) => Err(error),
                            Ok(()) => match save_outcome(registered, false, installed) {
                                Err(error) => Err(error),
                                Ok(()) => Ok(rewritten),
                            },
                        }
                    },
                };
                match outcome {
                    Err(error) => PwaRunView {
                        result: Err(error),
                        apps: registered,
                        events: announced,
                    },
                    Ok(rewritten) => PwaRunView {
                        result: Ok(object_of(installed)),
                        apps: saved(
                            registered,
                            AppEntryView { item: installed, manifest: rewritten },
                        ),
                        events: announced.push(applied_event(false, installed)),
                    },
                }
            },
        }
    }
}

/// What the surroundings answer during a check for an update.
#[derive(Debug)]
pub struct CheckAnswers<H> {
    pub fetch: FetchAnswer<H>,
    pub staged: StagedDocument,
}

/// A check for an update of the application that updates from `url`, from
/// its first step to its last, in a registry with the entries `apps`.
///
/// The application must be registered. The answer then depends on its
/// record, on how the fetch of the update manifest ended, and on the staged
/// document: on nothing else.
pub open spec fn check_run<H>(
    apps: Seq<AppEntryView>,
    url: Seq<char>,
    is_auto_update: bool,
    answers: CheckAnswers<H>,
) -> Result<Option<AppsObjectView>, AppsServiceError> {
    match lookup(apps, url) {
        None => Err(AppsServiceError::AppNotFound),
        Some(entry) => check_outcome(
            entry.item,
            is_auto_update,
            fetch_outcome(answers.fetch),
            update_manifest_option_view(answers.staged.update_manifest),
            answers.staged.content@,
        ),
    }
}

/// A request of the apps service, with the state it works on.
pub struct AppsRequest<H> {
    pub shared_data: AppsSharedData<H>,
}

impl<H> AppsRequest<H> {
    /// A request that works on `shared_data`.
    pub fn new(shared_data: AppsSharedData<H>) -> (request: Self)
        ensures
            request.shared_data == shared_data,
    {
        Self { shared_data }
    }

    /// Fetches the update manifest of `url` into its scratch directory
    /// under the data directory `path`.
    ///
    /// While the download is in flight its cancel handle is stored under
    /// `url`; when the wait is over the slot is gone, however the download
    /// ended.
    pub fn get_update_manifest(&mut self, url: &str, path: &str, answer: FetchAnswer<H>) -> (outcome:
        Result<ManifestFetch, AppsMgmtError>)
        ensures
            final(self).shared_data.registry == old(self).shared_data.registry,
            final(self).shared_data.config == old(self).shared_data.config,
            final(self).shared_data.downloadings@ == after_fetch(
                old(self).shared_data.downloadings@,
                url@,
                answer,
            ),
            match outcome {
                Ok(fetch) => {
                    &&& fetch_outcome(answer) is Ok
                    &&& fetch.webapp_path@ == path@
                    &&& fetch.update_url@ == url@
                    &&& fetch.available_dir@ == staging_dir_of(path@, fetch.url_hash)
                    &&& fetch.update_manifest@ == update_manifest_path_of(fetch.available_dir@)
                },
                Err(error) => fetch_outcome(answer) == Err::<(), AppsMgmtErrorView>(error@),
            },
    {
        let fetch = ManifestFetch::new(url, path);
        if !answer.staged {
            return Err(AppsMgmtError::Filesystem);
        }
        let download = fetch.download();
        let guard = download.started(&mut self.shared_data.downloadings, answer.download.canceller);
        let result = download.finished(
            guard,
            &mut self.shared_data.downloadings,
            answer.download.completion,
        );
        proof {
            assert(self.shared_data.downloadings@ =~= old(self).shared_data.downloadings@.remove(
                url@,
            ));
        }
        match manifest_fetched(result) {
            Ok(()) => Ok(fetch),
            Err(error) => Err(error),
        }
    }

    /// Fetches the package at `url` into the scratch directory `path`, with
    /// the cancel handle stored under `app_update_url` while the download is
    /// in flight. On success the path of the staged package comes back.
    pub fn get_available_zip(
        &mut self,
        app_update_url: &str,
        url: &str,
        path: &str,
        answer: DownloadAnswer<H>,
    ) -> (outcome: Result<String, AppsMgmtError>)
        ensures
            final(self).shared_data.registry == old(self).shared_data.registry,
            final(self).shared_data.config == old(self).shared_data.config,
            final(self).shared_data.downloadings@ == old(self).shared_data.downloadings@.remove(
                app_update_url@,
            ),
            match outcome {
                Ok(zip_path) => {
                    &&& package_fetch_outcome(completion_result(answer.completion)) is Ok
                    &&& zip_path@ == package_path_of(path@)
                },
                Err(error) => package_fetch_outcome(completion_result(answer.completion)) == Err::<
                    (),
                    AppsMgmtErrorView,
                >(error@),
            },
    {
        let zip_path = package_path(path);
        let download = Download {
            app_update_url: String::from_str(app_update_url),
            url: String::from_str(url),
            dest: zip_path.clone(),
        };
        let guard = download.started(&mut self.shared_data.downloadings, answer.canceller);
        let result = download.finished(guard, &mut self.shared_data.downloadings, answer.completion);
        proof {
            assert(self.shared_data.downloadings@ =~= old(
                self,
            ).shared_data.downloadings@.remove(app_update_url@));
        }
        match package_fetched(result) {
            Ok(()) => Ok(zip_path),
            Err(error) => Err(error),
        }
    }

    /// Checks whether an update is available for the application that
    /// updates from `update_url`.
    ///
    /// The registry is not changed, and the answer depends on nothing but
    /// the registered record and the answers of the surroundings: a check
    /// that is repeated with the same answers gives the same result.
    pub fn check_for_update(
        &mut self,
        webapp_path: &str,
        update_url: &str,
        is_auto_update: bool,
        answers: CheckAnswers<H>,
    ) -> (outcome: Result<Option<AppsObject>, AppsServiceError>)
        ensures
            final(self).shared_data.registry == old(self).shared_data.registry,
            final(self).shared_data.config == old(self).shared_data.config,
            check_result_view(outcome) == check_run(
                old(self).shared_data.registry@.apps,
                update_url@,
                is_auto_update,
                answers,
            ),
            final(self).shared_data.downloadings@ == if lookup(
                old(self).shared_data.registry@.apps,
                update_url@,
            ) is Some {
                after_fetch(old(self).shared_data.downloadings@, update_url@, answers.fetch)
            } else {
                old(self).shared_data.downloadings@
            },
    {
        let check = match check_for_update(&self.shared_data.registry, update_url, is_auto_update) {
            Ok(check) => check,
            Err(error) => {
                return Err(error);
            },
        };
        let CheckAnswers { fetch, staged } = answers;
        let fetched = match self.get_update_manifest(update_url, webapp_path, fetch) {
            Ok(_) => Ok(()),
            Err(error) => Err(error),
        };
        check.fetched(fetched, staged.update_manifest.as_ref(), staged.content.as_slice())
    }

    /// Installs or updates the application that updates from `update_url`.
    ///
    /// The run ends as [`install_run`] says, with the scratch directory
    /// that the hash of the update URL names. Whatever happens, the entries
    /// of the registry stay unique, and no cancel slot for `update_url` is
    /// left once a download was made.
    pub fn download_and_apply(
        &mut self,
        webapp_path: &str,
        update_url: &str,
        is_update: bool,
        answers: InstallAnswers<H>,
    ) -> (report: InstallReport)
        ensures
            unique(final(self).shared_data.registry@.apps),
            final(self).shared_data.config == old(self).shared_data.config,
            final(self).shared_data.registry@.vhost_port == old(
                self,
            ).shared_data.registry@.vhost_port,
            final(self).shared_data.downloadings@ == after_install(
                old(self).shared_data.downloadings@,
                update_url@,
                answers,
            ),
            exists|url_hash: u64|
                (RunView {
                    result: report@.0,
                    removed_dir: report@.1,
                    apps: final(self).shared_data.registry@.apps,
                    events: final(self).shared_data.registry@.events,
                }) == #[trigger] install_run(
                    old(self).shared_data.registry@.apps,
                    old(self).shared_data.registry@.vhost_port,
                    old(self).shared_data.registry@.events,
                    update_url@,
                    is_update,
                    staging_dir_of(webapp_path@, url_hash),
                    answers,
                ),
    {
        let ghost apps = self.shared_data.registry@.apps;
        let ghost vhost_port = self.shared_data.registry@.vhost_port;
        let ghost events = self.shared_data.registry@.events;
        let ghost downloadings = self.shared_data.downloadings@;
        let _ = self.shared_data.registry.count();
        let InstallAnswers {
            fetch: fetch_answer,
            staged,
            available_space,
            package,
            signature_valid,
            package_manifest,
            moved,
        } = answers;
        let fetch = match self.get_update_manifest(update_url, webapp_path, fetch_answer) {
            Ok(fetch) => fetch,
            Err(error) => {
                let report = InstallReport {
                    result: Err(manifest_fetch_failed(&error)),
                    removed_dir: None,
                };
                proof {
                    let run = install_run(
                        apps,
                        vhost_port,
                        events,
                        update_url@,
                        is_update,
                        staging_dir_of(webapp_path@, 0),
                        answers,
                    );
                    assert(run.result == report@.0);
                }
                return report;
            },
        };
        let ghost run = install_run(
            apps,
            vhost_port,
            events,
            update_url@,
            is_update,
            staging_dir_of(webapp_path@, fetch.url_hash),
            answers,
        );
        let content = staged.content;
        let registered = match register_intent(
            &fetch,
            is_update,
            &mut self.shared_data.registry,
            staged.manifest,
            content.as_slice(),
        ) {
            Ok(registered) => registered,
            Err(error) => {
                let report = InstallReport { result: Err(error), removed_dir: None };
                assert(run.result == report@.0);
                return report;
            },
        };
        let ghost registered_entries = self.shared_data.registry@.apps;
        let ghost first = registered.run;
        let package_fetch = match registered.check_package(
            &mut self.shared_data.registry,
            staged.update_manifest,
            available_space,
        ) {
            Ok(next) => next,
            Err(failure) => {
                let _ = self.shared_data.registry.count();
                let report = InstallReport {
                    result: Err(failure.error),
                    removed_dir: Some(failure.remove_dir),
                };
                assert(run.result == report@.0);
                return report;
            },
        };
        let download = package_fetch.download();
        let staging_dir = package_fetch.run.get_staging_dir();
        let fetched = match self.get_available_zip(
            download.app_update_url.as_str(),
            download.url.as_str(),
            staging_dir.as_str(),
            package,
        ) {
            Ok(_) => Ok(()),
            Err(error) => Err(error),
        };
        proof {
            assert(self.shared_data.downloadings@ =~= downloadings.remove(update_url@));
        }
        let verify = match package_fetch.fetched(&mut self.shared_data.registry, fetched) {
            Ok(next) => next,
            Err(failure) => {
                let _ = self.shared_data.registry.count();
                let report = InstallReport {
                    result: Err(failure.error),
                    removed_dir: Some(failure.remove_dir),
                };
                assert(run.result == report@.0);
                return report;
            },
        };
        let validate = match verify.signature_checked(
            &mut self.shared_data.registry,
            signature_valid,
        ) {
            Ok(next) => next,
            Err(failure) => {
                let _ = self.shared_data.registry.count();
                let report = InstallReport {
                    result: Err(failure.error),
                    removed_dir: Some(failure.remove_dir),
                };
                assert(run.result == report@.0);
                return report;
            },
        };
        let apply = match validate.validated(&mut self.shared_data.registry, package_manifest) {
            Ok(next) => next,
            Err(failure) => {
                let _ = self.shared_data.registry.count();
                let report = InstallReport {
                    result: Err(failure.error),
                    removed_dir: Some(failure.remove_dir),
                };
                assert(run.result == report@.0);
                return report;
            },
        };
        match apply.applied(&mut self.shared_data.registry, moved) {
            Ok(apps_object) => {
                let report = InstallReport { result: Ok(apps_object), removed_dir: None };
                assert(run.result == report@.0);
                report
            },
            Err(failure) => {
                let report = InstallReport {
                    result: Err(failure.error),
                    removed_dir: Some(failure.remove_dir),
                };
                assert(run.result == report@.0);
                report
            },
        }
    }

    /// Installs the progressive web app whose manifest is at `update_url`.
    ///
    /// The run ends as [`pwa_run`] says. It stores no cancel handle, so it
    /// cannot be canceled.
    pub fn download_and_apply_pwa(&mut self, webapp_path: &str, update_url: &str, answers: PwaAnswers) -> (outcome:
        Result<AppsObject, AppsServiceError>)
        ensures
            unique(final(self).shared_data.registry@.apps),
            final(self).shared_data.config == old(self).shared_data.config,
            final(self).shared_data.downloadings == old(self).shared_data.downloadings,
            final(self).shared_data.registry@.vhost_port == old(
                self,
            ).shared_data.registry@.vhost_port,
            (PwaRunView {
                result: match outcome {
                    Ok(apps_object) => Ok(apps_object@),
                    Err(error) => Err(error),
                },
                apps: final(self).shared_data.registry@.apps,
                events: final(self).shared_data.registry@.events,
            }) == pwa_run(
                old(self).shared_data.registry@.apps,
                old(self).shared_data.registry@.vhost_port,
                old(self).shared_data.registry@.events,
                update_url@,
                answers,
            ),
    {
        let _ = self.shared_data.registry.count();
        let PwaAnswers { staged_dir, download, content, manifest, written, moved } = answers;
        let fetch = PwaFetch::new(webapp_path, update_url);
        match fetch.fetched(staged_dir, download) {
            Ok(()) => {},
            Err(error) => {
                return Err(error);
            },
        }
        let registered = match register_pwa(
            &fetch,
            &mut self.shared_data.registry,
            manifest,
            content.as_slice(),
        ) {
            Ok(registered) => registered,
            Err(error) => {
                return Err(error);
            },
        };
        let plan = registered.plan();
        let rewritten = match plan.manifest {
            Ok(rewritten) => rewritten,
            Err(error) => {
                return Err(error);
            },
        };
        let apply = match registered.planned(rewritten).written(written) {
            Ok(apply) => apply,
            Err(error) => {
                return Err(error);
            },
        };
        apply.applied(&mut self.shared_data.registry, moved)
    }

    /// Broadcasts that the download for `update_url` failed for `reason`,
    /// for the application `some_app` or else for one of which only the
    /// update URL is known.
    pub fn broadcast_download_failed(
        &mut self,
        update_url: &str,
        reason: AppsServiceError,
        some_app: Option<AppsObject>,
    )
        ensures
            final(self).shared_data.registry@.events == old(self).shared_data.registry@.events.push(
                AppsEventView::AppDownloadFailed {
                    apps_object: failed_object(
                        update_url@,
                        match some_app {
                            Some(app) => Some(app@),
                            None => None,
                        },
                    ),
                    reason,
                },
            ),
            final(self).shared_data.registry@.apps == old(self).shared_data.registry@.apps,
            final(self).shared_data.registry@.vhost_port == old(
                self,
            ).shared_data.registry@.vhost_port,
            final(self).shared_data.downloadings == old(self).shared_data.downloadings,
            final(self).shared_data.config == old(self).shared_data.config,
    {
        broadcast_download_failed(&mut self.shared_data.registry, update_url, reason, some_app);
    }
}

} // verus!
