//! What holds of every run of the engine, proved from the contracts of its
//! steps.

use crate::apps_item::{
    object_of, AppsInstallState, AppsItemView, AppsObjectView, AppsUpdateState,
};
use crate::apps_request::{
    after_install, check_run, fetch_outcome, install_run, pwa_run, CheckAnswers, InstallAnswers,
    PwaAnswers,
};
use crate::decider::{manifest_hash_of, update_announced};
use crate::errors::{AppsServiceError, Completion, DownloadError};
use crate::events::AppsEventView;
use crate::install::{
    intent, manifest_option_view, package_check, registered_apps, registration,
    update_manifest_option_view, with_version, Intent,
};
use crate::manifest::{ManifestView, UpdateManifestView};
use crate::pwa::{pwa_registered_apps, pwa_registration, rewritten_manifest};
use crate::registry::{
    applied, has_url, lemma_index_of_url, lemma_saved_unique, lemma_unique_name_is_unique, lookup,
    restored, unique, url_index, AppEntryView,
};
use crate::request::check_outcome;
use crate::versions::{checked_order, VersionOrder};
use vstd::prelude::*;

verus! {

/// An installation is registered whenever its manifest parsed and
/// proposes a name, and an update whenever its manifest parsed and its
/// application is registered: the registry never refuses the record that a
/// run intends to save.
pub proof fn lemma_registration_succeeds(
    apps: Seq<AppEntryView>,
    vhost_port: u16,
    url: Seq<char>,
    is_update: bool,
    manifest: ManifestView,
)
    requires
        unique(apps),
    ensures
        registration(apps, vhost_port, url, is_update, Some(manifest)) is Ok <==> if is_update {
            has_url(apps, url)
        } else {
            has_url(apps, url) || manifest.name.len() > 0
        },
{
    if is_update {
        if has_url(apps, url) {
            let i = url_index(apps, url);
            let intended = intent(apps, vhost_port, url, true, manifest)->Ok_0;
            assert(intended.item.name == apps[i].item.name);
            assert(intended.item.update_url == url);
            assert forall|j: int|
                0 <= j < apps.len() && (#[trigger] apps[j]).item.name
                    == intended.item.name implies apps[j].item.update_url == url by {
                if j < i {
                    assert(apps[j].item.name != apps[i].item.name);
                } else if i < j {
                    assert(apps[i].item.name != apps[j].item.name);
                }
            }
        }
    } else {
        lemma_unique_name_is_unique(apps, manifest.name, url);
    }
}

/// A failed installation leaves no trace in the registry.
///
/// When an application that was not registered is registered for
/// installation and the run then fails, the rollback gives back the registry
/// exactly as it was before the registration.
pub proof fn lemma_failed_install_restores_registry(
    apps: Seq<AppEntryView>,
    vhost_port: u16,
    url: Seq<char>,
    manifest: ManifestView,
    intended: Intent,
)
    requires
        unique(apps),
        !has_url(apps, url),
        registration(apps, vhost_port, url, false, Some(manifest)) == Ok::<
            Intent,
            AppsServiceError,
        >(intended),
    ensures
        restored(
            registered_apps(apps, vhost_port, url, false, Some(manifest)),
            false,
            intended.snapshot,
            intended.prior_manifest,
        ) == apps,
{
    let entry = AppEntryView { item: intended.item, manifest };
    let after = registered_apps(apps, vhost_port, url, false, Some(manifest));
    assert(intended.item.update_url == url);
    assert(intended.snapshot.update_url == url);
    assert(after == apps.push(entry));
    lemma_saved_unique(apps, entry);
    lemma_index_of_url(after, url, apps.len() as int);
    assert(after.remove(apps.len() as int) =~= apps);
}

/// The entries `apps` with the application that updates from `url` marked
/// as having an update available, and nothing else changed.
pub open spec fn with_update_available(apps: Seq<AppEntryView>, url: Seq<char>) -> Seq<
    AppEntryView,
> {
    let i = url_index(apps, url);
    apps.update(
        i,
        AppEntryView {
            item: AppsItemView { update_state: AppsUpdateState::Available, ..apps[i].item },
            manifest: apps[i].manifest,
        },
    )
}

/// A failed update gives the application back as it was, marked as having
/// an update available.
///
/// When a registered application is registered for an update and the run
/// then fails, the rollback leaves every other entry untouched and puts the
/// record and the manifest of the application back, with the update state
/// `Available`.
pub proof fn lemma_failed_update_restores_registry(
    apps: Seq<AppEntryView>,
    vhost_port: u16,
    url: Seq<char>,
    manifest: ManifestView,
    intended: Intent,
)
    requires
        unique(apps),
        registration(apps, vhost_port, url, true, Some(manifest)) == Ok::<Intent, AppsServiceError>(
            intended,
        ),
    ensures
        has_url(apps, url),
        restored(
            registered_apps(apps, vhost_port, url, true, Some(manifest)),
            true,
            intended.snapshot,
            intended.prior_manifest,
        ) == with_update_available(apps, url),
{
    let i = url_index(apps, url);
    let before = apps[i];
    assert(has_url(apps, url));
    assert(before.item.update_url == url);
    assert(intended.snapshot == before.item);
    assert(intended.prior_manifest == before.manifest);
    assert(intended.item.update_url == url);
    assert(intended.item.name == before.item.name);
    let entry = AppEntryView { item: intended.item, manifest };
    let after = registered_apps(apps, vhost_port, url, true, Some(manifest));
    assert(after == apps.update(i, entry));
    lemma_saved_unique(apps, entry);
    lemma_index_of_url(after, url, i);
    let back = AppEntryView {
        item: AppsItemView { update_state: AppsUpdateState::Available, ..before.item },
        manifest: before.manifest,
    };
    assert forall|j: int|
        0 <= j < after.len() && (#[trigger] after[j]).item.name
            == before.item.name implies after[j].item.update_url == url by {
        if j != i {
            assert(after[j] == apps[j]);
            if j < i {
                assert(apps[j].item.name != apps[i].item.name);
            } else {
                assert(apps[i].item.name != apps[j].item.name);
            }
        }
    }
    assert(restored(after, true, intended.snapshot, intended.prior_manifest) == after.update(
        i,
        back,
    ));
    assert(after.update(i, back) =~= apps.update(i, back));
}

/// The run got as far as its registration.
pub open spec fn run_was_registered<H>(
    apps: Seq<AppEntryView>,
    vhost_port: u16,
    url: Seq<char>,
    is_update: bool,
    answers: InstallAnswers<H>,
) -> bool {
    fetch_outcome(answers.fetch) is Ok && registration(
        apps,
        vhost_port,
        url,
        is_update,
        manifest_option_view(answers.staged.manifest),
    ) is Ok
}

/// Cleanup: a run that does not reach its commit undoes itself.
///
/// Once its wait for a download is over, the cancellation registry has no
/// slot for the update URL. A run that fails before its registration
/// touches neither the registry nor the scratch directory. A run that
/// fails after it asks for the removal of its scratch directory and rolls
/// the registry back: an installation of an application that was not
/// registered leaves the registry exactly as it was; an update leaves it as
/// it was but for the update state of the application, which is
/// `Available`.
pub proof fn lemma_failed_run_is_cleaned_up<H>(
    apps: Seq<AppEntryView>,
    vhost_port: u16,
    events: Seq<AppsEventView>,
    downloadings: Map<Seq<char>, H>,
    url: Seq<char>,
    is_update: bool,
    staging_dir: Seq<char>,
    answers: InstallAnswers<H>,
)
    requires
        unique(apps),
        install_run(apps, vhost_port, events, url, is_update, staging_dir, answers).result is Err,
    ensures
        ({
            let run = install_run(apps, vhost_port, events, url, is_update, staging_dir, answers);
            let registered = run_was_registered(apps, vhost_port, url, is_update, answers);
            &&& answers.fetch.staged ==> !after_install(downloadings, url, answers).dom().contains(
                url,
            )
            &&& run.removed_dir == if registered {
                Some(staging_dir)
            } else {
                None
            }
            &&& !is_update && !has_url(apps, url) ==> run.apps == apps
            &&& is_update ==> run.apps == if registered {
                with_update_available(apps, url)
            } else {
                apps
            }
        }),
{
    let manifest = manifest_option_view(answers.staged.manifest);
    if fetch_outcome(answers.fetch) is Ok && manifest is Some {
        lemma_registration_succeeds(apps, vhost_port, url, is_update, manifest->0);
        match registration(apps, vhost_port, url, is_update, manifest) {
            Ok(intended) => {
                if is_update {
                    lemma_failed_update_restores_registry(
                        apps,
                        vhost_port,
                        url,
                        manifest->0,
                        intended,
                    );
                } else if !has_url(apps, url) {
                    lemma_failed_install_restores_registry(
                        apps,
                        vhost_port,
                        url,
                        manifest->0,
                        intended,
                    );
                }
            },
            Err(_) => {},
        }
    }
}

/// Commit: a run that succeeds leaves the application installed.
///
/// The registry holds the application under its update URL, installed and
/// idle, with the hash of the update manifest and with exactly the manifest
/// that was found in the package. The caller gets the view of that record,
/// the entries are still unique, and the scratch directory is not removed:
/// it has been handed over.
pub proof fn lemma_successful_run_commits<H>(
    apps: Seq<AppEntryView>,
    vhost_port: u16,
    events: Seq<AppsEventView>,
    url: Seq<char>,
    is_update: bool,
    staging_dir: Seq<char>,
    answers: InstallAnswers<H>,
)
    requires
        unique(apps),
        install_run(apps, vhost_port, events, url, is_update, staging_dir, answers).result is Ok,
    ensures
        ({
            let run = install_run(apps, vhost_port, events, url, is_update, staging_dir, answers);
            &&& unique(run.apps)
            &&& run.removed_dir is None
            &&& lookup(run.apps, url) matches Some(entry)
            &&& entry.item.update_url == url
            &&& entry.item.install_state == AppsInstallState::Installed
            &&& entry.item.update_state == AppsUpdateState::Idle
            &&& entry.item.manifest_hash == manifest_hash_of(answers.staged.content@)
            &&& answers.package_manifest matches Some(manifest)
            &&& entry.manifest == manifest@
            &&& run.result == Ok::<AppsObjectView, AppsServiceError>(object_of(entry.item))
        }),
{
    let manifest = manifest_option_view(answers.staged.manifest);
    let intended = registration(apps, vhost_port, url, is_update, manifest)->Ok_0;
    let registered = registered_apps(apps, vhost_port, url, is_update, manifest);
    lemma_saved_unique(apps, AppEntryView { item: intended.item, manifest: manifest->0 });
    assert(intended.item.update_url == url) by {
        if is_update {
            assert(has_url(apps, url));
        }
    }
    let item = applied(intended.item, manifest_hash_of(answers.staged.content@));
    lemma_saved_unique(
        registered,
        AppEntryView { item, manifest: answers.package_manifest->0@ },
    );
}

/// Cancellation: a package download that ends as canceled ends the run as
/// canceled, and the run is cleaned up as every failed run is.
pub proof fn lemma_canceled_run_is_cleaned_up<H>(
    apps: Seq<AppEntryView>,
    vhost_port: u16,
    events: Seq<AppsEventView>,
    downloadings: Map<Seq<char>, H>,
    url: Seq<char>,
    is_update: bool,
    staging_dir: Seq<char>,
    answers: InstallAnswers<H>,
)
    requires
        unique(apps),
        run_was_registered(apps, vhost_port, url, is_update, answers),
        package_check(
            update_manifest_option_view(answers.staged.update_manifest),
            answers.available_space,
        ) is Ok,
        answers.package.completion == Completion::Finished(Err(DownloadError::Canceled)),
    ensures
        ({
            let run = install_run(apps, vhost_port, events, url, is_update, staging_dir, answers);
            &&& run.result == Err::<AppsObjectView, AppsServiceError>(AppsServiceError::Canceled)
            &&& run.removed_dir == Some(staging_dir)
            &&& !after_install(downloadings, url, answers).dom().contains(url)
            &&& !is_update && !has_url(apps, url) ==> run.apps == apps
            &&& is_update ==> run.apps == with_update_available(apps, url)
        }),
{
    let run = install_run(apps, vhost_port, events, url, is_update, staging_dir, answers);
    assert(run.result == Err::<AppsObjectView, AppsServiceError>(AppsServiceError::Canceled));
    lemma_failed_run_is_cleaned_up(
        apps,
        vhost_port,
        events,
        downloadings,
        url,
        is_update,
        staging_dir,
        answers,
    );
}

/// After an installation, the manifest it was installed from announces no
/// update.
///
/// Take a record that took the version of the update manifest, where it
/// states one, and was applied with the hash of its bytes. A check against
/// the same bytes finds no update, as long as the comparison does not call
/// a version greater than itself.
pub proof fn lemma_no_update_after_install(
    base: AppsItemView,
    update_manifest: UpdateManifestView,
    content: Seq<u8>,
)
    ensures
        checked_order(update_manifest.version, update_manifest.version) != Some(
            VersionOrder::Greater,
        ) ==> !update_announced(
            applied(with_version(base, update_manifest.version), manifest_hash_of(content)),
            Some(update_manifest),
            content,
        ),
{
}

/// A successful run followed by a check against the same, unchanged update
/// manifest reports no update.
///
/// The staged document is one document read twice, so both readings state
/// the same version. The comparison must not call a version greater than
/// itself.
pub proof fn lemma_check_after_run_finds_nothing<H>(
    apps: Seq<AppEntryView>,
    vhost_port: u16,
    events: Seq<AppsEventView>,
    url: Seq<char>,
    is_update: bool,
    staging_dir: Seq<char>,
    answers: InstallAnswers<H>,
    is_auto_update: bool,
)
    requires
        unique(apps),
        install_run(apps, vhost_port, events, url, is_update, staging_dir, answers).result is Ok,
        answers.staged.manifest matches Some(manifest) && answers.staged.update_manifest matches Some(
            update_manifest,
        ) && manifest@.version == update_manifest@.version,
    ensures
        ({
            let run = install_run(apps, vhost_port, events, url, is_update, staging_dir, answers);
            let version = answers.staged.update_manifest->0@.version;
            &&& lookup(run.apps, url) is Some
            &&& checked_order(version, version) != Some(VersionOrder::Greater) ==> check_outcome(
                lookup(run.apps, url)->0.item,
                is_auto_update,
                Ok(()),
                update_manifest_option_view(answers.staged.update_manifest),
                answers.staged.content@,
            ) == Ok::<Option<AppsObjectView>, AppsServiceError>(None)
        }),
{
    lemma_successful_run_commits(apps, vhost_port, events, url, is_update, staging_dir, answers);
    let manifest = manifest_option_view(answers.staged.manifest);
    let intended = registration(apps, vhost_port, url, is_update, manifest)->Ok_0;
    let run = install_run(apps, vhost_port, events, url, is_update, staging_dir, answers);
    let entry = lookup(run.apps, url)->0;
    lemma_saved_unique(apps, AppEntryView { item: intended.item, manifest: manifest->0 });
    let registered = registered_apps(apps, vhost_port, url, is_update, manifest);
    let item = applied(intended.item, manifest_hash_of(answers.staged.content@));
    assert(intended.item.update_url == url) by {
        if is_update {
            assert(has_url(apps, url));
        }
    }
    lemma_saved_unique(
        registered,
        AppEntryView { item, manifest: answers.package_manifest->0@ },
    );
    assert(entry.item == item);
}

/// A check can be repeated: as long as the server answers the same, the
/// check answers the same.
///
/// A check leaves the registry as it is, so every check of a series sees
/// the same entries. Two checks that see the same entries, whose fetches
/// end alike and whose staged documents state the same and have the same
/// hash, give the same result, whichever cancel handles they were given.
pub proof fn lemma_check_is_repeatable<H>(
    apps: Seq<AppEntryView>,
    url: Seq<char>,
    is_auto_update: bool,
    first: CheckAnswers<H>,
    second: CheckAnswers<H>,
)
    requires
        fetch_outcome(first.fetch) == fetch_outcome(second.fetch),
        update_manifest_option_view(first.staged.update_manifest) == update_manifest_option_view(
            second.staged.update_manifest,
        ),
        manifest_hash_of(first.staged.content@) == manifest_hash_of(second.staged.content@),
    ensures
        check_run(apps, url, is_auto_update, first) == check_run(
            apps,
            url,
            is_auto_update,
            second,
        ),
{
}

/// Commit of a progressive web app: a run that succeeds leaves the
/// application installed, as a removable progressive web app, with exactly
/// the rewritten manifest.
pub proof fn lemma_successful_pwa_run_commits(
    apps: Seq<AppEntryView>,
    vhost_port: u16,
    events: Seq<AppsEventView>,
    url: Seq<char>,
    answers: PwaAnswers,
)
    requires
        unique(apps),
        pwa_run(apps, vhost_port, events, url, answers).result is Ok,
    ensures
        ({
            let run = pwa_run(apps, vhost_port, events, url, answers);
            &&& unique(run.apps)
            &&& lookup(run.apps, url) matches Some(entry)
            &&& entry.item.update_url == url
            &&& entry.item.install_state == AppsInstallState::Installed
            &&& entry.item.update_state == AppsUpdateState::Idle
            &&& entry.item.is_pwa
            &&& entry.item.removable
            &&& entry.item.manifest_hash == manifest_hash_of(answers.content@)
            &&& answers.manifest matches Some(manifest)
            &&& rewritten_manifest(manifest@, url, entry.item.manifest_url) == Ok::<
                ManifestView,
                AppsServiceError,
            >(entry.manifest)
            &&& run.result == Ok::<AppsObjectView, AppsServiceError>(object_of(entry.item))
        }),
{
    let manifest = manifest_option_view(answers.manifest);
    let item = pwa_registration(apps, vhost_port, url, manifest)->Ok_0;
    let registered = pwa_registered_apps(apps, vhost_port, url, manifest);
    lemma_unique_name_is_unique(apps, manifest->0.name, url);
    lemma_saved_unique(apps, AppEntryView { item, manifest: manifest->0 });
    let installed = applied(item, manifest_hash_of(answers.content@));
    let rewritten = rewritten_manifest(manifest->0, url, item.manifest_url)->Ok_0;
    lemma_saved_unique(registered, AppEntryView { item: installed, manifest: rewritten });
}

} // verus!
