//! The pipeline that installs a progressive web app: its manifest is
//! fetched, its icons are cached, and the manifest is rewritten so that it
//! points at the cache and carries an absolute start URL.
//!
//! This pipeline has no guards: a run that fails leaves its registration and
//! its scratch directory behind.

use crate::apps_item::{
    default_pwa_item, object_of, AppsInstallState, AppsItem, AppsItemView, AppsObject,
};
use crate::decider::{compute_manifest_hash, manifest_hash_of};
use crate::errors::{AppsServiceError, DownloadError};
use crate::events::AppsEventView;
use crate::install::manifest_option_view;
use crate::manifest::{icons_view, Icons, IconsView, Manifest, ManifestView};
use crate::registry::{
    applied, applied_event, lookup, lemma_saved_unique, save_outcome, saved, unique, unique_name,
    AppEntryView, AppsRegistry,
};
use crate::staging::{
    cached_dir, cached_dir_of, hash, pwa_manifest_path, pwa_manifest_path_of, staging_dir,
    staging_dir_of, Placement,
};
use crate::text::{join_path, joined};
use crate::urls::{join_url, parses_as_url, url_joined, url_parses};
use vstd::prelude::*;
use vstd::string::*;

verus! {

/// `src` without its leading slash, if it has one.
pub open spec fn stripped(src: Seq<char>) -> Seq<char> {
    if src.len() > 0 && src[0] == '/' {
        src.subrange(1, src.len() as int)
    } else {
        src
    }
}

/// Removes the leading slash of `src`, if it has one.
pub fn strip_leading_slash(src: &str) -> (rest: String)
    ensures
        rest@ == stripped(src@),
{
    if !src.is_empty() && src.get_char(0) == '/' {
        let len = src.unicode_len();
        String::from_str(src.substring_char(1, len))
    } else {
        String::from_str(src)
    }
}

/// One icon to fetch: from `url` into the file `path`.
#[derive(Debug, PartialEq, Eq)]
pub struct IconDownload {
    pub url: String,
    pub path: String,
}

/// Mathematical value of an [`IconDownload`].
pub struct IconDownloadView {
    pub url: Seq<char>,
    pub path: Seq<char>,
}

impl View for IconDownload {
    type V = IconDownloadView;

    open spec fn view(&self) -> IconDownloadView {
        IconDownloadView { url: self.url@, path: self.path@ }
    }
}

/// The views of a list of icon downloads.
pub open spec fn downloads_view(list: Seq<IconDownload>) -> Seq<IconDownloadView> {
    list.map_values(|download: IconDownload| download@)
}

/// The icon cannot be cached: its source does not resolve against the
/// update URL, or its cached place does not resolve against the manifest
/// URL.
pub open spec fn icon_fails(icon: IconsView, update_url: Seq<char>, manifest_url: Seq<char>) -> bool {
    url_joined(update_url, icon.src) is None || url_joined(manifest_url, stripped(icon.src))
        is None
}

/// The first icon at or after `from` that cannot be cached, or the number
/// of icons where all can.
pub open spec fn first_failing(
    icons: Seq<IconsView>,
    update_url: Seq<char>,
    manifest_url: Seq<char>,
    from: nat,
) -> nat
    decreases icons.len() - from,
{
    if from >= icons.len() || icon_fails(icons[from as int], update_url, manifest_url) {
        from
    } else {
        first_failing(icons, update_url, manifest_url, from + 1)
    }
}

/// The fetch of `icon`: from its source, resolved against the update URL,
/// into the scratch directory, under its source without the leading slash.
pub open spec fn planned_download(
    icon: IconsView,
    update_url: Seq<char>,
    download_dir: Seq<char>,
) -> IconDownloadView {
    IconDownloadView {
        url: url_joined(update_url, icon.src)->0,
        path: joined(download_dir, stripped(icon.src)),
    }
}

/// `icon` with its source pointing at the cache: its source without the
/// leading slash, resolved against the manifest URL.
pub open spec fn rewritten_icon(icon: IconsView, manifest_url: Seq<char>) -> IconsView {
    IconsView { src: url_joined(manifest_url, stripped(icon.src))->0, ..icon }
}

/// The icons that a manifest lists: none where it has no such member.
pub open spec fn listed_icons(manifest: ManifestView) -> Seq<IconsView> {
    match manifest.icons {
        Some(list) => list,
        None => Seq::<IconsView>::empty(),
    }
}

/// The fetches that the caching of the icons starts, in order.
///
/// Icons are taken one by one, and the first that cannot be cached ends the
/// work. Its own fetch is still started if its source resolved.
pub open spec fn planned_downloads(
    manifest: ManifestView,
    update_url: Seq<char>,
    manifest_url: Seq<char>,
    download_dir: Seq<char>,
) -> Seq<IconDownloadView> {
    let icons = listed_icons(manifest);
    let n = first_failing(icons, update_url, manifest_url, 0);
    let count = if n < icons.len() && url_joined(update_url, icons[n as int].src) is Some {
        n + 1
    } else {
        n
    };
    if url_parses(update_url) && url_parses(manifest_url) {
        Seq::new(count, |i: int| planned_download(icons[i], update_url, download_dir))
    } else {
        Seq::<IconDownloadView>::empty()
    }
}

/// The manifest as it is cached, or the error that ends the run.
///
/// Both the update URL and the manifest URL must parse, and every icon must
/// resolve: else the manifest is invalid. The start URL must resolve against
/// the update URL: else the start URL is invalid. The cached manifest has
/// the resolved start URL and icons that point at the cache.
pub open spec fn rewritten_manifest(
    manifest: ManifestView,
    update_url: Seq<char>,
    manifest_url: Seq<char>,
) -> Result<ManifestView, AppsServiceError> {
    let icons = listed_icons(manifest);
    if !url_parses(update_url) || !url_parses(manifest_url) {
        Err(AppsServiceError::InvalidManifest)
    } else if first_failing(icons, update_url, manifest_url, 0) < icons.len() {
        Err(AppsServiceError::InvalidManifest)
    } else {
        match url_joined(update_url, manifest.start_url) {
            None => Err(AppsServiceError::InvalidStartUrl),
            Some(start_url) => Ok(
                ManifestView {
                    start_url,
                    icons: match manifest.icons {
                        Some(list) => Some(
                            Seq::new(list.len(), |i: int| rewritten_icon(list[i], manifest_url)),
                        ),
                        None => None,
                    },
                    ..manifest
                },
            ),
        }
    }
}

/// What is to be done for the icons and the manifest of a progressive web
/// app.
#[derive(Debug)]
pub struct PwaPlan {
    /// The icons to fetch, in order. A fetch that fails is skipped.
    pub downloads: Vec<IconDownload>,
    /// The manifest to write over the staged one once the icons have been
    /// tried, or the error that ends the run then.
    pub manifest: Result<Manifest, AppsServiceError>,
}

/// Mathematical value of the manifest of a plan.
pub open spec fn manifest_result_view(result: Result<Manifest, AppsServiceError>) -> Result<
    ManifestView,
    AppsServiceError,
> {
    match result {
        Ok(manifest) => Ok(manifest@),
        Err(error) => Err(error),
    }
}

/// Plans the caching of `manifest`, fetched from `update_url`, for an
/// application whose cached manifest is served at `manifest_url`, with
/// `download_dir` as the scratch directory.
pub fn plan_pwa(manifest: &Manifest, update_url: &str, manifest_url: &str, download_dir: &str) -> (plan:
    PwaPlan)
    ensures
        downloads_view(plan.downloads@) == planned_downloads(
            manifest@,
            update_url@,
            manifest_url@,
            download_dir@,
        ),
        manifest_result_view(plan.manifest) == rewritten_manifest(
            manifest@,
            update_url@,
            manifest_url@,
        ),
{
    let mut downloads: Vec<IconDownload> = Vec::new();
    if !parses_as_url(update_url) || !parses_as_url(manifest_url) {
        assert(downloads_view(downloads@) =~= Seq::<IconDownloadView>::empty());
        return PwaPlan { downloads, manifest: Err(AppsServiceError::InvalidManifest) };
    }
    let mut rewritten = manifest.clone();
    let ghost listed = listed_icons(manifest@);
    match &manifest.icons {
        Some(icons) => {
            let mut cached: Vec<Icons> = Vec::new();
            let mut i: usize = 0;
            while i < icons.len()
                invariant
                    i <= icons.len(),
                    listed == icons_view(icons@),
                    listed == listed_icons(manifest@),
                    url_parses(update_url@),
                    url_parses(manifest_url@),
                    downloads@.len() == i,
                    cached@.len() == i,
                    forall|j: int|
                        0 <= j < i ==> (#[trigger] downloads@[j])@ == planned_download(
                            listed[j],
                            update_url@,
                            download_dir@,
                        ),
                    forall|j: int|
                        0 <= j < i ==> (#[trigger] cached@[j])@ == rewritten_icon(
                            listed[j],
                            manifest_url@,
                        ),
                    first_failing(listed, update_url@, manifest_url@, 0) == first_failing(
                        listed,
                        update_url@,
                        manifest_url@,
                        i as nat,
                    ),
                decreases icons.len() - i,
            {
                let icon = &icons[i];
                assert(listed[i as int] == icon@);
                let src = icon.get_src();
                let rest = strip_leading_slash(src.as_str());
                let path = join_path(download_dir, rest.as_str());
                match join_url(update_url, src.as_str()) {
                    Some(url) => {
                        downloads.push(IconDownload { url, path });
                    },
                    None => {
                        assert(downloads_view(downloads@) =~= planned_downloads(
                            manifest@,
                            update_url@,
                            manifest_url@,
                            download_dir@,
                        ));
                        return PwaPlan {
                            downloads,
                            manifest: Err(AppsServiceError::InvalidManifest),
                        };
                    },
                }
                match join_url(manifest_url, rest.as_str()) {
                    Some(cached_url) => {
                        let mut entry = icon.clone();
                        entry.set_src(cached_url.as_str());
                        cached.push(entry);
                    },
                    None => {
                        assert(downloads_view(downloads@) =~= planned_downloads(
                            manifest@,
                            update_url@,
                            manifest_url@,
                            download_dir@,
                        ));
                        return PwaPlan {
                            downloads,
                            manifest: Err(AppsServiceError::InvalidManifest),
                        };
                    },
                }
                i = i + 1;
            }
            assert(icons_view(cached@) =~= Seq::new(
                listed.len(),
                |i: int| rewritten_icon(listed[i], manifest_url@),
            ));
            rewritten.set_icons(cached);
        },
        None => {},
    }
    assert(downloads_view(downloads@) =~= planned_downloads(
        manifest@,
        update_url@,
        manifest_url@,
        download_dir@,
    ));
    let start_url = manifest.get_start_url();
    match join_url(update_url, start_url.as_str()) {
        Some(start_url) => {
            rewritten.set_start_url(start_url.as_str());
            PwaPlan { downloads, manifest: Ok(rewritten) }
        },
        None => PwaPlan { downloads, manifest: Err(AppsServiceError::InvalidStartUrl) },
    }
}

/// The fetch of the manifest of a progressive web app into its scratch
/// directory. This download cannot be canceled.
#[derive(Debug, PartialEq, Eq)]
pub struct PwaFetch {
    /// The data directory.
    pub webapp_path: String,
    pub update_url: String,
    /// The hash of the update URL that names the scratch directory.
    pub url_hash: u64,
    /// The scratch directory, which the embedding program creates.
    pub download_dir: String,
    /// The file that receives the manifest.
    pub download_manifest: String,
}

impl PwaFetch {
    /// Lays out the fetch of the manifest at `update_url` under the data
    /// directory `webapp_path`.
    pub fn new(webapp_path: &str, update_url: &str) -> (fetch: Self)
        ensures
            fetch.webapp_path@ == webapp_path@,
            fetch.update_url@ == update_url@,
            fetch.download_dir@ == staging_dir_of(webapp_path@, fetch.url_hash),
            fetch.download_manifest@ == pwa_manifest_path_of(fetch.download_dir@),
    {
        let url_hash = hash(update_url);
        let download_dir = staging_dir(webapp_path, url_hash);
        let download_manifest = pwa_manifest_path(download_dir.as_str());
        PwaFetch {
            webapp_path: String::from_str(webapp_path),
            update_url: String::from_str(update_url),
            url_hash,
            download_dir,
            download_manifest,
        }
    }

    /// Takes the end of the fetch: `staged` tells whether the scratch
    /// directory could be made, `result` how the download ended. Whatever
    /// went wrong, the caller is told that the manifest could not be
    /// downloaded.
    pub fn fetched(&self, staged: bool, result: Result<(), DownloadError>) -> (outcome: Result<
        (),
        AppsServiceError,
    >)
        ensures
            outcome == if staged && result is Ok {
                Ok::<(), AppsServiceError>(())
            } else {
                Err::<(), AppsServiceError>(AppsServiceError::DownloadManifestFailed)
            },
    {
        if staged && result.is_ok() {
            Ok(())
        } else {
            Err(AppsServiceError::DownloadManifestFailed)
        }
    }
}

/// The record that the registration of a progressive web app saves.
pub open spec fn pwa_item(name: Seq<char>, vhost_port: u16, url: Seq<char>) -> AppsItemView {
    AppsItemView {
        install_state: AppsInstallState::Installing,
        update_url: url,
        ..default_pwa_item(name, vhost_port)
    }
}

/// How the registration of a progressive web app ends: with the record that
/// is registered, or with the error that stopped it.
pub open spec fn pwa_registration(
    apps: Seq<AppEntryView>,
    vhost_port: u16,
    url: Seq<char>,
    manifest: Option<ManifestView>,
) -> Result<AppsItemView, AppsServiceError> {
    match manifest {
        None => Err(AppsServiceError::InvalidManifest),
        Some(m) => match unique_name(apps, m.name, url) {
            Err(error) => Err(error),
            Ok(name) => Ok(pwa_item(name, vhost_port, url)),
        },
    }
}

/// The registry after the registration of a progressive web app. That the
/// registry refuses to save the record does not stop the run.
pub open spec fn pwa_registered_apps(
    apps: Seq<AppEntryView>,
    vhost_port: u16,
    url: Seq<char>,
    manifest: Option<ManifestView>,
) -> Seq<AppEntryView> {
    match pwa_registration(apps, vhost_port, url, manifest) {
        Err(_) => apps,
        Ok(item) => if save_outcome(apps, false, item) is Ok {
            saved(apps, AppEntryView { item, manifest: manifest->0 })
        } else {
            apps
        },
    }
}

/// A progressive web app that is registered and announced.
#[derive(Debug)]
pub struct PwaRegistered {
    pub apps_item: AppsItem,
    /// The manifest as it was fetched.
    pub manifest: Manifest,
    /// The hash of the bytes of the fetched manifest.
    pub manifest_hash: String,
    pub webapp_path: String,
    pub update_url: String,
    pub download_dir: String,
}

/// Registers a progressive web app, once its manifest is staged.
///
/// `manifest` is the staged document, or nothing where it did not parse;
/// `content` holds its bytes.
pub fn register_pwa(
    fetch: &PwaFetch,
    registry: &mut AppsRegistry,
    manifest: Option<Manifest>,
    content: &[u8],
) -> (outcome: Result<PwaRegistered, AppsServiceError>)
    ensures
        unique(final(registry)@.apps),
        final(registry)@.vhost_port == old(registry)@.vhost_port,
        final(registry)@.apps == pwa_registered_apps(
            old(registry)@.apps,
            old(registry)@.vhost_port,
            fetch.update_url@,
            manifest_option_view(manifest),
        ),
        match outcome {
            Ok(registered) => {
                &&& pwa_registration(
                    old(registry)@.apps,
                    old(registry)@.vhost_port,
                    fetch.update_url@,
                    manifest_option_view(manifest),
                ) == Ok::<AppsItemView, AppsServiceError>(registered.apps_item@)
                &&& manifest == Some(registered.manifest)
                &&& registered.manifest_hash@ == manifest_hash_of(content@)
                &&& registered.webapp_path@ == fetch.webapp_path@
                &&& registered.update_url@ == fetch.update_url@
                &&& registered.download_dir@ == fetch.download_dir@
                &&& final(registry)@.events == old(registry)@.events.push(
                    AppsEventView::AppInstalling {
                        is_update: false,
                        apps_object: object_of(registered.apps_item@),
                    },
                )
            },
            Err(error) => {
                &&& pwa_registration(
                    old(registry)@.apps,
                    old(registry)@.vhost_port,
                    fetch.update_url@,
                    manifest_option_view(manifest),
                ) == Err::<AppsItemView, AppsServiceError>(error)
                &&& final(registry)@.events == old(registry)@.events
            },
        },
{
    let _ = registry.count();
    let manifest = match manifest {
        Some(manifest) => manifest,
        None => {
            return Err(AppsServiceError::InvalidManifest);
        },
    };
    let url = fetch.update_url.as_str();
    let proposed = manifest.get_name();
    let app_name = match registry.get_unique_name(proposed.as_str(), url) {
        Ok(name) => name,
        Err(error) => {
            return Err(error);
        },
    };
    let mut apps_item = AppsItem::default_pwa(app_name.as_str(), registry.get_vhost_port());
    apps_item.set_install_state(AppsInstallState::Installing);
    apps_item.set_update_url(url);
    let _ = registry.save_app(false, &apps_item, &manifest);
    registry.broadcast_installing(false, AppsObject::from(&apps_item));
    Ok(
        PwaRegistered {
            apps_item,
            manifest,
            manifest_hash: compute_manifest_hash(content),
            webapp_path: fetch.webapp_path.clone(),
            update_url: fetch.update_url.clone(),
            download_dir: fetch.download_dir.clone(),
        },
    )
}

/// A progressive web app whose rewritten manifest is to be written over the
/// staged one.
#[derive(Debug)]
pub struct PwaWrite {
    pub apps_item: AppsItem,
    /// The rewritten manifest.
    pub manifest: Manifest,
    pub manifest_hash: String,
    pub webapp_path: String,
    pub download_dir: String,
}

/// A progressive web app whose cache is complete and awaits its move into
/// place.
#[derive(Debug)]
pub struct PwaApply {
    pub apps_item: AppsItem,
    /// The rewritten manifest.
    pub manifest: Manifest,
    pub manifest_hash: String,
    pub webapp_path: String,
    pub download_dir: String,
}

impl PwaRegistered {
    /// Plans the caching of the icons and the rewriting of the manifest.
    pub fn plan(&self) -> (plan: PwaPlan)
        ensures
            downloads_view(plan.downloads@) == planned_downloads(
                self.manifest@,
                self.update_url@,
                self.apps_item@.manifest_url,
                self.download_dir@,
            ),
            manifest_result_view(plan.manifest) == rewritten_manifest(
                self.manifest@,
                self.update_url@,
                self.apps_item@.manifest_url,
            ),
    {
        let manifest_url = self.apps_item.get_manifest_url();
        plan_pwa(
            &self.manifest,
            self.update_url.as_str(),
            manifest_url.as_str(),
            self.download_dir.as_str(),
        )
    }

    /// Moves on with the manifest of the plan, once its icons have been
    /// tried.
    pub fn planned(self, rewritten: Manifest) -> (next: PwaWrite)
        ensures
            next.apps_item@ == self.apps_item@,
            next.manifest == rewritten,
            next.manifest_hash@ == self.manifest_hash@,
            next.webapp_path@ == self.webapp_path@,
            next.download_dir@ == self.download_dir@,
    {
        PwaWrite {
            apps_item: self.apps_item,
            manifest: rewritten,
            manifest_hash: self.manifest_hash,
            webapp_path: self.webapp_path,
            download_dir: self.download_dir,
        }
    }
}

impl PwaWrite {
    /// Takes the answer to the writing of the rewritten manifest: a manifest
    /// that could not be written is invalid.
    pub fn written(self, done: bool) -> (outcome: Result<PwaApply, AppsServiceError>)
        ensures
            match outcome {
                Ok(next) => {
                    &&& done
                    &&& next.apps_item@ == self.apps_item@
                    &&& next.manifest == self.manifest
                    &&& next.manifest_hash@ == self.manifest_hash@
                    &&& next.webapp_path@ == self.webapp_path@
                    &&& next.download_dir@ == self.download_dir@
                },
                Err(error) => !done && error == AppsServiceError::InvalidManifest,
            },
    {
        if done {
            Ok(
                PwaApply {
                    apps_item: self.apps_item,
                    manifest: self.manifest,
                    manifest_hash: self.manifest_hash,
                    webapp_path: self.webapp_path,
                    download_dir: self.download_dir,
                },
            )
        } else {
            Err(AppsServiceError::InvalidManifest)
        }
    }
}

impl PwaApply {
    /// The move to make before the application is applied: the scratch
    /// directory of the run becomes the cache of the application.
    pub fn placement(&self) -> (placement: Placement)
        ensures
            placement.from@ == self.download_dir@,
            placement.to@ == cached_dir_of(self.webapp_path@, self.apps_item@.name),
    {
        let name = self.apps_item.get_name();
        Placement {
            from: self.download_dir.clone(),
            to: cached_dir(self.webapp_path.as_str(), name.as_str()),
        }
    }

    /// Applies the progressive web app: the last step of a run.
    ///
    /// `moved` tells whether the cache could be moved into place. If so, the
    /// registry records the application as installed and idle, with the
    /// rewritten manifest and the hash of the fetched one, and broadcasts
    /// the event.
    pub fn applied(self, registry: &mut AppsRegistry, moved: Result<(), AppsServiceError>) -> (outcome:
        Result<AppsObject, AppsServiceError>)
        ensures
            unique(final(registry)@.apps),
            final(registry)@.vhost_port == old(registry)@.vhost_port,
            match outcome {
                Ok(apps_object) => {
                    let item = applied(self.apps_item@, self.manifest_hash@);
                    let entry = AppEntryView { item, manifest: self.manifest@ };
                    &&& moved is Ok
                    &&& save_outcome(old(registry)@.apps, false, item) is Ok
                    &&& apps_object@ == object_of(item)
                    &&& final(registry)@.apps == saved(old(registry)@.apps, entry)
                    &&& lookup(final(registry)@.apps, item.update_url) == Some(entry)
                    &&& final(registry)@.events == old(registry)@.events.push(
                        applied_event(false, item),
                    )
                },
                Err(error) => {
                    &&& match moved {
                        Err(e) => error == e,
                        Ok(()) => save_outcome(
                            old(registry)@.apps,
                            false,
                            applied(self.apps_item@, self.manifest_hash@),
                        ) == Err::<(), AppsServiceError>(error),
                    }
                    &&& final(registry)@.apps == old(registry)@.apps
                    &&& final(registry)@.events == old(registry)@.events
                },
            },
    {
        let _ = registry.count();
        match moved {
            Ok(()) => {},
            Err(error) => {
                return Err(error);
            },
        }
        let PwaApply { mut apps_item, manifest, manifest_hash, .. } = self;
        match registry.apply_pwa(&mut apps_item, &manifest, manifest_hash.as_str()) {
            Ok(()) => {
                proof {
                    lemma_saved_unique(
                        old(registry)@.apps,
                        AppEntryView { item: apps_item@, manifest: manifest@ },
                    );
                }
                Ok(AppsObject::from(&apps_item))
            },
            Err(error) => Err(error),
        }
    }
}

} // verus!
