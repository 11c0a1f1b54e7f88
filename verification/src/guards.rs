//! The three cleanup guards of a pipeline run. Each is armed when it is
//! made; the run disarms it on success, and on every exit asks it what is
//! left to undo.

use crate::apps_item::{AppsItem, AppsItemView};
use crate::downloadings::CancelRegistry;
use crate::manifest::{Manifest, ManifestView};
use crate::registry::{restored, AppsRegistry};
use vstd::prelude::*;
use vstd::string::*;

verus! {

/// Removes a directory at the end of a run, unless it was told to keep it.
#[derive(Debug)]
pub struct DirRemover {
    path: String,
    remove: bool,
}

impl DirRemover {
    /// The directory this guard watches.
    pub closed spec fn path(&self) -> Seq<char> {
        self.path@
    }

    /// Whether the directory is still to be removed.
    pub closed spec fn armed(&self) -> bool {
        self.remove
    }

    /// An armed guard for the directory `path`.
    pub fn new(path: &str) -> (guard: Self)
        ensures
            guard.path() == path@,
            guard.armed(),
    {
        Self { path: String::from_str(path), remove: true }
    }

    /// Disarms the guard: the directory stays.
    pub fn keep(&mut self)
        ensures
            final(self).path() == old(self).path(),
            !final(self).armed(),
    {
        self.remove = false;
    }

    /// Ends the guard: the directory to remove now, if the guard is armed.
    pub fn finish(self) -> (directory: Option<String>)
        ensures
            match directory {
                Some(path) => self.armed() && path@ == self.path(),
                None => !self.armed(),
            },
    {
        if self.remove {
            Some(self.path)
        } else {
            None
        }
    }
}

/// Takes the cancel slot of an update URL out of the cancellation registry
/// at the end of a download. It cannot be disarmed: the stored handle is
/// worth nothing once the download is over.
#[derive(Debug)]
pub struct SenderRemover {
    app_update_url: String,
}

impl SenderRemover {
    /// The update URL whose slot this guard removes.
    pub closed spec fn url(&self) -> Seq<char> {
        self.app_update_url@
    }

    /// A guard for the slot of `app_update_url`.
    pub fn new(app_update_url: &str) -> (guard: Self)
        ensures
            guard.url() == app_update_url@,
    {
        Self { app_update_url: String::from_str(app_update_url) }
    }

    /// Ends the guard: the slot of its URL leaves `downloadings`, whoever
    /// stored the handle that is in it.
    pub fn finish<H>(self, downloadings: &mut CancelRegistry<H>)
        ensures
            final(downloadings)@ == old(downloadings)@.remove(self.url()),
    {
        let _ = downloadings.remove(self.app_update_url.as_str());
    }
}

/// Puts the registry back to where it was when an installation or update
/// fails after it was registered.
#[derive(Debug)]
pub struct AppsStatusRestorer {
    need_restore: bool,
    is_update: bool,
    apps_item: AppsItem,
    manifest: Manifest,
}

impl AppsStatusRestorer {
    /// Whether the registry is still to be put back.
    pub closed spec fn armed(&self) -> bool {
        self.need_restore
    }

    /// Whether the run is an update.
    pub closed spec fn is_update(&self) -> bool {
        self.is_update
    }

    /// The record as it was before the run.
    pub closed spec fn snapshot(&self) -> AppsItemView {
        self.apps_item@
    }

    /// The manifest as it was before the run.
    pub closed spec fn manifest(&self) -> ManifestView {
        self.manifest@
    }

    /// An armed guard that holds the record and the manifest as they were
    /// before the run.
    pub fn new(is_update: bool, apps_item: AppsItem, manifest: Manifest) -> (guard: Self)
        ensures
            guard.armed(),
            guard.is_update() == is_update,
            guard.snapshot() == apps_item@,
            guard.manifest() == manifest@,
    {
        Self { need_restore: true, is_update, apps_item, manifest }
    }

    /// Disarms the guard: the registry stays as the run left it.
    pub fn dont_restore(&mut self)
        ensures
            !final(self).armed(),
            final(self).is_update() == old(self).is_update(),
            final(self).snapshot() == old(self).snapshot(),
            final(self).manifest() == old(self).manifest(),
    {
        self.need_restore = false;
    }

    /// Ends the guard: if it is armed, the registry is rolled back to the
    /// snapshot; if not, nothing changes.
    pub fn finish(self, registry: &mut AppsRegistry)
        ensures
            final(registry)@.apps == if self.armed() {
                restored(old(registry)@.apps, self.is_update(), self.snapshot(), self.manifest())
            } else {
                old(registry)@.apps
            },
            final(registry)@.events == old(registry)@.events,
            final(registry)@.vhost_port == old(registry)@.vhost_port,
    {
        if self.need_restore {
            registry.restore_apps_status(self.is_update, &self.apps_item, &self.manifest);
        }
    }
}

} // verus!
