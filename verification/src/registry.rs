//! The application registry: one entry per application, found by its update
//! URL. No two entries share an update URL, and no two share a name.

use crate::apps_item::{
    object_of, AppsInstallState, AppsItem, AppsItemView, AppsObject, AppsUpdateState,
};
use crate::errors::AppsServiceError;
use crate::events::{AppsEvent, AppsEventView, DownloadFailedReason, EventBroadcaster};
use crate::manifest::{Manifest, ManifestView};
use crate::text::{concatenate, decimal, decimal_string, lemma_decimal_value};
use vstd::prelude::*;
use vstd::string::*;

verus! {

/// One entry of the registry: the record of an application and its manifest.
#[derive(Debug)]
pub struct AppEntry {
    pub item: AppsItem,
    pub manifest: Manifest,
}

/// Mathematical value of an [`AppEntry`].
pub struct AppEntryView {
    pub item: AppsItemView,
    pub manifest: ManifestView,
}

impl View for AppEntry {
    type V = AppEntryView;

    open spec fn view(&self) -> AppEntryView {
        AppEntryView { item: self.item@, manifest: self.manifest@ }
    }
}

/// Some entry of `apps` has the update URL `url`.
pub open spec fn has_url(apps: Seq<AppEntryView>, url: Seq<char>) -> bool {
    exists|i: int| 0 <= i < apps.len() && (#[trigger] apps[i]).item.update_url == url
}

/// The position of an entry of `apps` with the update URL `url`.
pub open spec fn url_index(apps: Seq<AppEntryView>, url: Seq<char>) -> int {
    choose|i: int| 0 <= i < apps.len() && (#[trigger] apps[i]).item.update_url == url
}

/// The entry of `apps` with the update URL `url`, if there is one.
pub open spec fn lookup(apps: Seq<AppEntryView>, url: Seq<char>) -> Option<AppEntryView> {
    if has_url(apps, url) {
        Some(apps[url_index(apps, url)])
    } else {
        None
    }
}

/// Some entry of `apps` has the name `name`.
pub open spec fn name_taken(apps: Seq<AppEntryView>, name: Seq<char>) -> bool {
    exists|i: int| 0 <= i < apps.len() && (#[trigger] apps[i]).item.name == name
}

/// Some entry of `apps` with another update URL than `url` has the name
/// `name`.
pub open spec fn name_taken_by_other(
    apps: Seq<AppEntryView>,
    name: Seq<char>,
    url: Seq<char>,
) -> bool {
    exists|i: int|
        0 <= i < apps.len() && (#[trigger] apps[i]).item.name == name && apps[i].item.update_url
            != url
}

/// No two entries of `apps` share an update URL, and no two share a name.
pub open spec fn unique(apps: Seq<AppEntryView>) -> bool {
    forall|i: int, j: int|
        0 <= i < j < apps.len() ==> (#[trigger] apps[i]).item.update_url != (
        #[trigger] apps[j]).item.update_url && apps[i].item.name != apps[j].item.name
}

/// `apps` after `entry` has been saved: it takes the place of the entry
/// with its update URL, or is added at the end.
pub open spec fn saved(apps: Seq<AppEntryView>, entry: AppEntryView) -> Seq<AppEntryView> {
    if has_url(apps, entry.item.update_url) {
        apps.update(url_index(apps, entry.item.update_url), entry)
    } else {
        apps.push(entry)
    }
}

/// `apps` without the entry that has the update URL `url`.
pub open spec fn removed(apps: Seq<AppEntryView>, url: Seq<char>) -> Seq<AppEntryView> {
    if has_url(apps, url) {
        apps.remove(url_index(apps, url))
    } else {
        apps
    }
}

/// `apps` after a failed installation or update has been rolled back.
///
/// For an installation the entry is removed. For an update the snapshot
/// comes back, marked as having an update available, unless its name now
/// belongs to another application; then nothing changes.
pub open spec fn restored(
    apps: Seq<AppEntryView>,
    is_update: bool,
    snapshot: AppsItemView,
    manifest: ManifestView,
) -> Seq<AppEntryView> {
    if !is_update {
        removed(apps, snapshot.update_url)
    } else if name_taken_by_other(apps, snapshot.name, snapshot.update_url) {
        apps
    } else {
        saved(
            apps,
            AppEntryView {
                item: AppsItemView { update_state: AppsUpdateState::Available, ..snapshot },
                manifest,
            },
        )
    }
}

/// The `k`-th name tried for an application that proposes `name`: the name
/// itself, then the name followed by 1, 2, 3 and so on.
pub open spec fn candidate(name: Seq<char>, k: nat) -> Seq<char> {
    if k == 0 {
        name
    } else {
        name + decimal(k)
    }
}

/// The name that the registry assigns to an application that proposes `name`
/// and updates from `url`.
///
/// An application that is already registered keeps its name. Otherwise it is
/// the first candidate that no entry has; an empty proposal is refused.
pub open spec fn unique_name(apps: Seq<AppEntryView>, name: Seq<char>, url: Seq<char>) -> Result<
    Seq<char>,
    AppsServiceError,
> {
    if has_url(apps, url) {
        Ok(apps[url_index(apps, url)].item.name)
    } else if name.len() == 0 {
        Err(AppsServiceError::InvalidAppName)
    } else {
        Ok(candidate(name, first_free(apps, name, 0)))
    }
}

/// The first `k` at or after `from` whose candidate no entry of `apps` has,
/// looking no further than the number of entries.
pub open spec fn first_free(apps: Seq<AppEntryView>, name: Seq<char>, from: nat) -> nat
    decreases apps.len() - from,
{
    if from >= apps.len() || !name_taken(apps, candidate(name, from)) {
        from
    } else {
        first_free(apps, name, from + 1)
    }
}

/// Different candidates for one proposal are different names.
pub proof fn lemma_candidates_differ(name: Seq<char>, j: nat, k: nat)
    requires
        j != k,
    ensures
        candidate(name, j) != candidate(name, k),
{
    lemma_decimal_value(j);
    lemma_decimal_value(k);
    if candidate(name, j) == candidate(name, k) {
        if j == 0 {
            assert((name + decimal(k)).len() == name.len() + decimal(k).len());
        } else if k == 0 {
            assert((name + decimal(j)).len() == name.len() + decimal(j).len());
        } else {
            let a = name + decimal(j);
            let b = name + decimal(k);
            assert(a.subrange(name.len() as int, a.len() as int) =~= decimal(j));
            assert(b.subrange(name.len() as int, b.len() as int) =~= decimal(k));
        }
    }
}

/// A function that maps the numbers from 0 to `n` into the numbers below
/// `n` gives the same value for two of them.
proof fn lemma_pigeonhole(n: nat, f: spec_fn(int) -> int)
    requires
        forall|k: int| 0 <= k <= n ==> 0 <= #[trigger] f(k) < n,
    ensures
        exists|j: int, k: int| 0 <= j < k <= n && #[trigger] f(j) == #[trigger] f(k),
    decreases n,
{
    if n == 0 {
        let first = f(0);
        assert(0 <= first < n);
    } else if exists|k: int| 0 <= k < n && #[trigger] f(k) == f(n as int) {
        let k = choose|k: int| 0 <= k < n && #[trigger] f(k) == f(n as int);
        assert(0 <= k < n <= n && f(k) == f(n as int));
    } else {
        let last = f(n as int);
        let g = |k: int|
            if f(k) == n - 1 {
                last
            } else {
                f(k)
            };
        assert forall|k: int| 0 <= k <= n - 1 implies 0 <= #[trigger] g(k) < n - 1 by {
            assert(f(k) != f(n as int));
            assert(0 <= f(k) < n);
        }
        lemma_pigeonhole((n - 1) as nat, g);
        let (j, k) = choose|j: int, k: int| 0 <= j < k <= n - 1 && #[trigger] g(j) == #[trigger] g(k);
        assert(f(j) != f(n as int));
        assert(f(k) != f(n as int));
        assert(0 <= j < k <= n && f(j) == f(k));
    }
}

/// The search for a free name always finds one: among the first candidates,
/// one more than there are entries, some candidate is the name of no entry.
pub proof fn lemma_first_free_is_free(apps: Seq<AppEntryView>, name: Seq<char>)
    ensures
        first_free(apps, name, 0) <= apps.len(),
        !name_taken(apps, candidate(name, first_free(apps, name, 0))),
        forall|k: nat| k < first_free(apps, name, 0) ==> name_taken(apps, #[trigger] candidate(name, k)),
{
    lemma_first_free(apps, name, 0);
    let found = first_free(apps, name, 0);
    if name_taken(apps, candidate(name, found)) {
        // Every candidate up to the number of entries is taken: each is the
        // name of an entry, and different candidates of different entries.
        assert(found == apps.len());
        let holder = |k: int|
            choose|i: int|
                0 <= i < apps.len() && (#[trigger] apps[i]).item.name == candidate(name, k as nat);
        assert forall|k: int| 0 <= k <= apps.len() implies 0 <= #[trigger] holder(k)
            < apps.len() && apps[holder(k)].item.name == candidate(name, k as nat) by {
            assert(name_taken(apps, candidate(name, k as nat)));
        }
        lemma_pigeonhole(apps.len(), holder);
        let (j, k) = choose|j: int, k: int|
            0 <= j < k <= apps.len() && #[trigger] holder(j) == #[trigger] holder(k);
        lemma_candidates_differ(name, j as nat, k as nat);
        assert(apps[holder(j)].item.name == candidate(name, j as nat));
        assert(apps[holder(k)].item.name == candidate(name, k as nat));
    }
}

/// The name that the registry assigns belongs to no other application.
pub proof fn lemma_unique_name_is_unique(apps: Seq<AppEntryView>, name: Seq<char>, url: Seq<char>)
    requires
        unique(apps),
    ensures
        unique_name(apps, name, url) matches Ok(assigned) ==> !name_taken_by_other(
            apps,
            assigned,
            url,
        ),
        unique_name(apps, name, url) is Err <==> !has_url(apps, url) && name.len() == 0,
{
    if has_url(apps, url) {
        let i = url_index(apps, url);
        let assigned = apps[i].item.name;
        assert forall|j: int|
            0 <= j < apps.len() && (#[trigger] apps[j]).item.name
                == assigned implies apps[j].item.update_url == url by {
            if j < i {
                assert(apps[j].item.name != apps[i].item.name);
            } else if i < j {
                assert(apps[i].item.name != apps[j].item.name);
            }
        }
    } else if name.len() > 0 {
        lemma_first_free_is_free(apps, name);
    }
}

proof fn lemma_first_free(apps: Seq<AppEntryView>, name: Seq<char>, from: nat)
    requires
        from <= apps.len(),
    ensures
        from <= first_free(apps, name, from) <= apps.len(),
        first_free(apps, name, from) < apps.len() ==> !name_taken(
            apps,
            candidate(name, first_free(apps, name, from)),
        ),
        forall|k: nat|
            from <= k < first_free(apps, name, from) ==> name_taken(
                apps,
                #[trigger] candidate(name, k),
            ),
    decreases apps.len() - from,
{
    if from < apps.len() && name_taken(apps, candidate(name, from)) {
        lemma_first_free(apps, name, from + 1);
    }
}

/// Mathematical value of an [`AppsRegistry`].
pub struct RegistryView {
    pub apps: Seq<AppEntryView>,
    pub vhost_port: u16,
    pub events: Seq<AppsEventView>,
}

/// The entries of the registry. Whatever is done to them, they stay unique.
#[derive(Debug)]
struct AppTable {
    entries: Vec<AppEntry>,
}

/// The registry of applications.
#[derive(Debug)]
pub struct AppsRegistry {
    table: AppTable,
    vhost_port: u16,
    /// The events that the registry has broadcast.
    pub event_broadcaster: EventBroadcaster,
}

/// The views of a list of entries.
pub open spec fn entries_view(list: Seq<AppEntry>) -> Seq<AppEntryView> {
    list.map_values(|entry: AppEntry| entry@)
}

impl View for AppTable {
    type V = Seq<AppEntryView>;

    closed spec fn view(&self) -> Seq<AppEntryView> {
        entries_view(self.entries@)
    }
}

impl View for AppsRegistry {
    type V = RegistryView;

    closed spec fn view(&self) -> RegistryView {
        RegistryView {
            apps: self.table@,
            vhost_port: self.vhost_port,
            events: self.event_broadcaster@,
        }
    }
}

/// Saving `entry` keeps the entries unique, provided its name is not that of
/// an application with another update URL.
pub proof fn lemma_saved_unique(apps: Seq<AppEntryView>, entry: AppEntryView)
    requires
        unique(apps),
        !name_taken_by_other(apps, entry.item.name, entry.item.update_url),
    ensures
        unique(saved(apps, entry)),
        has_url(saved(apps, entry), entry.item.update_url),
        lookup(saved(apps, entry), entry.item.update_url) == Some(entry),
{
    let after = saved(apps, entry);
    let url = entry.item.update_url;
    if has_url(apps, url) {
        let k = url_index(apps, url);
        assert(after[k] == entry);
        assert forall|i: int, j: int| 0 <= i < j < after.len() implies (#[trigger] after[i]).item.update_url
            != (#[trigger] after[j]).item.update_url && after[i].item.name
            != after[j].item.name by {
            if i == k {
                assert(apps[j].item.update_url != url);
                assert(apps[j].item.name != entry.item.name);
            } else if j == k {
                assert(apps[i].item.update_url != url);
                assert(apps[i].item.name != entry.item.name);
            } else {
                assert(after[i] == apps[i]);
                assert(after[j] == apps[j]);
            }
        }
    } else {
        let k = apps.len() as int;
        assert(after[k] == entry);
        assert forall|i: int, j: int| 0 <= i < j < after.len() implies (#[trigger] after[i]).item.update_url
            != (#[trigger] after[j]).item.update_url && after[i].item.name
            != after[j].item.name by {
            if j == k {
                assert(after[i] == apps[i]);
                assert(apps[i].item.update_url != url);
                assert(apps[i].item.name != entry.item.name);
            } else {
                assert(after[i] == apps[i]);
                assert(after[j] == apps[j]);
            }
        }
    }
    lemma_index_of_url(after, url, if has_url(apps, url) {
        url_index(apps, url)
    } else {
        apps.len() as int
    });
}

/// Among unique entries, the entry at `i` is the one that `url_index` finds
/// for its update URL.
pub proof fn lemma_index_of_url(apps: Seq<AppEntryView>, url: Seq<char>, i: int)
    requires
        unique(apps),
        0 <= i < apps.len(),
        apps[i].item.update_url == url,
    ensures
        has_url(apps, url),
        url_index(apps, url) == i,
        lookup(apps, url) == Some(apps[i]),
{
    let c = url_index(apps, url);
    assert(0 <= c < apps.len() && apps[c].item.update_url == url);
    if c < i {
        assert(apps[c].item.update_url != apps[i].item.update_url);
    } else if i < c {
        assert(apps[i].item.update_url != apps[c].item.update_url);
    }
}

/// Removing the entry for `url` keeps the entries unique and leaves none for
/// `url`.
pub proof fn lemma_removed_unique(apps: Seq<AppEntryView>, url: Seq<char>)
    requires
        unique(apps),
    ensures
        unique(removed(apps, url)),
        !has_url(removed(apps, url), url),
{
    let after = removed(apps, url);
    if has_url(apps, url) {
        let k = url_index(apps, url);
        assert forall|i: int| 0 <= i < after.len() implies #[trigger] after[i] == apps[if i < k {
            i
        } else {
            i + 1
        }] by {}
        assert forall|i: int, j: int| 0 <= i < j < after.len() implies (#[trigger] after[i]).item.update_url
            != (#[trigger] after[j]).item.update_url && after[i].item.name
            != after[j].item.name by {
            let a = if i < k {
                i
            } else {
                i + 1
            };
            let b = if j < k {
                j
            } else {
                j + 1
            };
            assert(after[i] == apps[a]);
            assert(after[j] == apps[b]);
            assert(apps[a].item.update_url != apps[b].item.update_url);
        }
        assert forall|i: int| 0 <= i < after.len() implies (#[trigger] after[i]).item.update_url
            != url by {
            let a = if i < k {
                i
            } else {
                i + 1
            };
            assert(after[i] == apps[a]);
            if a < k {
                assert(apps[a].item.update_url != apps[k].item.update_url);
            } else {
                assert(apps[k].item.update_url != apps[a].item.update_url);
            }
        }
    }
}

/// Rolling back keeps the entries unique.
pub proof fn lemma_restored_unique(
    apps: Seq<AppEntryView>,
    is_update: bool,
    snapshot: AppsItemView,
    manifest: ManifestView,
)
    requires
        unique(apps),
    ensures
        unique(restored(apps, is_update, snapshot, manifest)),
{
    if !is_update {
        lemma_removed_unique(apps, snapshot.update_url);
    } else if !name_taken_by_other(apps, snapshot.name, snapshot.update_url) {
        lemma_saved_unique(
            apps,
            AppEntryView {
                item: AppsItemView { update_state: AppsUpdateState::Available, ..snapshot },
                manifest,
            },
        );
    }
}

/// The record `item` once it has been applied: installed, idle, and with the
/// hash of the update manifest it came from.
pub open spec fn applied(item: AppsItemView, manifest_hash: Seq<char>) -> AppsItemView {
    AppsItemView {
        install_state: AppsInstallState::Installed,
        update_state: AppsUpdateState::Idle,
        manifest_hash,
        ..item
    }
}

/// The event that announces that `item` has been applied.
pub open spec fn applied_event(is_update: bool, item: AppsItemView) -> AppsEventView {
    if is_update {
        AppsEventView::AppUpdated(object_of(item))
    } else {
        AppsEventView::AppInstalled(object_of(item))
    }
}

/// Whether `entry` can be saved: an update needs the application to be
/// registered, and the name must not belong to another application.
pub open spec fn save_outcome(apps: Seq<AppEntryView>, is_update: bool, item: AppsItemView) -> Result<
    (),
    AppsServiceError,
> {
    if is_update && !has_url(apps, item.update_url) {
        Err(AppsServiceError::AppNotFound)
    } else if name_taken_by_other(apps, item.name, item.update_url) {
        Err(AppsServiceError::RegistrationError)
    } else {
        Ok(())
    }
}

impl AppTable {
    #[verifier::type_invariant]
    spec fn entries_are_unique(&self) -> bool {
        unique(entries_view(self.entries@))
    }

    fn new() -> (table: Self)
        ensures
            table@ == Seq::<AppEntryView>::empty(),
    {
        let table = AppTable { entries: Vec::new() };
        assert(table@ =~= Seq::<AppEntryView>::empty());
        table
    }

    fn len(&self) -> (count: usize)
        ensures
            count == self@.len(),
            unique(self@),
    {
        proof {
            use_type_invariant(self);
        }
        self.entries.len()
    }

    fn entry(&self, i: usize) -> (entry: &AppEntry)
        requires
            i < self@.len(),
        ensures
            entry@ == self@[i as int],
    {
        &self.entries[i]
    }

    fn find(&self, url: &str) -> (found: Option<usize>)
        ensures
            unique(self@),
            match found {
                Some(i) => i < self@.len() && has_url(self@, url@) && url_index(self@, url@) == i,
                None => !has_url(self@, url@),
            },
    {
        proof {
            use_type_invariant(self);
        }
        let mut i: usize = 0;
        while i < self.entries.len()
            invariant
                i <= self.entries@.len(),
                unique(self@),
                self@ == entries_view(self.entries@),
                forall|j: int| 0 <= j < i ==> (#[trigger] self@[j]).item.update_url != url@,
            decreases self.entries.len() - i,
        {
            if self.entries[i].item.has_update_url(url) {
                proof {
                    lemma_index_of_url(self@, url@, i as int);
                }
                return Some(i);
            }
            i = i + 1;
        }
        None
    }

    fn name_in_use(&self, name: &str) -> (used: bool)
        ensures
            used == name_taken(self@, name@),
    {
        let mut i: usize = 0;
        while i < self.entries.len()
            invariant
                i <= self.entries@.len(),
                self@ == entries_view(self.entries@),
                forall|j: int| 0 <= j < i ==> (#[trigger] self@[j]).item.name != name@,
            decreases self.entries.len() - i,
        {
            if self.entries[i].item.has_name(name) {
                assert(self@[i as int].item.name == name@);
                return true;
            }
            i = i + 1;
        }
        false
    }

    fn name_used_by_other(&self, name: &str, url: &str) -> (used: bool)
        ensures
            used == name_taken_by_other(self@, name@, url@),
    {
        let mut i: usize = 0;
        while i < self.entries.len()
            invariant
                i <= self.entries@.len(),
                self@ == entries_view(self.entries@),
                forall|j: int|
                    0 <= j < i ==> !((#[trigger] self@[j]).item.name == name@
                        && self@[j].item.update_url != url@),
            decreases self.entries.len() - i,
        {
            if self.entries[i].item.has_name(name) && !self.entries[i].item.has_update_url(url) {
                assert(self@[i as int].item.name == name@);
                return true;
            }
            i = i + 1;
        }
        false
    }

    /// Puts `entry` in the place of the entry with its update URL, or at the
    /// end where there is none.
    fn save(&mut self, entry: AppEntry)
        requires
            !name_taken_by_other(old(self)@, entry@.item.name, entry@.item.update_url),
        ensures
            final(self)@ == saved(old(self)@, entry@),
            unique(final(self)@),
    {
        let url = entry.item.get_update_url();
        let position = self.find(url.as_str());
        proof {
            lemma_saved_unique(self@, entry@);
        }
        let mut entries: Vec<AppEntry> = Vec::new();
        std::mem::swap(&mut entries, &mut self.entries);
        match position {
            Some(i) => {
                entries.set(i, entry);
            },
            None => {
                entries.push(entry);
            },
        }
        assert(entries_view(entries@) =~= saved(old(self)@, entry@));
        self.entries = entries;
    }

    /// Takes out the entry with the update URL `url`, if there is one.
    fn remove(&mut self, url: &str)
        ensures
            final(self)@ == removed(old(self)@, url@),
            unique(final(self)@),
    {
        let position = self.find(url);
        proof {
            lemma_removed_unique(self@, url@);
        }
        match position {
            Some(i) => {
                let mut entries: Vec<AppEntry> = Vec::new();
                std::mem::swap(&mut entries, &mut self.entries);
                let _ = entries.remove(i);
                assert(entries_view(entries@) =~= removed(old(self)@, url@));
                self.entries = entries;
            },
            None => {},
        }
    }
}

impl AppsRegistry {
    /// An empty registry whose local URLs use the port `vhost_port`.
    pub fn new(vhost_port: u16) -> (registry: Self)
        ensures
            registry@.apps == Seq::<AppEntryView>::empty(),
            registry@.vhost_port == vhost_port,
            registry@.events == Seq::<AppsEventView>::empty(),
    {
        AppsRegistry {
            table: AppTable::new(),
            vhost_port,
            event_broadcaster: EventBroadcaster::new(),
        }
    }

    /// Number of registered applications.
    pub fn count(&self) -> (count: usize)
        ensures
            count == self@.apps.len(),
            unique(self@.apps),
    {
        self.table.len()
    }

    pub fn get_vhost_port(&self) -> (port: u16)
        ensures
            port == self@.vhost_port,
    {
        self.vhost_port
    }

    /// The record of the application that updates from `update_url`.
    pub fn get_by_update_url(&self, update_url: &str) -> (found: Option<AppsItem>)
        ensures
            unique(self@.apps),
            match found {
                Some(item) => lookup(self@.apps, update_url@) matches Some(entry) && entry.item
                    == item@ && item@.update_url == update_url@,
                None => lookup(self@.apps, update_url@) is None,
            },
    {
        match self.table.find(update_url) {
            Some(i) => Some(self.table.entry(i).item.clone()),
            None => None,
        }
    }

    /// The manifest registered for the application that updates from
    /// `update_url`.
    pub fn get_manifest(&self, update_url: &str) -> (found: Option<Manifest>)
        ensures
            match found {
                Some(manifest) => lookup(self@.apps, update_url@) matches Some(entry)
                    && entry.manifest == manifest@,
                None => lookup(self@.apps, update_url@) is None,
            },
    {
        match self.table.find(update_url) {
            Some(i) => Some(self.table.entry(i).manifest.clone()),
            None => None,
        }
    }

    /// Assigns a name to the application that proposes `name` and updates
    /// from `update_url`.
    pub fn get_unique_name(&self, name: &str, update_url: &str) -> (assigned: Result<
        String,
        AppsServiceError,
    >)
        ensures
            match assigned {
                Ok(text) => unique_name(self@.apps, name@, update_url@) == Ok::<
                    Seq<char>,
                    AppsServiceError,
                >(text@) && !name_taken_by_other(self@.apps, text@, update_url@),
                Err(error) => unique_name(self@.apps, name@, update_url@) == Err::<
                    Seq<char>,
                    AppsServiceError,
                >(error),
            },
    {
        let _ = self.table.len();
        proof {
            lemma_unique_name_is_unique(self@.apps, name@, update_url@);
        }
        match self.table.find(update_url) {
            Some(i) => {
                return Ok(self.table.entry(i).item.get_name());
            },
            None => {},
        }
        if name.is_empty() {
            return Err(AppsServiceError::InvalidAppName);
        }
        let count = self.table.len();
        let mut k: usize = 0;
        let mut text = String::from_str(name);
        while k < count && self.table.name_in_use(text.as_str())
            invariant
                k <= count,
                count == self@.apps.len(),
                text@ == candidate(name@, k as nat),
                first_free(self@.apps, name@, 0) == first_free(self@.apps, name@, k as nat),
            decreases count - k,
        {
            k = k + 1;
            text = concatenate(name, decimal_string(k as u64).as_str());
        }
        Ok(text)
    }

    /// Saves `apps_item` with `manifest`: in place of the entry with its
    /// update URL, or as a new entry.
    pub fn save_app(&mut self, is_update: bool, apps_item: &AppsItem, manifest: &Manifest) -> (done:
        Result<(), AppsServiceError>)
        ensures
            done == save_outcome(old(self)@.apps, is_update, apps_item@),
            unique(final(self)@.apps),
            final(self)@.vhost_port == old(self)@.vhost_port,
            final(self)@.events == old(self)@.events,
            final(self)@.apps == if done is Ok {
                saved(old(self)@.apps, AppEntryView { item: apps_item@, manifest: manifest@ })
            } else {
                old(self)@.apps
            },
    {
        let url = apps_item.get_update_url();
        let name = apps_item.get_name();
        let position = self.table.find(url.as_str());
        if is_update && position.is_none() {
            return Err(AppsServiceError::AppNotFound);
        }
        if self.table.name_used_by_other(name.as_str(), url.as_str()) {
            return Err(AppsServiceError::RegistrationError);
        }
        self.table.save(AppEntry { item: apps_item.clone(), manifest: manifest.clone() });
        Ok(())
    }

    /// Rolls back a failed installation or update of the application whose
    /// record was `apps_item` before it began.
    pub fn restore_apps_status(&mut self, is_update: bool, apps_item: &AppsItem, manifest: &Manifest)
        ensures
            final(self)@.apps == restored(old(self)@.apps, is_update, apps_item@, manifest@),
            unique(final(self)@.apps),
            final(self)@.vhost_port == old(self)@.vhost_port,
            final(self)@.events == old(self)@.events,
    {
        let url = apps_item.get_update_url();
        if is_update {
            let mut item = apps_item.clone();
            item.set_update_state(AppsUpdateState::Available);
            let _ = self.save_app(false, &item, manifest);
        } else {
            self.table.remove(url.as_str());
        }
    }

    /// Announces that the installation or update of `apps_object` begins.
    pub fn broadcast_installing(&mut self, is_update: bool, apps_object: AppsObject)
        ensures
            final(self)@.events == old(self)@.events.push(
                AppsEventView::AppInstalling { is_update, apps_object: apps_object@ },
            ),
            final(self)@.apps == old(self)@.apps,
            final(self)@.vhost_port == old(self)@.vhost_port,
    {
        self.event_broadcaster.broadcast_app_installing(is_update, apps_object);
    }

    /// Announces that a download failed.
    pub fn broadcast_download_failed(&mut self, failed: DownloadFailedReason)
        ensures
            final(self)@.events == old(self)@.events.push(
                AppsEventView::AppDownloadFailed {
                    apps_object: failed.apps_object@,
                    reason: failed.reason,
                },
            ),
            final(self)@.apps == old(self)@.apps,
            final(self)@.vhost_port == old(self)@.vhost_port,
    {
        self.event_broadcaster.broadcast_app_download_failed(failed);
    }

    /// Registers the downloaded package as applied.
    ///
    /// The record becomes installed and idle and takes `manifest_hash`; it is
    /// saved with the manifest found in the package, and the event of the
    /// installation or update is broadcast. Where the record cannot be saved,
    /// nothing changes.
    pub fn apply_download(
        &mut self,
        apps_item: &mut AppsItem,
        manifest: &Manifest,
        manifest_hash: &str,
        is_update: bool,
    ) -> (done: Result<(), AppsServiceError>)
        ensures
            done == save_outcome(
                old(self)@.apps,
                is_update,
                applied(old(apps_item)@, manifest_hash@),
            ),
            unique(final(self)@.apps),
            final(self)@.vhost_port == old(self)@.vhost_port,
            done is Ok ==> {
                &&& final(apps_item)@ == applied(old(apps_item)@, manifest_hash@)
                &&& final(self)@.apps == saved(
                    old(self)@.apps,
                    AppEntryView { item: final(apps_item)@, manifest: manifest@ },
                )
                &&& final(self)@.events == old(self)@.events.push(
                    applied_event(is_update, final(apps_item)@),
                )
            },
            done is Err ==> {
                &&& final(apps_item)@ == old(apps_item)@
                &&& final(self)@.apps == old(self)@.apps
                &&& final(self)@.events == old(self)@.events
            },
    {
        let mut item = apps_item.clone();
        item.set_install_state(AppsInstallState::Installed);
        item.set_update_state(AppsUpdateState::Idle);
        item.set_manifest_hash(manifest_hash);
        match self.save_app(is_update, &item, manifest) {
            Ok(()) => {
                let apps_object = AppsObject::from(&item);
                if is_update {
                    self.event_broadcaster.broadcast(AppsEvent::AppUpdated(apps_object));
                } else {
                    self.event_broadcaster.broadcast(AppsEvent::AppInstalled(apps_object));
                }
                *apps_item = item;
                Ok(())
            },
            Err(error) => Err(error),
        }
    }

    /// Registers the cached progressive web app as applied: as
    /// [`Self::apply_download`] does for a new installation, with the
    /// rewritten manifest.
    pub fn apply_pwa(&mut self, apps_item: &mut AppsItem, manifest: &Manifest, manifest_hash: &str) -> (done:
        Result<(), AppsServiceError>)
        ensures
            done == save_outcome(old(self)@.apps, false, applied(old(apps_item)@, manifest_hash@)),
            unique(final(self)@.apps),
            final(self)@.vhost_port == old(self)@.vhost_port,
            done is Ok ==> {
                &&& final(apps_item)@ == applied(old(apps_item)@, manifest_hash@)
                &&& final(self)@.apps == saved(
                    old(self)@.apps,
                    AppEntryView { item: final(apps_item)@, manifest: manifest@ },
                )
                &&& final(self)@.events == old(self)@.events.push(
                    applied_event(false, final(apps_item)@),
                )
            },
            done is Err ==> {
                &&& final(apps_item)@ == old(apps_item)@
                &&& final(self)@.apps == old(self)@.apps
                &&& final(self)@.events == old(self)@.events
            },
    {
        self.apply_download(apps_item, manifest, manifest_hash, false)
    }
}

} // verus!
