//! The lifecycle events of the registry. The engine queues them in order; the
//! embedding program takes them from the queue and delivers them.

use crate::apps_item::{AppsObject, AppsObjectView};
use crate::errors::AppsServiceError;
use vstd::prelude::*;

verus! {

/// Why a download failed, and for which application.
#[derive(Debug, PartialEq, Eq)]
pub struct DownloadFailedReason {
    pub apps_object: AppsObject,
    pub reason: AppsServiceError,
}

/// One lifecycle event.
#[derive(Debug, PartialEq, Eq)]
pub enum AppsEvent {
    /// An installation (`is_update` false) or an update has been registered
    /// and is about to download.
    AppInstalling { is_update: bool, apps_object: AppsObject },
    /// A download failed.
    AppDownloadFailed(DownloadFailedReason),
    /// A new application has been applied.
    AppInstalled(AppsObject),
    /// An update has been applied.
    AppUpdated(AppsObject),
}

/// Mathematical value of an [`AppsEvent`].
pub enum AppsEventView {
    AppInstalling { is_update: bool, apps_object: AppsObjectView },
    AppDownloadFailed { apps_object: AppsObjectView, reason: AppsServiceError },
    AppInstalled(AppsObjectView),
    AppUpdated(AppsObjectView),
}

impl View for AppsEvent {
    type V = AppsEventView;

    open spec fn view(&self) -> AppsEventView {
        match self {
            AppsEvent::AppInstalling { is_update, apps_object } => AppsEventView::AppInstalling {
                is_update: *is_update,
                apps_object: apps_object@,
            },
            AppsEvent::AppDownloadFailed(failed) => AppsEventView::AppDownloadFailed {
                apps_object: failed.apps_object@,
                reason: failed.reason,
            },
            AppsEvent::AppInstalled(apps_object) => AppsEventView::AppInstalled(apps_object@),
            AppsEvent::AppUpdated(apps_object) => AppsEventView::AppUpdated(apps_object@),
        }
    }
}

/// The views of a list of events.
pub open spec fn events_view(list: Seq<AppsEvent>) -> Seq<AppsEventView> {
    list.map_values(|event: AppsEvent| event@)
}

/// The queue of events that have been broadcast and not yet delivered.
#[derive(Debug)]
pub struct EventBroadcaster {
    pending: Vec<AppsEvent>,
}

impl View for EventBroadcaster {
    type V = Seq<AppsEventView>;

    closed spec fn view(&self) -> Seq<AppsEventView> {
        events_view(self.pending@)
    }
}

impl EventBroadcaster {
    /// A broadcaster with nothing queued.
    pub fn new() -> (broadcaster: Self)
        ensures
            broadcaster@ == Seq::<AppsEventView>::empty(),
    {
        let broadcaster = EventBroadcaster { pending: Vec::new() };
        assert(broadcaster@ =~= Seq::<AppsEventView>::empty());
        broadcaster
    }

    /// Queues `event` behind the events already queued.
    pub fn broadcast(&mut self, event: AppsEvent)
        ensures
            final(self)@ == old(self)@.push(event@),
    {
        self.pending.push(event);
        assert(self@ =~= old(self)@.push(event@));
    }

    /// Queues the event that an installation or update is starting.
    pub fn broadcast_app_installing(&mut self, is_update: bool, apps_object: AppsObject)
        ensures
            final(self)@ == old(self)@.push(
                AppsEventView::AppInstalling { is_update, apps_object: apps_object@ },
            ),
    {
        self.broadcast(AppsEvent::AppInstalling { is_update, apps_object });
    }

    /// Queues the event that a download failed.
    pub fn broadcast_app_download_failed(&mut self, failed: DownloadFailedReason)
        ensures
            final(self)@ == old(self)@.push(
                AppsEventView::AppDownloadFailed {
                    apps_object: failed.apps_object@,
                    reason: failed.reason,
                },
            ),
    {
        self.broadcast(AppsEvent::AppDownloadFailed(failed));
    }

    /// Number of events waiting for delivery.
    pub fn pending_count(&self) -> (count: usize)
        ensures
            count == self@.len(),
    {
        self.pending.len()
    }

    /// Hands out the queued events, oldest first, and leaves the queue empty.
    pub fn take_pending(&mut self) -> (events: Vec<AppsEvent>)
        ensures
            events_view(events@) == old(self)@,
            final(self)@ == Seq::<AppsEventView>::empty(),
    {
        let mut events: Vec<AppsEvent> = Vec::new();
        std::mem::swap(&mut events, &mut self.pending);
        assert(self@ =~= Seq::<AppsEventView>::empty());
        events
    }
}

} // verus!
