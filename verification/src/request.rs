//! The two requests that need no pipeline: the check for an update, and the
//! broadcast that a download failed.

use crate::apps_item::{default_item, object_of, AppsItem, AppsItemView, AppsObject, AppsObjectView};
use crate::decider::{compare_version_hash, update_announced};
use crate::download::mgmt_result_view;
use crate::errors::{AppsMgmtError, AppsMgmtErrorView, AppsServiceError};
use crate::events::{AppsEventView, DownloadFailedReason};
use crate::manifest::{UpdateManifest, UpdateManifestView};
use crate::registry::{lookup, AppsRegistry};
use vstd::prelude::*;
use vstd::string::*;

verus! {

/// A check for an update that has found its application and awaits the
/// update manifest.
#[derive(Debug)]
pub struct UpdateCheck {
    /// The registered record of the application.
    pub app: AppsItem,
    /// Whether the check was started without the user asking.
    pub is_auto_update: bool,
}

/// Starts the check for an update of the application that updates from
/// `update_url`: the application must be registered. The registry is only
/// read.
pub fn check_for_update(registry: &AppsRegistry, update_url: &str, is_auto_update: bool) -> (outcome:
    Result<UpdateCheck, AppsServiceError>)
    ensures
        match outcome {
            Ok(check) => lookup(registry@.apps, update_url@) matches Some(entry) && check.app@
                == entry.item && check.is_auto_update == is_auto_update,
            Err(error) => lookup(registry@.apps, update_url@) is None && error
                == AppsServiceError::AppNotFound,
        },
{
    match registry.get_by_update_url(update_url) {
        Some(app) => Ok(UpdateCheck { app, is_auto_update }),
        None => Err(AppsServiceError::AppNotFound),
    }
}

/// What the caller of a check learns, given how the fetch of the update
/// manifest ended and what was staged.
///
/// An unchanged manifest means no update, any other failure of the fetch a
/// failed download. A staged manifest that announces an update gives the
/// application, with automatic download allowed exactly for an automatic
/// check.
pub open spec fn check_outcome(
    app: AppsItemView,
    is_auto_update: bool,
    fetch: Result<(), AppsMgmtErrorView>,
    update_manifest: Option<UpdateManifestView>,
    content: Seq<u8>,
) -> Result<Option<AppsObjectView>, AppsServiceError> {
    match fetch {
        Err(AppsMgmtErrorView::NotModified) => Ok(None),
        Err(_) => Err(AppsServiceError::DownloadManifestFailed),
        Ok(()) => if update_announced(app, update_manifest, content) {
            Ok(Some(AppsObjectView { allowed_auto_download: is_auto_update, ..object_of(app) }))
        } else {
            Ok(None)
        },
    }
}

/// Mathematical value of the outcome of a check.
pub open spec fn check_result_view(outcome: Result<Option<AppsObject>, AppsServiceError>) -> Result<
    Option<AppsObjectView>,
    AppsServiceError,
> {
    match outcome {
        Ok(Some(apps_object)) => Ok(Some(apps_object@)),
        Ok(None) => Ok(None),
        Err(error) => Err(error),
    }
}

impl UpdateCheck {
    /// Ends the check.
    ///
    /// `fetch` tells how the fetch of the update manifest ended. Where it
    /// succeeded, `update_manifest` is the staged document, or nothing where
    /// it did not parse, and `content` holds its bytes.
    pub fn fetched(
        &self,
        fetch: Result<(), AppsMgmtError>,
        update_manifest: Option<&UpdateManifest>,
        content: &[u8],
    ) -> (outcome: Result<Option<AppsObject>, AppsServiceError>)
        ensures
            check_result_view(outcome) == check_outcome(
                self.app@,
                self.is_auto_update,
                mgmt_result_view(fetch),
                match update_manifest {
                    Some(m) => Some(m@),
                    None => None,
                },
                content@,
            ),
    {
        match fetch {
            Ok(()) => {},
            Err(error) => {
                if error.is_not_modified() {
                    return Ok(None);
                }
                return Err(AppsServiceError::DownloadManifestFailed);
            },
        }
        if compare_version_hash(&self.app, update_manifest, content) {
            let mut app_obj = AppsObject::from(&self.app);
            app_obj.allowed_auto_download = self.is_auto_update;
            Ok(Some(app_obj))
        } else {
            Ok(None)
        }
    }
}

/// The application that a failed download is reported for: the one given,
/// or else one of which only the update URL is known.
pub open spec fn failed_object(update_url: Seq<char>, some_app: Option<AppsObjectView>) -> AppsObjectView {
    match some_app {
        Some(app) => app,
        None => object_of(
            AppsItemView { update_url, ..default_item(Seq::<char>::empty(), 0) },
        ),
    }
}

/// Broadcasts that the download for `update_url` failed for `reason`.
pub fn broadcast_download_failed(
    registry: &mut AppsRegistry,
    update_url: &str,
    reason: AppsServiceError,
    some_app: Option<AppsObject>,
)
    ensures
        final(registry)@.events == old(registry)@.events.push(
            AppsEventView::AppDownloadFailed {
                apps_object: failed_object(
                    update_url@,
                    match some_app {
                        Some(app) => Some(app@),
                        None => None,
                    },
                ),
                reason,
            },
        ),
        final(registry)@.apps == old(registry)@.apps,
        final(registry)@.vhost_port == old(registry)@.vhost_port,
{
    let apps_object = match some_app {
        Some(app) => app,
        None => {
            let mut apps_item = AppsItem::default("", 0);
            apps_item.set_update_url(update_url);
            proof {
                reveal_strlit("");
                assert(""@ =~= Seq::<char>::empty());
            }
            AppsObject::from(&apps_item)
        },
    };
    registry.broadcast_download_failed(DownloadFailedReason { apps_object, reason });
}

} // verus!
