//! The cancellation registry: for each update URL with a download in
//! flight, the handle that cancels it.

use crate::string_map::StringMap;
use vstd::prelude::*;

verus! {

/// The downloads in flight, by update URL. The type of the cancel handle is
/// the caller's: the registry only stores it and hands it back. To cancel
/// the download of an update URL, `get` its handle and fire it.
pub type CancelRegistry<H> = StringMap<H>;

/// Records `canceller` as the way to cancel the download for `url`. A
/// handle recorded earlier for the same URL is overwritten in place.
pub fn set_or_update_canceller<H>(downloadings: &mut CancelRegistry<H>, url: &str, canceller: H)
    ensures
        final(downloadings)@ == old(downloadings)@.insert(url@, canceller),
{
    downloadings.set(url, canceller);
}

} // verus!
