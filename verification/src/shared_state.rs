//! The state that all requests share: the configuration, the registry and
//! the cancellation registry. The embedding program keeps it behind one
//! lock, which it holds for the length of one step and never while it
//! waits for a download.

use crate::downloadings::CancelRegistry;
use crate::registry::AppsRegistry;
use vstd::prelude::*;

verus! {

/// The configuration of the service.
#[derive(Debug, PartialEq, Eq)]
pub struct Config {
    pub root_path: String,
    /// Where applications are staged, cached and applied.
    pub data_path: String,
    pub uds_path: String,
    /// Which certificates the signature of a package is checked against.
    pub cert_type: String,
    pub updater_socket: String,
}

impl Clone for Config {
    fn clone(&self) -> (copy: Self)
        ensures
            copy == *self,
    {
        Config {
            root_path: self.root_path.clone(),
            data_path: self.data_path.clone(),
            uds_path: self.uds_path.clone(),
            cert_type: self.cert_type.clone(),
            updater_socket: self.updater_socket.clone(),
        }
    }
}

/// The state shared by all requests.
pub struct AppsSharedData<H> {
    pub config: Config,
    pub registry: AppsRegistry,
    pub downloadings: CancelRegistry<H>,
}

impl<H> AppsSharedData<H> {
    /// The shared state of a service that has registered nothing yet and
    /// has no download in flight.
    pub fn new(config: Config, vhost_port: u16) -> (shared: Self)
        ensures
            shared.registry@.apps.len() == 0,
            shared.registry@.vhost_port == vhost_port,
            shared.registry@.events.len() == 0,
            shared.downloadings@ == Map::<Seq<char>, H>::empty(),
            shared.config == config,
    {
        AppsSharedData {
            config,
            registry: AppsRegistry::new(vhost_port),
            downloadings: CancelRegistry::new(),
        }
    }
}

} // verus!
