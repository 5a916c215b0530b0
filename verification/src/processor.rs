//! The control plane as one value: the store, and the round of the poller
//! that offers a source to it.

use vstd::prelude::*;
use crate::configuration::{
    digest_of, fingerprint, reload_outcome, reloaded, service_views, Config, ConfigView, Reload,
};
use crate::service::Service;
use crate::util::text::render_hex;

verus! {

/// Seconds between two readings of the configuration source.
pub const RELOAD_INTERVAL_SECONDS: u64 = 5;

/// The control plane: it owns the store that the poller writes and that
/// every discovery stream reads.
#[derive(Debug)]
pub struct MasterProcess {
    config: Config,
}

impl View for MasterProcess {
    type V = ConfigView;

    closed spec fn view(&self) -> ConfigView {
        self.config@
    }
}

impl Default for MasterProcess {
    /// A control plane with the empty store.
    fn default() -> (r: Self)
        ensures
            r@ == (ConfigView { services: Seq::empty(), hash: Seq::empty(), version: 0 }),
    {
        MasterProcess { config: Config::default() }
    }
}

impl MasterProcess {
    /// The store, for the discovery streams to look at.
    pub fn config(&self) -> (c: &Config)
        ensures
            c@ == self@,
    {
        &self.config
    }

    /// One round of the poller: the source was read as `raw_config` and
    /// parsed into `services`. It is imported where its fingerprint differs
    /// from that of the source in force; a source that is byte for byte the
    /// one in force changes nothing.
    pub fn config_thread(&mut self, raw_config: &str, services: Vec<Service>) -> (r: Reload)
        ensures
            r == reload_outcome(old(self)@, fingerprint(raw_config@)),
            final(self)@ == reloaded(old(self)@, service_views(services@), fingerprint(raw_config@)),
    {
        let hash = render_hex(digest_of(raw_config));
        self.config.reload(services, hash)
    }
}

} // verus!
