//! The discovery engine for listener resources.

use vstd::prelude::*;
use vstd::string::*;
use crate::configuration::{exported, Config, ConfigView};
use crate::discovery::{
    listener_resources, listener_views, listeners_of, resource_views, select_listeners,
    DiscoveryError, DiscoveryResponse, DiscoveryResponseView, LISTENER_TYPE_URL,
};
use crate::envoy_helpers::{
    export_views, Listener, ListenerView, EnvoyExport, EnvoyExportView, EnvoyResource,
    EnvoyResourceView,
};
use crate::util::text::{decimal, render_decimal};

verus! {

/// The state of one listener discovery stream: the version it last served,
/// its watermark, the listeners it computed for that version, and whether
/// its connection has closed.
#[derive(Debug)]
pub struct LDS {
    listeners: Vec<Listener>,
    version: u32,
    terminated: bool,
}

pub struct LDSView {
    pub listeners: Seq<ListenerView>,
    /// The watermark.
    pub version: u32,
    /// Whether the connection has closed; a stream that is not terminated
    /// is awaiting a change.
    pub terminated: bool,
}

impl View for LDS {
    type V = LDSView;

    closed spec fn view(&self) -> LDSView {
        LDSView {
            listeners: listener_views(self.listeners@),
            version: self.version,
            terminated: self.terminated,
        }
    }
}

/// Whether a stream emits when it is shown this version: it has not
/// terminated, and the version is ahead of its watermark.
pub open spec fn emits(state: LDSView, version: u32) -> bool {
    !state.terminated && version > state.version
}

/// The stream's state after it was shown the export of a snapshot with
/// this version: where it emits, the listeners of the export and the
/// version; otherwise the state as it was.
pub open spec fn advanced(state: LDSView, version: u32, exports: Seq<EnvoyExportView>) -> LDSView {
    if emits(state, version) {
        LDSView { listeners: listeners_of(exports), version, terminated: false }
    } else {
        state
    }
}

/// The stream's state after it has looked at the store: it was shown the
/// export of the store's snapshot with the snapshot's version.
pub open spec fn refreshed(state: LDSView, store: ConfigView) -> LDSView {
    advanced(state, store.version, exported(store.services))
}

/// The response that carries a stream's state.
pub open spec fn response_of(state: LDSView) -> DiscoveryResponseView {
    DiscoveryResponseView {
        version_info: decimal(state.version as nat),
        type_url: LISTENER_TYPE_URL@,
        resources: listener_resources(state.listeners),
        nonce: Seq::empty(),
    }
}

/// What a stream emits when it is shown the export of a snapshot with this
/// version: a response for the snapshot where the stream has not terminated
/// and the version is ahead of the watermark, and nothing otherwise.
pub open spec fn emission_of(
    state: LDSView,
    version: u32,
    exports: Seq<EnvoyExportView>,
) -> Option<DiscoveryResponseView> {
    if emits(state, version) {
        Some(response_of(advanced(state, version, exports)))
    } else {
        None
    }
}

/// What a stream emits when it looks at the store.
pub open spec fn emission(state: LDSView, store: ConfigView) -> Option<DiscoveryResponseView> {
    emission_of(state, store.version, exported(store.services))
}

impl Clone for LDS {
    fn clone(&self) -> (r: Self)
        ensures
            r@ == self@,
    {
        let mut listeners: Vec<Listener> = Vec::new();
        let mut i: usize = 0;
        while i < self.listeners.len()
            invariant
                i <= self.listeners.len(),
                listeners.len() == i,
                forall|j: int| 0 <= j < i ==> listeners@[j]@ == self.listeners@[j]@,
            decreases self.listeners.len() - i,
        {
            listeners.push(self.listeners[i].clone());
            i += 1;
        }
        assert(listener_views(listeners@) =~= listener_views(self.listeners@));
        LDS { listeners, version: self.version, terminated: self.terminated }
    }
}

impl LDS {
    /// A stream that has served nothing yet and awaits a change:
    /// watermark 0, no listeners.
    pub fn new() -> (r: LDS)
        ensures
            r@ == (LDSView { listeners: Seq::empty(), version: 0, terminated: false }),
    {
        let listeners: Vec<Listener> = Vec::new();
        assert(listener_views(listeners@) =~= Seq::<ListenerView>::empty());
        LDS { listeners, version: 0, terminated: false }
    }

    /// Whether the stream's connection has closed.
    pub fn is_terminated(&self) -> (t: bool)
        ensures
            t == self@.terminated,
    {
        self.terminated
    }

    /// Ends the stream when its connection closes: it gives up the listeners
    /// it held and emits nothing from then on.
    pub fn terminate(&mut self)
        ensures
            final(self)@ == (LDSView {
                listeners: Seq::empty(),
                version: old(self)@.version,
                terminated: true,
            }),
    {
        self.listeners = Vec::new();
        self.terminated = true;
        assert(listener_views(self.listeners@) =~= Seq::<ListenerView>::empty());
    }

    /// The version that was last served.
    pub fn get_version(&self) -> (v: u32)
        ensures
            v == self@.version,
    {
        self.version
    }

    /// Brings the stream up to the store's snapshot where the store is
    /// ahead of the watermark: the listeners and the watermark are taken
    /// from the same snapshot.
    pub fn refresh_data(&mut self, cfg: &Config)
        ensures
            final(self)@ == refreshed(old(self)@, cfg@),
    {
        if self.terminated || cfg.get_version() <= self.version {
            return ;
        }
        let exports = cfg.export_config_to_envoy();
        self.listeners = select_listeners(&exports);
        self.version = cfg.get_version();
    }

    /// One step of the stream on the export of a snapshot with this
    /// version, which the caller has computed, with the filters that the
    /// services' policies resolved to: where the version is ahead of the
    /// watermark, the stream takes the listeners of the export and the
    /// version, and the response for them is returned; otherwise the stream
    /// stays as it is and waits.
    pub fn poll_exports(&mut self, version: u32, exports: &Vec<EnvoyExport>) -> (r: Option<
        DiscoveryResponse,
    >)
        ensures
            final(self)@ == advanced(old(self)@, version, export_views(exports@)),
            match emission_of(old(self)@, version, export_views(exports@)) {
                Some(response) => r is Some && r->0@ == response,
                None => r is None,
            },
    {
        if self.terminated || version <= self.version {
            return None;
        }
        self.listeners = select_listeners(exports);
        self.version = version;
        let mut resources: Vec<EnvoyResource> = Vec::new();
        let mut i: usize = 0;
        while i < self.listeners.len()
            invariant
                i <= self.listeners.len(),
                resources.len() == i,
                forall|j: int|
                    0 <= j < i ==> resources@[j]@ == EnvoyResourceView::Listener(
                        self.listeners@[j]@,
                    ),
            decreases self.listeners.len() - i,
        {
            resources.push(EnvoyResource::Listener(self.listeners[i].clone()));
            i += 1;
        }
        assert(resource_views(resources@) =~= listener_resources(listener_views(self.listeners@)));
        Some(
            DiscoveryResponse {
                version_info: render_decimal(self.version),
                type_url: String::from_str(LISTENER_TYPE_URL),
                resources,
                nonce: String::new(),
            },
        )
    }

    /// One step of the stream: where the store is ahead of the watermark,
    /// the stream is refreshed and the response for the store's snapshot is
    /// returned; otherwise the stream stays as it is and waits.
    pub fn poll_next(&mut self, cfg: &Config) -> (r: Option<DiscoveryResponse>)
        ensures
            final(self)@ == refreshed(old(self)@, cfg@),
            match emission(old(self)@, cfg@) {
                Some(response) => r is Some && r->0@ == response,
                None => r is None,
            },
    {
        if self.terminated || cfg.get_version() <= self.version {
            return None;
        }
        let exports = cfg.export_config_to_envoy();
        self.poll_exports(cfg.get_version(), &exports)
    }

    /// The incremental variant of the stream, which is not offered.
    pub fn delta_listeners(&self) -> (r: Result<DiscoveryResponse, DiscoveryError>)
        ensures
            r is Err,
            r->Err_0 == DiscoveryError::NotImplemented,
    {
        Err(DiscoveryError::NotImplemented)
    }

    /// The single fetch of the current listeners, which is not offered.
    pub fn fetch_listeners(&self) -> (r: Result<DiscoveryResponse, DiscoveryError>)
        ensures
            r is Err,
            r->Err_0 == DiscoveryError::NotImplemented,
    {
        Err(DiscoveryError::NotImplemented)
    }
}

/// Two streams that are shown the same export, each with a watermark
/// behind the export's version, emit the same response, whose version
/// token is that version, and end in the same state, whatever they served
/// before.
pub proof fn lemma_convergence(
    a: LDSView,
    b: LDSView,
    version: u32,
    exports: Seq<EnvoyExportView>,
)
    requires
        !a.terminated,
        !b.terminated,
        a.version < version,
        b.version < version,
    ensures
        emission_of(a, version, exports) is Some,
        emission_of(a, version, exports) == emission_of(b, version, exports),
        emission_of(a, version, exports)->0.version_info == decimal(version as nat),
        emission_of(a, version, exports)->0.resources == listener_resources(listeners_of(exports)),
        advanced(a, version, exports) == advanced(b, version, exports),
{
}

/// Two streams that look at the same store, each with a watermark behind
/// the store's version, emit the same response, whose version token is the
/// store's version, and end in the same state, whatever they served before
/// and whichever started first.
pub proof fn lemma_watermark_convergence(a: LDSView, b: LDSView, store: ConfigView)
    requires
        !a.terminated,
        !b.terminated,
        a.version < store.version,
        b.version < store.version,
    ensures
        emission(a, store) is Some,
        emission(a, store) == emission(b, store),
        emission(a, store)->0.version_info == decimal(store.version as nat),
        emission(a, store)->0.resources == listener_resources(
            listeners_of(exported(store.services)),
        ),
        refreshed(a, store) == refreshed(b, store),
{
}

/// A stream whose watermark is the store's version emits nothing and stays
/// as it is.
pub proof fn lemma_no_redundant_emission(state: LDSView, store: ConfigView)
    requires
        state.version == store.version,
    ensures
        emission(state, store) is None,
        refreshed(state, store) == state,
{
}

/// A stream emits nothing for a version that is not ahead of its
/// watermark, whatever export it is shown, and stays as it is.
pub proof fn lemma_nothing_without_a_newer_version(
    state: LDSView,
    version: u32,
    exports: Seq<EnvoyExportView>,
)
    requires
        version <= state.version,
    ensures
        emission_of(state, version, exports) is None,
        advanced(state, version, exports) == state,
{
}

/// Once a stream was shown a version, being shown that version again
/// emits nothing: one response for each change of version.
pub proof fn lemma_one_response_per_version(
    state: LDSView,
    version: u32,
    exports: Seq<EnvoyExportView>,
    again: Seq<EnvoyExportView>,
)
    ensures
        emission_of(advanced(state, version, exports), version, again) is None,
{
}

/// A stream's watermark never goes back, and a response always carries a
/// version above the watermark that the stream had.
pub proof fn lemma_watermark_never_decreases(
    state: LDSView,
    version: u32,
    exports: Seq<EnvoyExportView>,
)
    ensures
        advanced(state, version, exports).version >= state.version,
        emission_of(state, version, exports) is Some ==> advanced(
            state,
            version,
            exports,
        ).version > state.version,
{
}

/// A stream that has terminated stays as it is and emits nothing,
/// whatever it is shown, and it holds no listeners once it was terminated.
pub proof fn lemma_terminated_is_final(
    state: LDSView,
    version: u32,
    exports: Seq<EnvoyExportView>,
)
    requires
        state.terminated,
    ensures
        emission_of(state, version, exports) is None,
        advanced(state, version, exports) == state,
{
}

} // verus!
