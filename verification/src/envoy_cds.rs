//! The discovery engine for cluster resources.

use vstd::prelude::*;
use vstd::string::*;
use crate::configuration::{exported, Config, ConfigView};
use crate::discovery::{
    cluster_resources, cluster_views, clusters_of, resource_views, select_clusters,
    DiscoveryError, DiscoveryResponse, DiscoveryResponseView, CLUSTER_TYPE_URL,
};
use crate::envoy_helpers::{
    export_views, Cluster, ClusterView, EnvoyExport, EnvoyExportView, EnvoyResource,
    EnvoyResourceView,
};
use crate::util::text::{decimal, render_decimal};

verus! {

/// The state of one cluster discovery stream: the version it last served,
/// its watermark, the clusters it computed for that version, and whether
/// its connection has closed.
#[derive(Debug)]
pub struct CDS {
    clusters: Vec<Cluster>,
    version: u32,
    terminated: bool,
}

pub struct CDSView {
    pub clusters: Seq<ClusterView>,
    /// The watermark.
    pub version: u32,
    /// Whether the connection has closed; a stream that is not terminated
    /// is awaiting a change.
    pub terminated: bool,
}

impl View for CDS {
    type V = CDSView;

    closed spec fn view(&self) -> CDSView {
        CDSView {
            clusters: cluster_views(self.clusters@),
            version: self.version,
            terminated: self.terminated,
        }
    }
}

/// Whether a stream emits when it is shown this version: it has not
/// terminated, and the version is ahead of its watermark.
pub open spec fn emits(state: CDSView, version: u32) -> bool {
    !state.terminated && version > state.version
}

/// The stream's state after it was shown the export of a snapshot with
/// this version: where it emits, the clusters of the export and the
/// version; otherwise the state as it was.
pub open spec fn advanced(state: CDSView, version: u32, exports: Seq<EnvoyExportView>) -> CDSView {
    if emits(state, version) {
        CDSView { clusters: clusters_of(exports), version, terminated: false }
    } else {
        state
    }
}

/// The stream's state after it has looked at the store: it was shown the
/// export of the store's snapshot with the snapshot's version.
pub open spec fn refreshed(state: CDSView, store: ConfigView) -> CDSView {
    advanced(state, store.version, exported(store.services))
}

/// The response that carries a stream's state.
pub open spec fn response_of(state: CDSView) -> DiscoveryResponseView {
    DiscoveryResponseView {
        version_info: decimal(state.version as nat),
        type_url: CLUSTER_TYPE_URL@,
        resources: cluster_resources(state.clusters),
        nonce: Seq::empty(),
    }
}

/// What a stream emits when it is shown the export of a snapshot with this
/// version: a response for the snapshot where the stream has not terminated
/// and the version is ahead of the watermark, and nothing otherwise.
pub open spec fn emission_of(
    state: CDSView,
    version: u32,
    exports: Seq<EnvoyExportView>,
) -> Option<DiscoveryResponseView> {
    if emits(state, version) {
        Some(response_of(advanced(state, version, exports)))
    } else {
        None
    }
}

/// What a stream emits when it looks at the store.
pub open spec fn emission(state: CDSView, store: ConfigView) -> Option<DiscoveryResponseView> {
    emission_of(state, store.version, exported(store.services))
}

impl Clone for CDS {
    fn clone(&self) -> (r: Self)
        ensures
            r@ == self@,
    {
        let mut clusters: Vec<Cluster> = Vec::new();
        let mut i: usize = 0;
        while i < self.clusters.len()
            invariant
                i <= self.clusters.len(),
                clusters.len() == i,
                forall|j: int| 0 <= j < i ==> clusters@[j]@ == self.clusters@[j]@,
            decreases self.clusters.len() - i,
        {
            clusters.push(self.clusters[i].clone());
            i += 1;
        }
        assert(cluster_views(clusters@) =~= cluster_views(self.clusters@));
        CDS { clusters, version: self.version, terminated: self.terminated }
    }
}

impl CDS {
    /// A stream that has served nothing yet and awaits a change:
    /// watermark 0, no clusters.
    pub fn new() -> (r: CDS)
        ensures
            r@ == (CDSView { clusters: Seq::empty(), version: 0, terminated: false }),
    {
        let clusters: Vec<Cluster> = Vec::new();
        assert(cluster_views(clusters@) =~= Seq::<ClusterView>::empty());
        CDS { clusters, version: 0, terminated: false }
    }

    /// Whether the stream's connection has closed.
    pub fn is_terminated(&self) -> (t: bool)
        ensures
            t == self@.terminated,
    {
        self.terminated
    }

    /// Ends the stream when its connection closes: it gives up the clusters
    /// it held and emits nothing from then on.
    pub fn terminate(&mut self)
        ensures
            final(self)@ == (CDSView {
                clusters: Seq::empty(),
                version: old(self)@.version,
                terminated: true,
            }),
    {
        self.clusters = Vec::new();
        self.terminated = true;
        assert(cluster_views(self.clusters@) =~= Seq::<ClusterView>::empty());
    }

    /// The version that was last served.
    pub fn get_version(&self) -> (v: u32)
        ensures
            v == self@.version,
    {
        self.version
    }

    /// Brings the stream up to the store's snapshot where the store is
    /// ahead of the watermark: the clusters and the watermark are taken
    /// from the same snapshot.
    pub fn refresh_data(&mut self, cfg: &Config)
        ensures
            final(self)@ == refreshed(old(self)@, cfg@),
    {
        if self.terminated || cfg.get_version() <= self.version {
            return ;
        }
        let exports = cfg.export_config_to_envoy();
        self.clusters = select_clusters(&exports);
        self.version = cfg.get_version();
    }

    /// One step of the stream on the export of a snapshot with this
    /// version, which the caller has computed, with the filters that the
    /// services' policies resolved to: where the version is ahead of the
    /// watermark, the stream takes the clusters of the export and the
    /// version, and the response for them is returned; otherwise the stream
    /// stays as it is and waits.
    pub fn poll_exports(&mut self, version: u32, exports: &Vec<EnvoyExport>) -> (r: Option<
        DiscoveryResponse,
    >)
        ensures
            final(self)@ == advanced(old(self)@, version, export_views(exports@)),
            match emission_of(old(self)@, version, export_views(exports@)) {
                Some(response) => r is Some && r->0@ == response,
                None => r is None,
            },
    {
        if self.terminated || version <= self.version {
            return None;
        }
        self.clusters = select_clusters(exports);
        self.version = version;
        let mut resources: Vec<EnvoyResource> = Vec::new();
        let mut i: usize = 0;
        while i < self.clusters.len()
            invariant
                i <= self.clusters.len(),
                resources.len() == i,
                forall|j: int|
                    0 <= j < i ==> resources@[j]@ == EnvoyResourceView::Cluster(
                        self.clusters@[j]@,
                    ),
            decreases self.clusters.len() - i,
        {
            resources.push(EnvoyResource::Cluster(self.clusters[i].clone()));
            i += 1;
        }
        assert(resource_views(resources@) =~= cluster_resources(cluster_views(self.clusters@)));
        Some(
            DiscoveryResponse {
                version_info: render_decimal(self.version),
                type_url: String::from_str(CLUSTER_TYPE_URL),
                resources,
                nonce: String::new(),
            },
        )
    }

    /// One step of the stream: where the store is ahead of the watermark,
    /// the stream is refreshed and the response for the store's snapshot is
    /// returned; otherwise the stream stays as it is and waits.
    pub fn poll_next(&mut self, cfg: &Config) -> (r: Option<DiscoveryResponse>)
        ensures
            final(self)@ == refreshed(old(self)@, cfg@),
            match emission(old(self)@, cfg@) {
                Some(response) => r is Some && r->0@ == response,
                None => r is None,
            },
    {
        if self.terminated || cfg.get_version() <= self.version {
            return None;
        }
        let exports = cfg.export_config_to_envoy();
        self.poll_exports(cfg.get_version(), &exports)
    }

    /// The incremental variant of the stream, which is not offered.
    pub fn delta_clusters(&self) -> (r: Result<DiscoveryResponse, DiscoveryError>)
        ensures
            r is Err,
            r->Err_0 == DiscoveryError::NotImplemented,
    {
        Err(DiscoveryError::NotImplemented)
    }

    /// The single fetch of the current clusters, which is not offered.
    pub fn fetch_clusters(&self) -> (r: Result<DiscoveryResponse, DiscoveryError>)
        ensures
            r is Err,
            r->Err_0 == DiscoveryError::NotImplemented,
    {
        Err(DiscoveryError::NotImplemented)
    }
}

/// Two streams that are shown the same export, each with a watermark
/// behind the export's version, emit the same response, whose version
/// token is that version, and end in the same state, whatever they served
/// before.
pub proof fn lemma_convergence(
    a: CDSView,
    b: CDSView,
    version: u32,
    exports: Seq<EnvoyExportView>,
)
    requires
        !a.terminated,
        !b.terminated,
        a.version < version,
        b.version < version,
    ensures
        emission_of(a, version, exports) is Some,
        emission_of(a, version, exports) == emission_of(b, version, exports),
        emission_of(a, version, exports)->0.version_info == decimal(version as nat),
        emission_of(a, version, exports)->0.resources == cluster_resources(clusters_of(exports)),
        advanced(a, version, exports) == advanced(b, version, exports),
{
}

/// Two streams that look at the same store, each with a watermark behind
/// the store's version, emit the same response, whose version token is the
/// store's version, and end in the same state, whatever they served before
/// and whichever started first.
pub proof fn lemma_watermark_convergence(a: CDSView, b: CDSView, store: ConfigView)
    requires
        !a.terminated,
        !b.terminated,
        a.version < store.version,
        b.version < store.version,
    ensures
        emission(a, store) is Some,
        emission(a, store) == emission(b, store),
        emission(a, store)->0.version_info == decimal(store.version as nat),
        emission(a, store)->0.resources == cluster_resources(
            clusters_of(exported(store.services)),
        ),
        refreshed(a, store) == refreshed(b, store),
{
}

/// A stream whose watermark is the store's version emits nothing and stays
/// as it is.
pub proof fn lemma_no_redundant_emission(state: CDSView, store: ConfigView)
    requires
        state.version == store.version,
    ensures
        emission(state, store) is None,
        refreshed(state, store) == state,
{
}

/// A stream emits nothing for a version that is not ahead of its
/// watermark, whatever export it is shown, and stays as it is.
pub proof fn lemma_nothing_without_a_newer_version(
    state: CDSView,
    version: u32,
    exports: Seq<EnvoyExportView>,
)
    requires
        version <= state.version,
    ensures
        emission_of(state, version, exports) is None,
        advanced(state, version, exports) == state,
{
}

/// Once a stream was shown a version, being shown that version again
/// emits nothing: one response for each change of version.
pub proof fn lemma_one_response_per_version(
    state: CDSView,
    version: u32,
    exports: Seq<EnvoyExportView>,
    again: Seq<EnvoyExportView>,
)
    ensures
        emission_of(advanced(state, version, exports), version, again) is None,
{
}

/// A stream's watermark never goes back, and a response always carries a
/// version above the watermark that the stream had.
pub proof fn lemma_watermark_never_decreases(
    state: CDSView,
    version: u32,
    exports: Seq<EnvoyExportView>,
)
    ensures
        advanced(state, version, exports).version >= state.version,
        emission_of(state, version, exports) is Some ==> advanced(
            state,
            version,
            exports,
        ).version > state.version,
{
}

/// A stream that has terminated stays as it is and emits nothing,
/// whatever it is shown, and it holds no clusters once it was terminated.
pub proof fn lemma_terminated_is_final(
    state: CDSView,
    version: u32,
    exports: Seq<EnvoyExportView>,
)
    requires
        state.terminated,
    ensures
        emission_of(state, version, exports) is None,
        advanced(state, version, exports) == state,
{
}

} // verus!
