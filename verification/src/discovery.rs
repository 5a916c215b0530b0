//! What the two discovery engines share: the response they emit, the type
//! identifiers of the two resource kinds, and the selection of one kind
//! from an export.

use vstd::prelude::*;
use vstd::string::*;
use crate::envoy_helpers::{
    Cluster, ClusterView, EnvoyExport, EnvoyExportView, EnvoyResource, EnvoyResourceView,
    Listener, ListenerView,
};

verus! {

/// The type identifier of cluster resources.
pub const CLUSTER_TYPE_URL: &'static str = "type.googleapis.com/envoy.config.cluster.v3.Cluster";

/// The type identifier of listener resources.
pub const LISTENER_TYPE_URL: &'static str = "type.googleapis.com/envoy.config.listener.v3.Listener";

/// The views of a list of resources, one for one.
pub open spec fn resource_views(v: Seq<EnvoyResource>) -> Seq<EnvoyResourceView> {
    v.map_values(|r: EnvoyResource| r@)
}

/// The views of a list of clusters, one for one.
pub open spec fn cluster_views(v: Seq<Cluster>) -> Seq<ClusterView> {
    v.map_values(|c: Cluster| c@)
}

/// The views of a list of listeners, one for one.
pub open spec fn listener_views(v: Seq<Listener>) -> Seq<ListenerView> {
    v.map_values(|l: Listener| l@)
}

/// One response of a discovery stream.
#[derive(Debug, PartialEq, Eq)]
pub struct DiscoveryResponse {
    /// The version of the snapshot that the resources were computed from,
    /// in decimal.
    pub version_info: String,
    /// The type identifier of the resources.
    pub type_url: String,
    pub resources: Vec<EnvoyResource>,
    /// Carried in every response and left empty.
    pub nonce: String,
}

pub struct DiscoveryResponseView {
    pub version_info: Seq<char>,
    pub type_url: Seq<char>,
    pub resources: Seq<EnvoyResourceView>,
    pub nonce: Seq<char>,
}

impl View for DiscoveryResponse {
    type V = DiscoveryResponseView;

    open spec fn view(&self) -> DiscoveryResponseView {
        DiscoveryResponseView {
            version_info: self.version_info@,
            type_url: self.type_url@,
            resources: resource_views(self.resources@),
            nonce: self.nonce@,
        }
    }
}

/// Why a discovery operation gave no response.
#[derive(Clone, Copy, Debug, PartialEq, Eq, Structural)]
pub enum DiscoveryError {
    /// The operation is part of the protocol and is not offered.
    NotImplemented,
}

impl DiscoveryError {
    /// The text that is reported to the client.
    pub fn message(&self) -> (s: String)
        ensures
            s@ == "not implemented"@,
    {
        String::from_str("not implemented")
    }
}

/// The clusters among exported resources, in their order.
pub open spec fn clusters_of(exports: Seq<EnvoyExportView>) -> Seq<ClusterView>
    decreases exports.len(),
{
    if exports.len() == 0 {
        Seq::empty()
    } else {
        match exports.last().config {
            EnvoyResourceView::Cluster(c) => clusters_of(exports.drop_last()).push(c),
            EnvoyResourceView::Listener(_) => clusters_of(exports.drop_last()),
        }
    }
}

/// The listeners among exported resources, in their order.
pub open spec fn listeners_of(exports: Seq<EnvoyExportView>) -> Seq<ListenerView>
    decreases exports.len(),
{
    if exports.len() == 0 {
        Seq::empty()
    } else {
        match exports.last().config {
            EnvoyResourceView::Cluster(_) => listeners_of(exports.drop_last()),
            EnvoyResourceView::Listener(l) => listeners_of(exports.drop_last()).push(l),
        }
    }
}

/// Clusters as resources, one for one.
pub open spec fn cluster_resources(clusters: Seq<ClusterView>) -> Seq<EnvoyResourceView> {
    clusters.map_values(|c: ClusterView| EnvoyResourceView::Cluster(c))
}

/// Listeners as resources, one for one.
pub open spec fn listener_resources(listeners: Seq<ListenerView>) -> Seq<EnvoyResourceView> {
    listeners.map_values(|l: ListenerView| EnvoyResourceView::Listener(l))
}

/// Picks the clusters out of exported resources.
pub fn select_clusters(exports: &Vec<EnvoyExport>) -> (r: Vec<Cluster>)
    ensures
        cluster_views(r@) == clusters_of(crate::envoy_helpers::export_views(exports@)),
{
    let ghost all = crate::envoy_helpers::export_views(exports@);
    let mut r: Vec<Cluster> = Vec::new();
    let mut i: usize = 0;
    assert(all.take(0) =~= Seq::<EnvoyExportView>::empty());
    assert(cluster_views(r@) =~= Seq::<ClusterView>::empty());
    while i < exports.len()
        invariant
            i <= exports.len(),
            all == crate::envoy_helpers::export_views(exports@),
            cluster_views(r@) == clusters_of(all.take(i as int)),
        decreases exports.len() - i,
    {
        proof {
            assert(all.take(i + 1).drop_last() =~= all.take(i as int));
            assert(all.take(i + 1).last() == exports@[i as int]@);
        }
        let ghost before = r@;
        match &exports[i].config {
            EnvoyResource::Cluster(c) => {
                r.push(c.clone());
                assert(cluster_views(r@) =~= cluster_views(before).push(c@));
            },
            EnvoyResource::Listener(_) => {},
        }
        i += 1;
    }
    assert(all.take(i as int) =~= all);
    r
}

/// Picks the listeners out of exported resources.
pub fn select_listeners(exports: &Vec<EnvoyExport>) -> (r: Vec<Listener>)
    ensures
        listener_views(r@) == listeners_of(crate::envoy_helpers::export_views(exports@)),
{
    let ghost all = crate::envoy_helpers::export_views(exports@);
    let mut r: Vec<Listener> = Vec::new();
    let mut i: usize = 0;
    assert(all.take(0) =~= Seq::<EnvoyExportView>::empty());
    assert(listener_views(r@) =~= Seq::<ListenerView>::empty());
    while i < exports.len()
        invariant
            i <= exports.len(),
            all == crate::envoy_helpers::export_views(exports@),
            listener_views(r@) == listeners_of(all.take(i as int)),
        decreases exports.len() - i,
    {
        proof {
            assert(all.take(i + 1).drop_last() =~= all.take(i as int));
            assert(all.take(i + 1).last() == exports@[i as int]@);
        }
        let ghost before = r@;
        match &exports[i].config {
            EnvoyResource::Cluster(_) => {},
            EnvoyResource::Listener(l) => {
                r.push(l.clone());
                assert(listener_views(r@) =~= listener_views(before).push(l@));
            },
        }
        i += 1;
    }
    assert(all.take(i as int) =~= all);
    r
}

} // verus!
