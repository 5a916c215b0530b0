//! Service descriptions and the resources that are built from them.

use vstd::prelude::*;
use vstd::string::*;
use crate::envoy_helpers::{
    clone_texts, filter_views, texts, Cluster, ClusterView, DiscoveryType, EnvoyExport,
    EnvoyExportView, EnvoyResource, EnvoyResourceView, HttpFilter, HttpFilterView, Listener,
    ListenerView, SocketAddress, SocketAddressView,
};
use crate::util::host_port::{any_host, parse, parse_spec, HostPortError};
use crate::util::text::{labelled, render_labelled};

verus! {

/// The port of an upstream whose address names none.
pub const DEFAULT_UPSTREAM_PORT: u32 = 80;

/// The port on which every listener binds.
pub const LISTENER_PORT: u32 = 80;

/// Seconds a proxy waits for a connection to an upstream.
pub const CONNECT_TIMEOUT_SECONDS: u64 = 1;

/// Seconds between two DNS lookups of an upstream's host.
pub const DNS_REFRESH_SECONDS: u64 = 60;

/// A backend service: the host names it is known under, the policies that
/// apply to it, and the upstream address that serves it.
#[derive(Debug, PartialEq, Eq)]
pub struct Service {
    pub id: u32,
    pub hosts: Vec<String>,
    pub policies: Vec<String>,
    pub target_domain: String,
}

pub struct ServiceView {
    pub id: u32,
    pub hosts: Seq<Seq<char>>,
    pub policies: Seq<Seq<char>>,
    pub target_domain: Seq<char>,
}

impl View for Service {
    type V = ServiceView;

    open spec fn view(&self) -> ServiceView {
        ServiceView {
            id: self.id,
            hosts: texts(self.hosts@),
            policies: texts(self.policies@),
            target_domain: self.target_domain@,
        }
    }
}

impl Clone for Service {
    fn clone(&self) -> (r: Self)
        ensures
            r@ == self@,
    {
        Service {
            id: self.id,
            hosts: clone_texts(&self.hosts),
            policies: clone_texts(&self.policies),
            target_domain: self.target_domain.clone(),
        }
    }
}

/// The name of the policy that asks for token authentication.
pub const JWT_POLICY: &'static str = "jwt";

/// What stood in the way of a service's export.
#[derive(Clone, Copy, Debug, PartialEq, Eq, Structural)]
pub enum ExportCause {
    /// The target address was rejected, so there is no cluster.
    Address(HostPortError),
    /// A policy could not be resolved, so there is no listener.
    Policy,
}

/// Why a service was left out of an export.
#[derive(Clone, Copy, Debug, PartialEq, Eq, Structural)]
pub struct ExportError {
    /// The id of the service that was left out.
    pub service: u32,
    pub cause: ExportCause,
}

/// The line for the log that tells of an error.
pub open spec fn message_spec(e: ExportError) -> Seq<char> {
    match e.cause {
        ExportCause::Address(_) => labelled(
            "failed to export cluster for service "@,
            e.service as nat,
            ""@,
        ),
        ExportCause::Policy => labelled(
            "failed to export listener for service "@,
            e.service as nat,
            ""@,
        ),
    }
}

impl ExportError {
    /// A line for the log that names the service and the resource that
    /// could not be built.
    pub fn message(&self) -> (s: String)
        ensures
            s@ == message_spec(*self),
    {
        match self.cause {
            ExportCause::Address(_) => render_labelled(
                "failed to export cluster for service ",
                self.service,
                "",
            ),
            ExportCause::Policy => render_labelled(
                "failed to export listener for service ",
                self.service,
                "",
            ),
        }
    }
}

/// The name of the cluster of the service with this id.
pub open spec fn cluster_name_spec(id: u32) -> Seq<char> {
    labelled("Cluster::service::"@, id as nat, ""@)
}

/// The key under which the cluster of a service is kept.
pub open spec fn cluster_key_spec(id: u32) -> Seq<char> {
    labelled("service::id::"@, id as nat, "::cluster"@)
}

/// The key under which the listener of a service is kept.
pub open spec fn listener_key_spec(id: u32) -> Seq<char> {
    labelled("service::id::"@, id as nat, "::listener"@)
}

/// The cluster of a service whose target address denotes `host` and `port`:
/// found by DNS, with the default port where the address names none.
pub open spec fn cluster_spec(id: u32, host: Seq<char>, port: Option<u32>) -> ClusterView {
    ClusterView {
        name: cluster_name_spec(id),
        connect_timeout_seconds: CONNECT_TIMEOUT_SECONDS,
        dns_refresh_seconds: DNS_REFRESH_SECONDS,
        discovery: DiscoveryType::LogicalDns,
        endpoint: SocketAddressView {
            address: host,
            port: match port {
                Some(p) => p,
                None => DEFAULT_UPSTREAM_PORT,
            },
        },
    }
}

/// The listener of a service: it answers for the service's host names,
/// sends every path to the service's cluster, and runs the policy filters
/// ahead of the router.
pub open spec fn listener_spec(s: ServiceView, policy_filters: Seq<HttpFilterView>) -> ListenerView {
    ListenerView {
        name: labelled("service "@, s.id as nat, ""@),
        address: SocketAddressView { address: any_host(), port: LISTENER_PORT },
        stat_prefix: "ingress_http"@,
        route_name: labelled("service_"@, s.id as nat, "_route"@),
        virtual_host_name: labelled("service_"@, s.id as nat, "_vhost"@),
        domains: s.hosts,
        route_prefix: "/"@,
        route_cluster: cluster_name_spec(s.id),
        http_filters: policy_filters.push(HttpFilterView::Router),
    }
}

/// What a service exports, given what the resolution of its policies gave
/// (nothing where it failed): its cluster, then its listener, each under
/// its key; or the error of its target address; or else the error of its
/// policies.
pub open spec fn export_resolved_spec(
    s: ServiceView,
    resolution: Option<Seq<HttpFilterView>>,
) -> Result<Seq<EnvoyExportView>, ExportError> {
    match parse_spec(s.target_domain) {
        Err(e) => Err(ExportError { service: s.id, cause: ExportCause::Address(e) }),
        Ok((host, port)) => match resolution {
            None => Err(ExportError { service: s.id, cause: ExportCause::Policy }),
            Some(policy_filters) => Ok(
                seq![
                    EnvoyExportView {
                        key: cluster_key_spec(s.id),
                        config: EnvoyResourceView::Cluster(cluster_spec(s.id, host, port)),
                    },
                    EnvoyExportView {
                        key: listener_key_spec(s.id),
                        config: EnvoyResourceView::Listener(listener_spec(s, policy_filters)),
                    },
                ],
            ),
        },
    }
}

/// What a service exports with the filters that its policies resolved to.
pub open spec fn export_with_spec(s: ServiceView, policy_filters: Seq<HttpFilterView>) -> Result<
    Seq<EnvoyExportView>,
    ExportError,
> {
    export_resolved_spec(s, Some(policy_filters))
}

/// The view of a resolution.
pub open spec fn resolution_view(resolution: Option<Vec<HttpFilter>>) -> Option<
    Seq<HttpFilterView>,
> {
    match resolution {
        Some(filters) => Some(filter_views(filters@)),
        None => None,
    }
}

/// What the policies of a service resolve to where no provider is asked:
/// a service without the `jwt` policy needs no filter, and one with it
/// stays unresolved.
pub open spec fn unasked(s: ServiceView) -> Option<Seq<HttpFilterView>> {
    if s.policies.contains(JWT_POLICY@) {
        None
    } else {
        Some(Seq::empty())
    }
}

/// What a service exports where no provider is asked.
pub open spec fn export_spec(s: ServiceView) -> Result<Seq<EnvoyExportView>, ExportError> {
    export_resolved_spec(s, unasked(s))
}

impl Service {
    /// Whether a policy of this service asks for token authentication, so
    /// that its export needs an authentication filter from the provider.
    pub fn requires_authentication(&self) -> (r: bool)
        ensures
            r == self@.policies.contains(JWT_POLICY@),
    {
        let wanted = String::from_str(JWT_POLICY);
        let mut i: usize = 0;
        while i < self.policies.len()
            invariant
                i <= self.policies.len(),
                wanted@ == JWT_POLICY@,
                forall|j: int| 0 <= j < i ==> self@.policies[j] != JWT_POLICY@,
            decreases self.policies.len() - i,
        {
            if self.policies[i] == wanted {
                assert(self@.policies[i as int] == JWT_POLICY@);
                return true;
            }
            i += 1;
        }
        false
    }

    /// The name of this service's cluster.
    pub fn cluster_name(&self) -> (name: String)
        ensures
            name@ == cluster_name_spec(self.id),
    {
        render_labelled("Cluster::service::", self.id, "")
    }

    /// Builds this service's cluster, or says why its target address was
    /// rejected.
    pub fn export_clusters(&self) -> (r: Result<Cluster, HostPortError>)
        ensures
            match parse_spec(self@.target_domain) {
                Ok((host, port)) => r is Ok && r->Ok_0@ == cluster_spec(self.id, host, port),
                Err(e) => r is Err && r->Err_0 == e,
            },
    {
        match parse(self.target_domain.as_str()) {
            Err(e) => Err(e),
            Ok((host, port)) => {
                let port_value = match port {
                    Some(p) => p,
                    None => DEFAULT_UPSTREAM_PORT,
                };
                Ok(
                    Cluster {
                        name: self.cluster_name(),
                        connect_timeout_seconds: CONNECT_TIMEOUT_SECONDS,
                        dns_refresh_seconds: DNS_REFRESH_SECONDS,
                        discovery: DiscoveryType::LogicalDns,
                        endpoint: SocketAddress { address: host, port: port_value },
                    },
                )
            },
        }
    }

    /// Builds this service's listener, with `policy_filters` ahead of the
    /// router.
    pub fn export_listener(&self, policy_filters: Vec<HttpFilter>) -> (l: Listener)
        ensures
            l@ == listener_spec(self@, filter_views(policy_filters@)),
    {
        let mut http_filters = policy_filters;
        http_filters.push(HttpFilter::Router);
        assert(filter_views(http_filters@) =~= filter_views(policy_filters@).push(
            HttpFilterView::Router,
        ));
        Listener {
            name: render_labelled("service ", self.id, ""),
            address: SocketAddress { address: String::from_str("0.0.0.0"), port: LISTENER_PORT },
            stat_prefix: String::from_str("ingress_http"),
            route_name: render_labelled("service_", self.id, "_route"),
            virtual_host_name: render_labelled("service_", self.id, "_vhost"),
            domains: clone_texts(&self.hosts),
            route_prefix: String::from_str("/"),
            route_cluster: self.cluster_name(),
            http_filters,
        }
    }

    /// Exports this service with the filters that its policies resolved to.
    ///
    /// Fails exactly where the target address is rejected; nothing is
    /// exported then.
    pub fn export_with(&self, policy_filters: Vec<HttpFilter>) -> (r: Result<
        Vec<EnvoyExport>,
        ExportError,
    >)
        ensures
            match export_with_spec(self@, filter_views(policy_filters@)) {
                Ok(list) => r is Ok && crate::envoy_helpers::export_views(r->Ok_0@) == list,
                Err(e) => r is Err && r->Err_0 == e,
            },
    {
        let cluster = match self.export_clusters() {
            Err(e) => {
                return Err(ExportError { service: self.id, cause: ExportCause::Address(e) });
            },
            Ok(c) => c,
        };
        let mut result: Vec<EnvoyExport> = Vec::new();
        result.push(
            EnvoyExport {
                key: render_labelled("service::id::", self.id, "::cluster"),
                config: EnvoyResource::Cluster(cluster),
            },
        );
        let listener = self.export_listener(policy_filters);
        result.push(
            EnvoyExport {
                key: render_labelled("service::id::", self.id, "::listener"),
                config: EnvoyResource::Listener(listener),
            },
        );
        assert(crate::envoy_helpers::export_views(result@) =~= export_with_spec(
            self@,
            filter_views(policy_filters@),
        )->Ok_0);
        Ok(result)
    }

    /// Exports this service, given what the resolution of its policies
    /// gave, or nothing where the resolution failed. A failed resolution
    /// fails the export like a rejected target address; where both stand
    /// in the way, the address is reported.
    pub fn export_resolved(&self, resolution: Option<Vec<HttpFilter>>) -> (r: Result<
        Vec<EnvoyExport>,
        ExportError,
    >)
        ensures
            match export_resolved_spec(self@, resolution_view(resolution)) {
                Ok(list) => r is Ok && crate::envoy_helpers::export_views(r->Ok_0@) == list,
                Err(e) => r is Err && r->Err_0 == e,
            },
    {
        match resolution {
            Some(policy_filters) => self.export_with(policy_filters),
            None => match self.export_clusters() {
                Err(e) => Err(ExportError { service: self.id, cause: ExportCause::Address(e) }),
                Ok(_) => Err(ExportError { service: self.id, cause: ExportCause::Policy }),
            },
        }
    }

    /// Exports this service where no provider is asked: its cluster, then
    /// its listener with the router as its only HTTP filter. A service that
    /// asks for token authentication cannot be exported this way.
    pub fn export(&self) -> (r: Result<Vec<EnvoyExport>, ExportError>)
        ensures
            match export_spec(self@) {
                Ok(list) => r is Ok && crate::envoy_helpers::export_views(r->Ok_0@) == list,
                Err(e) => r is Err && r->Err_0 == e,
            },
    {
        self.export_resolved(self.unasked_resolution())
    }

    /// What the policies of this service resolve to where no provider is
    /// asked.
    pub fn unasked_resolution(&self) -> (r: Option<Vec<HttpFilter>>)
        ensures
            resolution_view(r) == unasked(self@),
    {
        if self.requires_authentication() {
            None
        } else {
            let none: Vec<HttpFilter> = Vec::new();
            assert(filter_views(none@) =~= Seq::<HttpFilterView>::empty());
            Some(none)
        }
    }
}

} // verus!
