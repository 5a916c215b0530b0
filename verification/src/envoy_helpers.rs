//! The configuration resources that are served to proxies, as plain values.

use vstd::prelude::*;
use vstd::string::*;

verus! {

/// The views of a list of strings, one for one.
pub open spec fn texts(v: Seq<String>) -> Seq<Seq<char>> {
    v.map_values(|s: String| s@)
}

/// Copies a list of strings.
pub fn clone_texts(v: &Vec<String>) -> (r: Vec<String>)
    ensures
        texts(r@) == texts(v@),
{
    let mut r: Vec<String> = Vec::new();
    let mut i: usize = 0;
    while i < v.len()
        invariant
            i <= v.len(),
            r.len() == i,
            forall|j: int| 0 <= j < i ==> r@[j]@ == v@[j]@,
        decreases v.len() - i,
    {
        r.push(v[i].clone());
        i += 1;
    }
    assert(texts(r@) =~= texts(v@));
    r
}

/// A network address: a host name or IP address and a port.
#[derive(Debug, PartialEq, Eq)]
pub struct SocketAddress {
    pub address: String,
    pub port: u32,
}

pub struct SocketAddressView {
    pub address: Seq<char>,
    pub port: u32,
}

impl View for SocketAddress {
    type V = SocketAddressView;

    open spec fn view(&self) -> SocketAddressView {
        SocketAddressView { address: self.address@, port: self.port }
    }
}

impl Clone for SocketAddress {
    fn clone(&self) -> (r: Self)
        ensures
            r@ == self@,
    {
        SocketAddress { address: self.address.clone(), port: self.port }
    }
}

/// How a proxy finds the endpoints of a cluster.
#[derive(Clone, Copy, Debug, PartialEq, Eq, Structural)]
pub enum DiscoveryType {
    Static,
    StrictDns,
    LogicalDns,
    Eds,
    OriginalDst,
}

/// An upstream that a proxy can route traffic to.
#[derive(Debug, PartialEq, Eq)]
pub struct Cluster {
    pub name: String,
    pub connect_timeout_seconds: u64,
    pub dns_refresh_seconds: u64,
    pub discovery: DiscoveryType,
    /// The single endpoint of the cluster's load assignment, which carries
    /// the cluster's own name.
    pub endpoint: SocketAddress,
}

pub struct ClusterView {
    pub name: Seq<char>,
    pub connect_timeout_seconds: u64,
    pub dns_refresh_seconds: u64,
    pub discovery: DiscoveryType,
    pub endpoint: SocketAddressView,
}

impl View for Cluster {
    type V = ClusterView;

    open spec fn view(&self) -> ClusterView {
        ClusterView {
            name: self.name@,
            connect_timeout_seconds: self.connect_timeout_seconds,
            dns_refresh_seconds: self.dns_refresh_seconds,
            discovery: self.discovery,
            endpoint: self.endpoint@,
        }
    }
}

impl Clone for Cluster {
    fn clone(&self) -> (r: Self)
        ensures
            r@ == self@,
    {
        Cluster {
            name: self.name.clone(),
            connect_timeout_seconds: self.connect_timeout_seconds,
            dns_refresh_seconds: self.dns_refresh_seconds,
            discovery: self.discovery,
            endpoint: self.endpoint.clone(),
        }
    }
}

/// The settings of a JWT authentication filter: one provider, whose keys
/// are fetched from `jwks_uri` through the cluster `jwks_cluster`, and one
/// rule that asks for that provider on every path under `rule_prefix`.
#[derive(Debug, PartialEq, Eq)]
pub struct JwtAuthentication {
    pub provider_name: String,
    pub issuer: String,
    pub audiences: Vec<String>,
    pub jwks_uri: String,
    pub jwks_cluster: String,
    pub jwks_timeout_seconds: u64,
    pub payload_in_metadata: String,
    pub header_name: String,
    pub header_prefix: String,
    pub forward: bool,
    pub rule_prefix: String,
}

pub struct JwtAuthenticationView {
    pub provider_name: Seq<char>,
    pub issuer: Seq<char>,
    pub audiences: Seq<Seq<char>>,
    pub jwks_uri: Seq<char>,
    pub jwks_cluster: Seq<char>,
    pub jwks_timeout_seconds: u64,
    pub payload_in_metadata: Seq<char>,
    pub header_name: Seq<char>,
    pub header_prefix: Seq<char>,
    pub forward: bool,
    pub rule_prefix: Seq<char>,
}

impl View for JwtAuthentication {
    type V = JwtAuthenticationView;

    open spec fn view(&self) -> JwtAuthenticationView {
        JwtAuthenticationView {
            provider_name: self.provider_name@,
            issuer: self.issuer@,
            audiences: texts(self.audiences@),
            jwks_uri: self.jwks_uri@,
            jwks_cluster: self.jwks_cluster@,
            jwks_timeout_seconds: self.jwks_timeout_seconds,
            payload_in_metadata: self.payload_in_metadata@,
            header_name: self.header_name@,
            header_prefix: self.header_prefix@,
            forward: self.forward,
            rule_prefix: self.rule_prefix@,
        }
    }
}

impl Clone for JwtAuthentication {
    fn clone(&self) -> (r: Self)
        ensures
            r@ == self@,
    {
        JwtAuthentication {
            provider_name: self.provider_name.clone(),
            issuer: self.issuer.clone(),
            audiences: clone_texts(&self.audiences),
            jwks_uri: self.jwks_uri.clone(),
            jwks_cluster: self.jwks_cluster.clone(),
            jwks_timeout_seconds: self.jwks_timeout_seconds,
            payload_in_metadata: self.payload_in_metadata.clone(),
            header_name: self.header_name.clone(),
            header_prefix: self.header_prefix.clone(),
            forward: self.forward,
            rule_prefix: self.rule_prefix.clone(),
        }
    }
}

/// One HTTP filter of a listener's connection manager.
#[derive(Debug, PartialEq, Eq)]
pub enum HttpFilter {
    /// Checks the request's token before it is routed.
    JwtAuthentication(JwtAuthentication),
    /// The terminal filter, which forwards the request to the routed cluster.
    Router,
}

pub enum HttpFilterView {
    JwtAuthentication(JwtAuthenticationView),
    Router,
}

impl View for HttpFilter {
    type V = HttpFilterView;

    open spec fn view(&self) -> HttpFilterView {
        match self {
            HttpFilter::JwtAuthentication(j) => HttpFilterView::JwtAuthentication(j@),
            HttpFilter::Router => HttpFilterView::Router,
        }
    }
}

impl Clone for HttpFilter {
    fn clone(&self) -> (r: Self)
        ensures
            r@ == self@,
    {
        match self {
            HttpFilter::JwtAuthentication(j) => HttpFilter::JwtAuthentication(j.clone()),
            HttpFilter::Router => HttpFilter::Router,
        }
    }
}

/// The views of a list of HTTP filters, one for one.
pub open spec fn filter_views(v: Seq<HttpFilter>) -> Seq<HttpFilterView> {
    v.map_values(|f: HttpFilter| f@)
}

/// Copies a list of HTTP filters.
pub fn clone_filters(v: &Vec<HttpFilter>) -> (r: Vec<HttpFilter>)
    ensures
        filter_views(r@) == filter_views(v@),
{
    let mut r: Vec<HttpFilter> = Vec::new();
    let mut i: usize = 0;
    while i < v.len()
        invariant
            i <= v.len(),
            r.len() == i,
            forall|j: int| 0 <= j < i ==> r@[j]@ == v@[j]@,
        decreases v.len() - i,
    {
        r.push(v[i].clone());
        i += 1;
    }
    assert(filter_views(r@) =~= filter_views(v@));
    r
}

/// A proxy-side entry point: where it binds, and the one filter chain it
/// runs, an HTTP connection manager with a single virtual host and a single
/// route.
#[derive(Debug, PartialEq, Eq)]
pub struct Listener {
    pub name: String,
    pub address: SocketAddress,
    pub stat_prefix: String,
    pub route_name: String,
    pub virtual_host_name: String,
    /// The host names that the virtual host answers for.
    pub domains: Vec<String>,
    /// The path prefix that the route matches.
    pub route_prefix: String,
    /// The cluster that matching requests are sent to.
    pub route_cluster: String,
    /// The HTTP filters in the order in which they run.
    pub http_filters: Vec<HttpFilter>,
}

pub struct ListenerView {
    pub name: Seq<char>,
    pub address: SocketAddressView,
    pub stat_prefix: Seq<char>,
    pub route_name: Seq<char>,
    pub virtual_host_name: Seq<char>,
    pub domains: Seq<Seq<char>>,
    pub route_prefix: Seq<char>,
    pub route_cluster: Seq<char>,
    pub http_filters: Seq<HttpFilterView>,
}

impl View for Listener {
    type V = ListenerView;

    open spec fn view(&self) -> ListenerView {
        ListenerView {
            name: self.name@,
            address: self.address@,
            stat_prefix: self.stat_prefix@,
            route_name: self.route_name@,
            virtual_host_name: self.virtual_host_name@,
            domains: texts(self.domains@),
            route_prefix: self.route_prefix@,
            route_cluster: self.route_cluster@,
            http_filters: filter_views(self.http_filters@),
        }
    }
}

impl Clone for Listener {
    fn clone(&self) -> (r: Self)
        ensures
            r@ == self@,
    {
        Listener {
            name: self.name.clone(),
            address: self.address.clone(),
            stat_prefix: self.stat_prefix.clone(),
            route_name: self.route_name.clone(),
            virtual_host_name: self.virtual_host_name.clone(),
            domains: clone_texts(&self.domains),
            route_prefix: self.route_prefix.clone(),
            route_cluster: self.route_cluster.clone(),
            http_filters: clone_filters(&self.http_filters),
        }
    }
}

/// A resource of one of the two kinds that are served.
#[derive(Debug, PartialEq, Eq)]
pub enum EnvoyResource {
    Cluster(Cluster),
    Listener(Listener),
}

pub enum EnvoyResourceView {
    Cluster(ClusterView),
    Listener(ListenerView),
}

impl View for EnvoyResource {
    type V = EnvoyResourceView;

    open spec fn view(&self) -> EnvoyResourceView {
        match self {
            EnvoyResource::Cluster(c) => EnvoyResourceView::Cluster(c@),
            EnvoyResource::Listener(l) => EnvoyResourceView::Listener(l@),
        }
    }
}

impl Clone for EnvoyResource {
    fn clone(&self) -> (r: Self)
        ensures
            r@ == self@,
    {
        match self {
            EnvoyResource::Cluster(c) => EnvoyResource::Cluster(c.clone()),
            EnvoyResource::Listener(l) => EnvoyResource::Listener(l.clone()),
        }
    }
}

/// A resource together with the key under which it is kept.
#[derive(Debug, PartialEq, Eq)]
pub struct EnvoyExport {
    pub key: String,
    pub config: EnvoyResource,
}

pub struct EnvoyExportView {
    pub key: Seq<char>,
    pub config: EnvoyResourceView,
}

impl View for EnvoyExport {
    type V = EnvoyExportView;

    open spec fn view(&self) -> EnvoyExportView {
        EnvoyExportView { key: self.key@, config: self.config@ }
    }
}

impl Clone for EnvoyExport {
    fn clone(&self) -> (r: Self)
        ensures
            r@ == self@,
    {
        EnvoyExport { key: self.key.clone(), config: self.config.clone() }
    }
}

pub type EnvoyExportList = Vec<EnvoyExport>;

/// The views of a list of exported resources, one for one.
pub open spec fn export_views(v: Seq<EnvoyExport>) -> Seq<EnvoyExportView> {
    v.map_values(|e: EnvoyExport| e@)
}

/// Copies a list of exported resources.
pub fn clone_exports(v: &Vec<EnvoyExport>) -> (r: Vec<EnvoyExport>)
    ensures
        export_views(r@) == export_views(v@),
{
    let mut r: Vec<EnvoyExport> = Vec::new();
    let mut i: usize = 0;
    while i < v.len()
        invariant
            i <= v.len(),
            r.len() == i,
            forall|j: int| 0 <= j < i ==> r@[j]@ == v@[j]@,
        decreases v.len() - i,
    {
        r.push(v[i].clone());
        i += 1;
    }
    assert(export_views(r@) =~= export_views(v@));
    r
}

/// What a URL parser makes of a text: nothing where the text is no
/// absolute URL, otherwise the URL's scheme, its host where it has one, and
/// its port where one is written that is not the scheme's default.
pub uninterp spec fn url_parts(target: Seq<char>) -> Option<
    (Seq<char>, Option<Seq<char>>, Option<u16>),
>;

/// The parts of a URL that a cluster is built from.
#[derive(Debug, PartialEq, Eq)]
pub struct UrlParts {
    pub scheme: String,
    pub host: Option<String>,
    pub port: Option<u16>,
}

impl View for UrlParts {
    type V = (Seq<char>, Option<Seq<char>>, Option<u16>);

    open spec fn view(&self) -> (Seq<char>, Option<Seq<char>>, Option<u16>) {
        (
            self.scheme@,
            match self.host {
                Some(h) => Some(h@),
                None => None,
            },
            self.port,
        )
    }
}

/// The view of parts that may be missing.
pub open spec fn parts_view(parts: Option<UrlParts>) -> Option<
    (Seq<char>, Option<Seq<char>>, Option<u16>),
> {
    match parts {
        Some(p) => Some(p@),
        None => None,
    }
}

/// Calls `url::Url::parse` and, on the URL it returns, `scheme`,
/// `host_str` and `port`. Trusted: the result is what the parser makes of
/// `target`, which depends on `target` alone; a text that the parser
/// rejects gives nothing.
#[verifier::external_body]
fn split_url(target: &str) -> (parts: Option<UrlParts>)
    ensures
        parts_view(parts) == url_parts(target@),
{
    match url::Url::parse(target) {
        Ok(u) => Some(
            UrlParts {
                scheme: u.scheme().to_string(),
                host: u.host_str().map(|h| h.to_string()),
                port: u.port(),
            },
        ),
        Err(_) => None,
    }
}

/// Why no cluster could be built for a URL.
#[derive(Clone, Copy, Debug, PartialEq, Eq, Structural)]
pub enum TargetUrlError {
    /// The text is no absolute URL.
    NotAUrl,
    /// The URL names no host.
    NoHost,
}

/// The port of a URL of this scheme that writes none.
pub open spec fn default_port(scheme: Seq<char>) -> u32 {
    if scheme == "https"@ {
        443
    } else {
        80
    }
}

/// The cluster `name` for the URL with these parts: found by DNS, at the
/// URL's host, and at its port or else the default port of its scheme.
pub open spec fn cluster_for_parts(
    name: Seq<char>,
    parts: (Seq<char>, Option<Seq<char>>, Option<u16>),
) -> Result<ClusterView, TargetUrlError> {
    match parts.1 {
        None => Err(TargetUrlError::NoHost),
        Some(host) => Ok(
            ClusterView {
                name,
                connect_timeout_seconds: 1,
                dns_refresh_seconds: 60,
                discovery: DiscoveryType::LogicalDns,
                endpoint: SocketAddressView {
                    address: host,
                    port: match parts.2 {
                        Some(p) => p as u32,
                        None => default_port(parts.0),
                    },
                },
            },
        ),
    }
}

/// The cluster `name` for a target URL.
pub open spec fn cluster_for_url(name: Seq<char>, target: Seq<char>) -> Result<
    ClusterView,
    TargetUrlError,
> {
    match url_parts(target) {
        None => Err(TargetUrlError::NotAUrl),
        Some(parts) => cluster_for_parts(name, parts),
    }
}

/// Builds the cluster `name` from the parts of its target URL. Fails
/// exactly where the URL names no host.
pub fn cluster_from_parts(name: String, parts: UrlParts) -> (r: Result<Cluster, TargetUrlError>)
    ensures
        match cluster_for_parts(name@, parts@) {
            Ok(c) => r is Ok && r->Ok_0@ == c,
            Err(e) => r is Err && r->Err_0 == e,
        },
{
    let UrlParts { scheme, host, port } = parts;
    let address = match host {
        None => {
            return Err(TargetUrlError::NoHost);
        },
        Some(h) => h,
    };
    let port_value: u32 = match port {
        Some(p) => p as u32,
        None => {
            if scheme == String::from_str("https") {
                443
            } else {
                80
            }
        },
    };
    Ok(
        Cluster {
            name,
            connect_timeout_seconds: 1,
            dns_refresh_seconds: 60,
            discovery: DiscoveryType::LogicalDns,
            endpoint: SocketAddress { address, port: port_value },
        },
    )
}

/// Builds the cluster `name` for a target URL. Fails where the text is no
/// absolute URL, and where the URL names no host.
pub fn get_envoy_cluster(name: String, target_url: String) -> (r: Result<Cluster, TargetUrlError>)
    ensures
        match cluster_for_url(name@, target_url@) {
            Ok(c) => r is Ok && r->Ok_0@ == c,
            Err(e) => r is Err && r->Err_0 == e,
        },
{
    match split_url(target_url.as_str()) {
        None => Err(TargetUrlError::NotAUrl),
        Some(parts) => cluster_from_parts(name, parts),
    }
}

} // verus!
