//! Settings of an OpenID Connect provider, and the authentication filter
//! and cluster that are built from them.

use vstd::prelude::*;
use vstd::string::*;
use crate::envoy_helpers::{
    clone_texts, cluster_for_url, filter_views, get_envoy_cluster, texts, Cluster, ClusterView,
    HttpFilter, HttpFilterView, JwtAuthentication, JwtAuthenticationView, TargetUrlError,
};
use crate::service::{resolution_view, unasked, Service, ServiceView, JWT_POLICY};
use crate::util::text::{labelled, render_labelled};

verus! {

/// The text that a JSON document holds under `key` at its top level:
/// nothing where the text is no JSON document, where the document is no
/// object or lacks the key, or where the value under the key is no string.
pub uninterp spec fn json_text_field(document: Seq<char>, key: Seq<char>) -> Option<Seq<char>>;

/// The view of a text that may be missing.
pub open spec fn text_view(text: Option<String>) -> Option<Seq<char>> {
    match text {
        Some(t) => Some(t@),
        None => None,
    }
}

/// Calls `serde_json::from_str` for a `serde_json::Value` and, on the value
/// it returns, `Value::get` with the key and `Value::as_str`. Trusted: the
/// result is the text under `key`, which depends on the two arguments
/// alone; a document that the parser rejects gives nothing.
#[verifier::external_body]
fn read_json_text_field(document: &str, key: &str) -> (text: Option<String>)
    ensures
        text_view(text) == json_text_field(document@, key@),
{
    let value: serde_json::Value = serde_json::from_str(document).ok()?;
    Some(value.get(key)?.as_str()?.to_string())
}

/// Why a provider's settings could not be completed or exported.
#[derive(Clone, Copy, Debug, PartialEq, Eq, Structural)]
pub enum OidcError {
    /// The provider's metadata does not say where its keys are.
    NoKeysLocation,
    /// The issuer is no absolute URL.
    IssuerNotAUrl,
    /// The issuer's URL names no host.
    IssuerWithoutHost,
}

/// The settings of one provider.
#[derive(Debug, PartialEq, Eq)]
pub struct OIDCConfig {
    issuer: String,
    audiences: Vec<String>,
    certs: String,
    cluster: String,
}

pub struct OIDCConfigView {
    pub issuer: Seq<char>,
    pub audiences: Seq<Seq<char>>,
    /// Where the provider's keys are fetched from.
    pub certs: Seq<char>,
    /// The name of the cluster through which the keys are fetched.
    pub cluster: Seq<char>,
}

impl View for OIDCConfig {
    type V = OIDCConfigView;

    closed spec fn view(&self) -> OIDCConfigView {
        OIDCConfigView {
            issuer: self.issuer@,
            audiences: texts(self.audiences@),
            certs: self.certs@,
            cluster: self.cluster@,
        }
    }
}

/// The path, below the issuer, of a provider's metadata document.
pub open spec fn metadata_path() -> Seq<char> {
    "/.well-known/openid-configuration"@
}

/// The name of the cluster through which the keys for a service are fetched.
pub open spec fn oidc_cluster_name(service_id: u32) -> Seq<char> {
    labelled("Service::"@, service_id as nat, "::OIDC"@)
}

/// The name of the provider of a service.
pub open spec fn provider_name(service_id: u32) -> Seq<char> {
    labelled("provider::service::"@, service_id as nat, ""@)
}

/// The settings once the location of the provider's keys is known: the
/// location and the cluster's name are recorded, and the audience
/// `admin-cli` is added.
pub open spec fn with_keys_location(
    state: OIDCConfigView,
    service_id: u32,
    jwks_uri: Seq<char>,
) -> OIDCConfigView {
    OIDCConfigView {
        issuer: state.issuer,
        audiences: state.audiences.push("admin-cli"@),
        certs: jwks_uri,
        cluster: oidc_cluster_name(service_id),
    }
}

/// The authentication filter for a service: one provider, found in the
/// `Authorization` header behind `Bearer `, whose keys are fetched through
/// the service's key cluster, and which is asked for on every path.
pub open spec fn authentication_spec(state: OIDCConfigView, service_id: u32) -> JwtAuthenticationView {
    JwtAuthenticationView {
        provider_name: provider_name(service_id),
        issuer: state.issuer,
        audiences: state.audiences,
        jwks_uri: state.certs,
        jwks_cluster: oidc_cluster_name(service_id),
        jwks_timeout_seconds: 100,
        payload_in_metadata: "jwt_payload"@,
        header_name: "Authorization"@,
        header_prefix: "Bearer "@,
        forward: false,
        rule_prefix: "/"@,
    }
}

/// The settings after an import of the provider's metadata.
pub open spec fn after_import(
    state: OIDCConfigView,
    service_id: u32,
    metadata: Seq<char>,
) -> OIDCConfigView {
    match json_text_field(metadata, "jwks_uri"@) {
        Some(uri) => with_keys_location(state, service_id, uri),
        None => state,
    }
}

/// What an export gives: the filter and the key cluster, or the reason why
/// there is none.
pub open spec fn export_outcome(
    state: OIDCConfigView,
    service_id: u32,
    metadata: Seq<char>,
) -> Result<(JwtAuthenticationView, ClusterView), OidcError> {
    if json_text_field(metadata, "jwks_uri"@) is None {
        Err(OidcError::NoKeysLocation)
    } else {
        match cluster_for_url(oidc_cluster_name(service_id), state.issuer) {
            Err(TargetUrlError::NotAUrl) => Err(OidcError::IssuerNotAUrl),
            Err(TargetUrlError::NoHost) => Err(OidcError::IssuerWithoutHost),
            Ok(cluster) => Ok(
                (authentication_spec(after_import(state, service_id, metadata), service_id), cluster),
            ),
        }
    }
}

impl OIDCConfig {
    /// The settings of the provider `issuer`, with nothing else known yet.
    pub fn new(issuer: String) -> (r: OIDCConfig)
        ensures
            r@ == fresh(issuer@),
    {
        let audiences: Vec<String> = Vec::new();
        assert(texts(audiences@) =~= Seq::<Seq<char>>::empty());
        OIDCConfig { issuer, audiences, certs: String::new(), cluster: String::new() }
    }

    /// Where the provider's metadata document is fetched from.
    pub fn metadata_url(&self) -> (url: String)
        ensures
            url@ == self@.issuer + metadata_path(),
    {
        let mut url = self.issuer.clone();
        url.append("/.well-known/openid-configuration");
        url
    }

    /// Records where the provider's keys are, for the service `service_id`.
    pub fn set_keys_location(&mut self, service_id: u32, jwks_uri: String)
        ensures
            final(self)@ == with_keys_location(old(self)@, service_id, jwks_uri@),
    {
        self.certs = jwks_uri;
        self.cluster = render_labelled("Service::", service_id, "::OIDC");
        self.audiences.push(String::from_str("admin-cli"));
        assert(texts(self.audiences@) =~= texts(old(self).audiences@).push("admin-cli"@));
    }

    /// Completes the settings from the provider's metadata document, which
    /// was fetched from `metadata_url`. Fails, and changes nothing, exactly
    /// where the document holds no text under `jwks_uri`.
    pub fn import_config(&mut self, service_id: u32, metadata: &str) -> (r: Result<(), OidcError>)
        ensures
            final(self)@ == after_import(old(self)@, service_id, metadata@),
            match json_text_field(metadata@, "jwks_uri"@) {
                Some(_) => r is Ok,
                None => r is Err && r->Err_0 == OidcError::NoKeysLocation,
            },
    {
        match read_json_text_field(metadata, "jwks_uri") {
            None => Err(OidcError::NoKeysLocation),
            Some(uri) => {
                self.set_keys_location(service_id, uri);
                Ok(())
            },
        }
    }

    /// The authentication filter that these settings describe for the
    /// service `service_id`.
    pub fn authentication(&self, service_id: u32) -> (filter: JwtAuthentication)
        ensures
            filter@ == authentication_spec(self@, service_id),
    {
        JwtAuthentication {
            provider_name: render_labelled("provider::service::", service_id, ""),
            issuer: self.issuer.clone(),
            audiences: clone_texts(&self.audiences),
            jwks_uri: self.certs.clone(),
            jwks_cluster: render_labelled("Service::", service_id, "::OIDC"),
            jwks_timeout_seconds: 100,
            payload_in_metadata: String::from_str("jwt_payload"),
            header_name: String::from_str("Authorization"),
            header_prefix: String::from_str("Bearer "),
            forward: false,
            rule_prefix: String::from_str("/"),
        }
    }

    /// Completes the settings from the provider's metadata and builds the
    /// authentication filter of the service together with the cluster
    /// through which the provider's keys are fetched.
    pub fn export(&mut self, service_id: u32, metadata: &str) -> (r: Result<
        (JwtAuthentication, Cluster),
        OidcError,
    >)
        ensures
            final(self)@ == after_import(old(self)@, service_id, metadata@),
            match export_outcome(old(self)@, service_id, metadata@) {
                Ok((filter, cluster)) => r is Ok && r->Ok_0.0@ == filter && r->Ok_0.1@ == cluster,
                Err(e) => r is Err && r->Err_0 == e,
            },
    {
        match self.import_config(service_id, metadata) {
            Err(e) => {
                return Err(e);
            },
            Ok(_) => {},
        }
        let cluster_name = render_labelled("Service::", service_id, "::OIDC");
        match get_envoy_cluster(cluster_name, self.issuer.clone()) {
            Err(TargetUrlError::NotAUrl) => Err(OidcError::IssuerNotAUrl),
            Err(TargetUrlError::NoHost) => Err(OidcError::IssuerWithoutHost),
            Ok(cluster) => Ok((self.authentication(service_id), cluster)),
        }
    }
}

/// The settings of a provider of which only the issuer is known.
pub open spec fn fresh(issuer: Seq<char>) -> OIDCConfigView {
    OIDCConfigView {
        issuer,
        audiences: Seq::empty(),
        certs: Seq::empty(),
        cluster: Seq::empty(),
    }
}

/// What the policies of a service resolve to, given the provider's issuer
/// and the provider's metadata where it could be fetched. A service without
/// the `jwt` policy needs no filter. A service with it gets the
/// authentication filter of the provider; where the metadata could not be
/// fetched, or no filter can be built from it, the resolution fails.
pub open spec fn resolution_spec(
    s: ServiceView,
    issuer: Seq<char>,
    metadata: Option<Seq<char>>,
) -> Option<Seq<HttpFilterView>> {
    if !s.policies.contains(JWT_POLICY@) {
        Some(Seq::empty())
    } else {
        match metadata {
            None => None,
            Some(document) => match export_outcome(fresh(issuer), s.id, document) {
                Ok((authentication, _)) => Some(
                    seq![HttpFilterView::JwtAuthentication(authentication)],
                ),
                Err(_) => None,
            },
        }
    }
}

/// Resolves the policies of a service into the filters of its listener.
/// `metadata` is the document that was fetched from the provider's
/// metadata location, or nothing where the fetch failed.
pub fn resolve_policies(service: &Service, issuer: &str, metadata: Option<&str>) -> (r: Option<
    Vec<HttpFilter>,
>)
    ensures
        resolution_view(r) == resolution_spec(
            service@,
            issuer@,
            match metadata {
                Some(document) => Some(document@),
                None => None,
            },
        ),
{
    if !service.requires_authentication() {
        let none: Vec<HttpFilter> = Vec::new();
        assert(filter_views(none@) =~= Seq::<HttpFilterView>::empty());
        return Some(none);
    }
    let document = match metadata {
        None => {
            return None;
        },
        Some(document) => document,
    };
    let mut provider = OIDCConfig::new(String::from_str(issuer));
    match provider.export(service.id, document) {
        Err(_) => None,
        Ok((authentication, _)) => {
            let mut filters: Vec<HttpFilter> = Vec::new();
            filters.push(HttpFilter::JwtAuthentication(authentication));
            assert(filter_views(filters@) =~= seq![
                HttpFilterView::JwtAuthentication(authentication@),
            ]);
            Some(filters)
        },
    }
}

/// Where the provider's metadata could not be fetched, the resolution is
/// the one of a provider that was not asked.
pub proof fn lemma_resolution_without_metadata(s: ServiceView, issuer: Seq<char>)
    ensures
        resolution_spec(s, issuer, None) == unasked(s),
{
}

} // verus!
