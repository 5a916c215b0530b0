//! The configuration store: the service list that is in force, the
//! fingerprint of the source it came from, and a version that counts the
//! imports.

use std::collections::hash_map::DefaultHasher;
use std::hash::Hasher;
use vstd::prelude::*;
use vstd::std_specs::hash::*;
use vstd::string::*;
use crate::envoy_helpers::{
    clone_filters, export_views, EnvoyExport, EnvoyExportList, EnvoyExportView, HttpFilter,
    HttpFilterView,
};
use crate::service::{
    export_resolved_spec, export_spec, resolution_view, unasked, ExportError, Service,
    ServiceView,
};
use crate::util::text::{hex, render_hex};

verus! {

/// The views of a list of services, one for one.
pub open spec fn service_views(v: Seq<Service>) -> Seq<ServiceView> {
    v.map_values(|s: Service| s@)
}

/// Copies a list of services.
pub fn clone_services(v: &Vec<Service>) -> (r: Vec<Service>)
    ensures
        service_views(r@) == service_views(v@),
{
    let mut r: Vec<Service> = Vec::new();
    let mut i: usize = 0;
    while i < v.len()
        invariant
            i <= v.len(),
            r.len() == i,
            forall|j: int| 0 <= j < i ==> r@[j]@ == v@[j]@,
        decreases v.len() - i,
    {
        r.push(v[i].clone());
        i += 1;
    }
    assert(service_views(r@) =~= service_views(v@));
    r
}

/// What the resolution of each service's policies gave, one for one.
pub open spec fn resolution_views(v: Seq<Option<Vec<HttpFilter>>>) -> Seq<
    Option<Seq<HttpFilterView>>,
> {
    v.map_values(|r: Option<Vec<HttpFilter>>| resolution_view(r))
}

/// The resolutions of a service list where no provider is asked.
pub open spec fn unasked_all(services: Seq<ServiceView>) -> Seq<Option<Seq<HttpFilterView>>> {
    Seq::new(services.len(), |i: int| unasked(services[i]))
}

/// What one service adds to an export: its resources, or nothing where it
/// cannot be exported.
pub open spec fn exported_one(s: ServiceView, resolution: Option<Seq<HttpFilterView>>) -> Seq<
    EnvoyExportView,
> {
    match export_resolved_spec(s, resolution) {
        Ok(list) => list,
        Err(_) => Seq::empty(),
    }
}

/// What the resolution of the policies of the service at position `i`
/// gave; a service for which the list holds nothing counts as unresolved.
pub open spec fn resolution_at(
    resolutions: Seq<Option<Seq<HttpFilterView>>>,
    i: int,
) -> Option<Seq<HttpFilterView>> {
    if 0 <= i < resolutions.len() {
        resolutions[i]
    } else {
        None
    }
}

/// The resources of a service list, given the resolution of each service's
/// policies, position by position: those of each service that can be
/// exported, in the order of the list.
pub open spec fn exported_with(
    services: Seq<ServiceView>,
    resolutions: Seq<Option<Seq<HttpFilterView>>>,
) -> Seq<EnvoyExportView>
    decreases services.len(),
{
    if services.len() == 0 {
        Seq::empty()
    } else {
        exported_with(services.drop_last(), resolutions) + exported_one(
            services.last(),
            resolution_at(resolutions, services.len() - 1),
        )
    }
}

/// The errors of a service list, given the resolution of each service's
/// policies, position by position: one for each service that cannot be
/// exported, in the order of the list.
pub open spec fn export_errors_with(
    services: Seq<ServiceView>,
    resolutions: Seq<Option<Seq<HttpFilterView>>>,
) -> Seq<ExportError>
    decreases services.len(),
{
    if services.len() == 0 {
        Seq::empty()
    } else {
        match export_resolved_spec(
            services.last(),
            resolution_at(resolutions, services.len() - 1),
        ) {
            Ok(_) => export_errors_with(services.drop_last(), resolutions),
            Err(e) => export_errors_with(services.drop_last(), resolutions).push(e),
        }
    }
}

/// The resources of a service list where no provider is asked.
pub open spec fn exported(services: Seq<ServiceView>) -> Seq<EnvoyExportView> {
    exported_with(services, unasked_all(services))
}

/// The errors of a service list where no provider is asked.
pub open spec fn export_errors(services: Seq<ServiceView>) -> Seq<ExportError> {
    export_errors_with(services, unasked_all(services))
}

/// The 64-bit digest of a source text, as the standard hasher computes it
/// from the text's bytes written at once.
pub open spec fn digest(content: Seq<char>) -> u64 {
    DefaultHasher::spec_finish(seq![vstd::utf8::encode_utf8(content)])
}

/// The fingerprint of a source text: its digest in hexadecimal.
pub open spec fn fingerprint(content: Seq<char>) -> Seq<char> {
    hex(digest(content) as nat)
}

/// Computes the digest of a source text.
pub fn digest_of(content: &str) -> (d: u64)
    ensures
        d == digest(content@),
{
    let mut hasher = DefaultHasher::new();
    hasher.write(content.as_bytes());
    assert(hasher@ =~= seq![vstd::utf8::encode_utf8(content@)]);
    hasher.finish()
}

/// The configuration store.
#[derive(Debug)]
pub struct Config {
    services: Vec<Service>,
    hash: String,
    version: u32,
}

pub struct ConfigView {
    pub services: Seq<ServiceView>,
    pub hash: Seq<char>,
    pub version: u32,
}

impl View for Config {
    type V = ConfigView;

    closed spec fn view(&self) -> ConfigView {
        ConfigView {
            services: service_views(self.services@),
            hash: self.hash@,
            version: self.version,
        }
    }
}

impl Clone for Config {
    fn clone(&self) -> (r: Self)
        ensures
            r@ == self@,
    {
        Config {
            services: clone_services(&self.services),
            hash: self.hash.clone(),
            version: self.version,
        }
    }
}

impl Default for Config {
    /// The empty store: no service, no fingerprint, version 0.
    fn default() -> (r: Self)
        ensures
            r@ == (ConfigView { services: Seq::empty(), hash: Seq::empty(), version: 0 }),
    {
        let services: Vec<Service> = Vec::new();
        assert(service_views(services@) =~= Seq::<ServiceView>::empty());
        Config { services, hash: String::new(), version: 0 }
    }
}

/// What became of a source that was offered to the store.
#[derive(Clone, Copy, Debug, PartialEq, Eq, Structural)]
pub enum Reload {
    /// The source differed from the one in force and was imported.
    Imported,
    /// The source has the fingerprint of the one in force; nothing changed.
    Unchanged,
    /// The version counter has reached its last value; nothing changed.
    Exhausted,
}

impl Config {
    /// A store at version 0 that holds the services of a source that was
    /// just read, and the source's fingerprint.
    pub fn parse_config(raw_config: &str, services: Vec<Service>) -> (r: Config)
        ensures
            r@ == (ConfigView {
                services: service_views(services@),
                hash: fingerprint(raw_config@),
                version: 0,
            }),
    {
        let mut config = Config { services, hash: String::new(), version: 0 };
        config.set_hash(raw_config);
        config
    }

    /// A store that takes up a snapshot that was kept: its services, its
    /// fingerprint and its version.
    pub fn from_snapshot(services: Vec<Service>, hash: String, version: u32) -> (r: Config)
        ensures
            r@ == (ConfigView { services: service_views(services@), hash: hash@, version }),
    {
        Config { services, hash, version }
    }

    /// Records the fingerprint of `content` and returns its digest.
    pub fn set_hash(&mut self, content: &str) -> (d: u64)
        ensures
            d == digest(content@),
            final(self)@ == (ConfigView { hash: fingerprint(content@), ..old(self)@ }),
    {
        let d = digest_of(content);
        self.hash = render_hex(d);
        d
    }

    /// The fingerprint of the source in force.
    pub fn get_hash(&self) -> (h: String)
        ensures
            h@ == self@.hash,
    {
        self.hash.clone()
    }

    /// The number of imports so far.
    pub fn get_version(&self) -> (v: u32)
        ensures
            v == self@.version,
    {
        self.version
    }

    /// A copy of the services in force.
    pub fn get_services(&self) -> (s: Vec<Service>)
        ensures
            service_views(s@) == self@.services,
    {
        clone_services(&self.services)
    }

    /// The services in force together with the version they belong to.
    pub fn snapshot(&self) -> (r: (Vec<Service>, u32))
        ensures
            service_views(r.0@) == self@.services,
            r.1 == self@.version,
    {
        (clone_services(&self.services), self.version)
    }

    /// Replaces the service list and the fingerprint, and advances the
    /// version by one. The store does not compare fingerprints here.
    pub fn import(&mut self, services: Vec<Service>, hash: String)
        requires
            old(self)@.version < u32::MAX,
        ensures
            final(self)@ == imported(old(self)@, service_views(services@), hash@),
    {
        self.services = services;
        self.hash = hash;
        self.version += 1;
    }

    /// Offers a source that was read again: it is imported where its
    /// fingerprint differs from the one in force, and left aside otherwise.
    pub fn reload(&mut self, services: Vec<Service>, hash: String) -> (r: Reload)
        ensures
            r == reload_outcome(old(self)@, hash@),
            final(self)@ == reloaded(old(self)@, service_views(services@), hash@),
    {
        if self.hash == hash {
            Reload::Unchanged
        } else if self.version == u32::MAX {
            Reload::Exhausted
        } else {
            self.import(services, hash);
            Reload::Imported
        }
    }

    /// Exports every service, given what the resolution of each service's
    /// policies gave, position by position, and keeps the resources of
    /// those that can be exported beside the errors of those that cannot.
    /// A service for which `resolutions` holds nothing counts as
    /// unresolved.
    pub fn export_report_with(&self, resolutions: &Vec<Option<Vec<HttpFilter>>>) -> (r: (
        Vec<EnvoyExport>,
        Vec<ExportError>,
    ))
        ensures
            export_views(r.0@) == exported_with(self@.services, resolution_views(resolutions@)),
            r.1@ == export_errors_with(self@.services, resolution_views(resolutions@)),
    {
        let mut result: Vec<EnvoyExport> = Vec::new();
        let mut errors: Vec<ExportError> = Vec::new();
        let ghost all = service_views(self.services@);
        let ghost given = resolution_views(resolutions@);
        let mut i: usize = 0;
        assert(all.take(0) =~= Seq::<ServiceView>::empty());
        assert(export_views(result@) =~= Seq::<EnvoyExportView>::empty());
        while i < self.services.len()
            invariant
                i <= self.services.len(),
                all == service_views(self.services@),
                given == resolution_views(resolutions@),
                export_views(result@) == exported_with(all.take(i as int), given),
                errors@ == export_errors_with(all.take(i as int), given),
            decreases self.services.len() - i,
        {
            proof {
                assert(all.take(i + 1).drop_last() =~= all.take(i as int));
                assert(all.take(i + 1).last() == self.services@[i as int]@);
            }
            let ghost before = result@;
            let resolution = if i < resolutions.len() {
                match &resolutions[i] {
                    Some(filters) => Some(clone_filters(filters)),
                    None => None,
                }
            } else {
                None
            };
            assert(resolution_view(resolution) == resolution_at(given, i as int));
            match self.services[i].export_resolved(resolution) {
                Ok(list) => {
                    let mut list = list;
                    let ghost added = list@;
                    result.append(&mut list);
                    assert(export_views(result@) =~= export_views(before) + export_views(added));
                },
                Err(e) => {
                    errors.push(e);
                    assert(export_views(result@) =~= export_views(before) + Seq::<
                        EnvoyExportView,
                    >::empty());
                },
            }
            i += 1;
        }
        assert(all.take(i as int) =~= all);
        (result, errors)
    }

    /// Exports every service where no provider is asked, and keeps the
    /// resources of those that can be exported beside the errors of those
    /// that cannot: the services with a malformed target address, and
    /// those that ask for token authentication.
    pub fn export_report(&self) -> (r: (Vec<EnvoyExport>, Vec<ExportError>))
        ensures
            export_views(r.0@) == exported(self@.services),
            r.1@ == export_errors(self@.services),
    {
        let mut resolutions: Vec<Option<Vec<HttpFilter>>> = Vec::new();
        let mut i: usize = 0;
        while i < self.services.len()
            invariant
                i <= self.services.len(),
                resolutions@.len() == i,
                forall|j: int|
                    0 <= j < i ==> resolution_view(#[trigger] resolutions@[j]) == unasked(
                        self.services@[j]@,
                    ),
            decreases self.services.len() - i,
        {
            resolutions.push(self.services[i].unasked_resolution());
            i += 1;
        }
        assert(resolution_views(resolutions@) =~= unasked_all(self@.services));
        self.export_report_with(&resolutions)
    }

    /// The resources of every service that can be exported, in the order of
    /// the service list; a service that cannot be exported is left out.
    pub fn export_config_to_envoy(&self) -> (r: EnvoyExportList)
        ensures
            export_views(r@) == exported(self@.services),
    {
        self.export_report().0
    }
}

/// The store after one import: the new services and fingerprint, and the
/// version advanced by exactly one.
pub open spec fn imported(store: ConfigView, services: Seq<ServiceView>, hash: Seq<char>) -> ConfigView {
    ConfigView { services, hash, version: (store.version + 1) as u32 }
}

/// The store after a sequence of imports, each given by its services and
/// its fingerprint.
pub open spec fn after_imports(
    store: ConfigView,
    imports: Seq<(Seq<ServiceView>, Seq<char>)>,
) -> ConfigView
    decreases imports.len(),
{
    if imports.len() == 0 {
        store
    } else {
        imported(after_imports(store, imports.drop_last()), imports.last().0, imports.last().1)
    }
}

/// Whether a source with fingerprint `hash` is imported into `store`.
pub open spec fn reload_outcome(store: ConfigView, hash: Seq<char>) -> Reload {
    if store.hash == hash {
        Reload::Unchanged
    } else if store.version == u32::MAX {
        Reload::Exhausted
    } else {
        Reload::Imported
    }
}

/// The store after a source was offered to it.
pub open spec fn reloaded(store: ConfigView, services: Seq<ServiceView>, hash: Seq<char>) -> ConfigView {
    if reload_outcome(store, hash) == Reload::Imported {
        imported(store, services, hash)
    } else {
        store
    }
}

/// The version counts the imports: after a sequence of imports it has
/// advanced by the length of the sequence.
pub proof fn lemma_version_counts_imports(
    store: ConfigView,
    imports: Seq<(Seq<ServiceView>, Seq<char>)>,
)
    requires
        store.version + imports.len() <= u32::MAX,
    ensures
        after_imports(store, imports).version == store.version + imports.len(),
    decreases imports.len(),
{
    if imports.len() > 0 {
        lemma_version_counts_imports(store, imports.drop_last());
    }
}

/// Over any sequence of imports the version is strictly increasing: the
/// store after more of the imports has a greater version than the store
/// after fewer of them.
pub proof fn lemma_version_strictly_increasing(
    store: ConfigView,
    imports: Seq<(Seq<ServiceView>, Seq<char>)>,
    fewer: int,
    more: int,
)
    requires
        store.version + imports.len() <= u32::MAX,
        0 <= fewer < more <= imports.len(),
    ensures
        after_imports(store, imports.take(fewer)).version < after_imports(
            store,
            imports.take(more),
        ).version,
{
    lemma_version_counts_imports(store, imports.take(fewer));
    lemma_version_counts_imports(store, imports.take(more));
}

/// A version stands for one snapshot: after the first `k` of a sequence of
/// imports the store is at the version of the `k`-th import and holds the
/// services and the fingerprint of that import, and of no other.
pub proof fn lemma_snapshot_of_version(
    store: ConfigView,
    imports: Seq<(Seq<ServiceView>, Seq<char>)>,
    k: int,
)
    requires
        store.version + imports.len() <= u32::MAX,
        1 <= k <= imports.len(),
    ensures
        after_imports(store, imports.take(k)).version == store.version + k,
        after_imports(store, imports.take(k)).services == imports[k - 1].0,
        after_imports(store, imports.take(k)).hash == imports[k - 1].1,
{
    lemma_version_counts_imports(store, imports.take(k));
}

/// Offering a source again changes nothing: after a source with some
/// fingerprint was offered, a source with the same fingerprint leaves the
/// store, and so its version, as it is.
pub proof fn lemma_reload_of_same_source(
    store: ConfigView,
    first: Seq<ServiceView>,
    again: Seq<ServiceView>,
    hash: Seq<char>,
)
    ensures
        reloaded(reloaded(store, first, hash), again, hash) == reloaded(store, first, hash),
        reload_outcome(reloaded(store, first, hash), hash) != Reload::Imported,
{
}

/// Sources with the same text have the same fingerprint, so the second of
/// them never advances the version.
pub proof fn lemma_reload_of_identical_text(
    store: ConfigView,
    first: Seq<ServiceView>,
    again: Seq<ServiceView>,
    content: Seq<char>,
)
    ensures
        reloaded(reloaded(store, first, fingerprint(content)), again, fingerprint(content)).version
            == reloaded(store, first, fingerprint(content)).version,
{
    lemma_reload_of_same_source(store, first, again, fingerprint(content));
}

/// An offered source never takes the version back, and advances it by one
/// exactly where it is imported.
pub proof fn lemma_reload_version(store: ConfigView, services: Seq<ServiceView>, hash: Seq<char>)
    ensures
        reloaded(store, services, hash).version >= store.version,
        reload_outcome(store, hash) == Reload::Imported <==> reloaded(
            store,
            services,
            hash,
        ).version == store.version + 1,
{
}

/// An export looks at the resolutions of the positions of its services
/// only: two lists of resolutions that agree there give the same export.
pub proof fn lemma_export_looks_at_its_positions(
    services: Seq<ServiceView>,
    one: Seq<Option<Seq<HttpFilterView>>>,
    other: Seq<Option<Seq<HttpFilterView>>>,
)
    requires
        forall|i: int|
            0 <= i < services.len() ==> resolution_at(one, i) == resolution_at(other, i),
    ensures
        exported_with(services, one) == exported_with(services, other),
        export_errors_with(services, one) == export_errors_with(services, other),
    decreases services.len(),
{
    if services.len() > 0 {
        lemma_export_looks_at_its_positions(services.drop_last(), one, other);
        assert(resolution_at(one, services.len() - 1) == resolution_at(
            other,
            services.len() - 1,
        ));
    }
}

/// Where every service of a list can be exported, each adds its cluster
/// and its listener, and there is no error.
pub proof fn lemma_export_of_valid_services(
    services: Seq<ServiceView>,
    resolutions: Seq<Option<Seq<HttpFilterView>>>,
)
    requires
        forall|i: int|
            0 <= i < services.len() ==> export_resolved_spec(
                #[trigger] services[i],
                resolution_at(resolutions, i),
            ) is Ok,
    ensures
        exported_with(services, resolutions).len() == 2 * services.len(),
        export_errors_with(services, resolutions).len() == 0,
    decreases services.len(),
{
    if services.len() > 0 {
        let rest = services.drop_last();
        assert forall|i: int| 0 <= i < rest.len() implies export_resolved_spec(
            #[trigger] rest[i],
            resolution_at(resolutions, i),
        ) is Ok by {
            assert(rest[i] == services[i]);
        }
        lemma_export_of_valid_services(rest, resolutions);
        assert(export_resolved_spec(
            services[services.len() - 1],
            resolution_at(resolutions, services.len() - 1),
        ) is Ok);
    }
}

/// The resolutions of a service list from which the service at `position`
/// was taken out.
pub open spec fn without_position(
    resolutions: Seq<Option<Seq<HttpFilterView>>>,
    position: int,
) -> Seq<Option<Seq<HttpFilterView>>> {
    if 0 <= position < resolutions.len() {
        resolutions.remove(position)
    } else {
        resolutions
    }
}

/// One service that cannot be exported, for its address or for its
/// policies, does not hold back the others: the export of the list is the
/// export of the list without that service, two resources for each of the
/// other services, and the only error is that service's.
pub proof fn lemma_partial_degradation_with(
    services: Seq<ServiceView>,
    resolutions: Seq<Option<Seq<HttpFilterView>>>,
    bad: int,
)
    requires
        0 <= bad < services.len(),
        export_resolved_spec(services[bad], resolution_at(resolutions, bad)) is Err,
        forall|i: int|
            0 <= i < services.len() && i != bad ==> export_resolved_spec(
                #[trigger] services[i],
                resolution_at(resolutions, i),
            ) is Ok,
    ensures
        exported_with(services, resolutions) == exported_with(
            services.remove(bad),
            without_position(resolutions, bad),
        ),
        exported_with(services, resolutions).len() == 2 * (services.len() - 1),
        export_errors_with(services, resolutions) == seq![
            export_resolved_spec(services[bad], resolution_at(resolutions, bad))->Err_0,
        ],
    decreases services.len(),
{
    let rest = services.drop_last();
    let others = services.remove(bad);
    let others_given = without_position(resolutions, bad);
    let last = services.len() - 1;
    if bad == last {
        assert(others =~= rest);
        assert forall|i: int| 0 <= i < rest.len() implies export_resolved_spec(
            #[trigger] rest[i],
            resolution_at(resolutions, i),
        ) is Ok by {
            assert(rest[i] == services[i]);
        }
        lemma_export_of_valid_services(rest, resolutions);
        lemma_export_looks_at_its_positions(rest, resolutions, others_given);
        assert(exported_with(services, resolutions) =~= exported_with(rest, resolutions));
        assert(export_errors_with(rest, resolutions) =~= Seq::<ExportError>::empty());
        assert(export_errors_with(services, resolutions) =~= seq![
            export_resolved_spec(services[bad], resolution_at(resolutions, bad))->Err_0,
        ]);
    } else {
        assert(rest[bad] == services[bad]);
        assert forall|i: int| 0 <= i < rest.len() && i != bad implies export_resolved_spec(
            #[trigger] rest[i],
            resolution_at(resolutions, i),
        ) is Ok by {
            assert(rest[i] == services[i]);
        }
        lemma_partial_degradation_with(rest, resolutions, bad);
        assert(others.drop_last() =~= rest.remove(bad));
        assert(others.last() == services.last());
        assert(resolution_at(others_given, last - 1) == resolution_at(resolutions, last));
        assert(export_resolved_spec(services[last], resolution_at(resolutions, last)) is Ok);
    }
}

/// One service of a store that cannot be exported does not hold back the
/// others: where no provider is asked, the export is the export of the
/// list without that service, two resources for each of the other
/// services, and exactly one error, that service's.
pub proof fn lemma_partial_degradation(services: Seq<ServiceView>, bad: int)
    requires
        0 <= bad < services.len(),
        export_spec(services[bad]) is Err,
        forall|i: int|
            0 <= i < services.len() && i != bad ==> export_spec(#[trigger] services[i]) is Ok,
    ensures
        exported(services) == exported(services.remove(bad)),
        exported(services).len() == 2 * (services.len() - 1),
        export_errors(services) == seq![export_spec(services[bad])->Err_0],
{
    let given = unasked_all(services);
    assert(without_position(given, bad) =~= unasked_all(services.remove(bad)));
    assert forall|i: int| 0 <= i < services.len() && i != bad implies export_resolved_spec(
        #[trigger] services[i],
        resolution_at(given, i),
    ) is Ok by {
        assert(export_spec(services[i]) is Ok);
    }
    lemma_partial_degradation_with(services, given, bad);
}

} // verus!
