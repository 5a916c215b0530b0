//! A staging cache for exported resources: entries are collected aside and
//! become visible together on release, which advances the version and is
//! followed by a delivery to every subscriber.

use vstd::prelude::*;
use crate::envoy_helpers::{clone_exports, export_views, EnvoyExport, EnvoyExportView};

verus! {

/// The cache. Subscribers are known by the order in which they subscribed;
/// whoever drives the cache keeps their callbacks and hands each of them
/// what `publish` returns for it.
#[derive(Debug)]
pub struct LocalCache {
    cache: Vec<EnvoyExport>,
    version: u32,
    temp_cache: Vec<EnvoyExport>,
    subscribers: usize,
}

pub struct LocalCacheView {
    /// The released entries.
    pub cache: Seq<EnvoyExportView>,
    /// The number of releases so far.
    pub version: u32,
    /// The entries collected since the last release.
    pub temp_cache: Seq<EnvoyExportView>,
    /// The number of subscribers.
    pub subscribers: nat,
}

impl View for LocalCache {
    type V = LocalCacheView;

    closed spec fn view(&self) -> LocalCacheView {
        LocalCacheView {
            cache: export_views(self.cache@),
            version: self.version,
            temp_cache: export_views(self.temp_cache@),
            subscribers: self.subscribers as nat,
        }
    }
}

impl LocalCache {
    /// An empty cache at version 0 without subscribers.
    pub fn new() -> (r: LocalCache)
        ensures
            r@ == (LocalCacheView {
                cache: Seq::empty(),
                version: 0,
                temp_cache: Seq::empty(),
                subscribers: 0,
            }),
    {
        let cache: Vec<EnvoyExport> = Vec::new();
        let temp_cache: Vec<EnvoyExport> = Vec::new();
        assert(export_views(cache@) =~= Seq::<EnvoyExportView>::empty());
        assert(export_views(temp_cache@) =~= Seq::<EnvoyExportView>::empty());
        LocalCache { cache, version: 0, temp_cache, subscribers: 0 }
    }

    /// The number of releases so far.
    pub fn get_version(&self) -> (v: u32)
        ensures
            v == self@.version,
    {
        self.version
    }

    /// Collects one entry for the next release.
    pub fn add(&mut self, element: EnvoyExport)
        ensures
            final(self)@ == (LocalCacheView {
                temp_cache: old(self)@.temp_cache.push(element@),
                ..old(self)@
            }),
    {
        self.temp_cache.push(element);
        assert(export_views(self.temp_cache@) =~= export_views(old(self).temp_cache@).push(
            element@,
        ));
    }

    /// Collects entries for the next release, in their order, and leaves
    /// `elements` empty.
    pub fn add_multiple(&mut self, elements: &mut Vec<EnvoyExport>)
        ensures
            final(self)@ == (LocalCacheView {
                temp_cache: old(self)@.temp_cache + export_views(old(elements)@),
                ..old(self)@
            }),
            final(elements)@.len() == 0,
    {
        self.temp_cache.append(elements);
        assert(export_views(self.temp_cache@) =~= export_views(old(self).temp_cache@)
            + export_views(old(elements)@));
    }

    /// Registers one more subscriber and returns its position among them.
    pub fn subscribe(&mut self) -> (position: usize)
        requires
            old(self)@.subscribers < usize::MAX,
        ensures
            position == old(self)@.subscribers,
            final(self)@ == (LocalCacheView {
                subscribers: old(self)@.subscribers + 1,
                ..old(self)@
            }),
    {
        let position = self.subscribers;
        self.subscribers += 1;
        position
    }

    /// What is delivered on a release: for each subscriber, in the order of
    /// subscription, a copy of the released entries.
    pub fn publish(&self) -> (deliveries: Vec<Vec<EnvoyExport>>)
        ensures
            deliveries@.len() == self@.subscribers,
            forall|i: int|
                0 <= i < deliveries@.len() ==> export_views(#[trigger] deliveries@[i]@)
                    == self@.cache,
    {
        let mut deliveries: Vec<Vec<EnvoyExport>> = Vec::new();
        let mut i: usize = 0;
        while i < self.subscribers
            invariant
                i <= self.subscribers,
                deliveries@.len() == i,
                forall|j: int|
                    0 <= j < i ==> export_views(#[trigger] deliveries@[j]@) == export_views(
                        self.cache@,
                    ),
            decreases self.subscribers - i,
        {
            deliveries.push(clone_exports(&self.cache));
            i += 1;
        }
        deliveries
    }

    /// Makes the collected entries the released ones, starts a new
    /// collection, advances the version by one and returns it. The delivery
    /// that follows is what `publish` returns afterwards.
    pub fn release(&mut self) -> (version: u32)
        requires
            old(self)@.version < u32::MAX,
        ensures
            version == old(self)@.version + 1,
            final(self)@ == (LocalCacheView {
                cache: old(self)@.temp_cache,
                version,
                temp_cache: Seq::empty(),
                subscribers: old(self)@.subscribers,
            }),
    {
        self.cache = clone_exports(&self.temp_cache);
        self.version += 1;
        self.temp_cache = Vec::new();
        assert(export_views(self.temp_cache@) =~= Seq::<EnvoyExportView>::empty());
        self.version
    }
}

} // verus!
