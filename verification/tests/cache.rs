use control_plane::cache::LocalCache;
use control_plane::envoy_helpers::EnvoyExport;
use control_plane::service::Service;

fn exports(id: u32) -> Vec<EnvoyExport> {
    Service { id, hosts: Vec::new(), policies: Vec::new(), target_domain: "up".to_string() }
        .export()
        .unwrap()
}

#[test]
fn new_cache_is_empty() {
    let cache = LocalCache::new();
    assert_eq!(cache.get_version(), 0);
    assert!(cache.publish().is_empty());
}

#[test]
fn entries_become_visible_on_release() {
    let mut cache = LocalCache::new();
    assert_eq!(cache.subscribe(), 0);
    let mut entries = exports(1);
    cache.add(entries.remove(0));
    assert_eq!(cache.publish(), vec![Vec::new()]);
    assert_eq!(cache.release(), 1);
    assert_eq!(cache.publish(), vec![vec![exports(1).remove(0)]]);
}

#[test]
fn add_multiple_drains_its_argument() {
    let mut cache = LocalCache::new();
    cache.subscribe();
    let mut entries = exports(1);
    cache.add_multiple(&mut entries);
    assert!(entries.is_empty());
    let mut more = exports(2);
    cache.add_multiple(&mut more);
    assert_eq!(cache.release(), 1);
    let mut expected = exports(1);
    expected.extend(exports(2));
    assert_eq!(cache.publish(), vec![expected]);
}

#[test]
fn release_starts_a_new_collection() {
    let mut cache = LocalCache::new();
    cache.subscribe();
    let mut entries = exports(1);
    cache.add_multiple(&mut entries);
    assert_eq!(cache.release(), 1);
    assert_eq!(cache.release(), 2);
    assert_eq!(cache.get_version(), 2);
    assert_eq!(cache.publish(), vec![Vec::new()]);
}

#[test]
fn every_subscriber_gets_a_copy() {
    let mut cache = LocalCache::new();
    assert_eq!(cache.subscribe(), 0);
    assert_eq!(cache.subscribe(), 1);
    assert_eq!(cache.subscribe(), 2);
    let mut entries = exports(3);
    cache.add_multiple(&mut entries);
    cache.release();
    assert_eq!(cache.publish(), vec![exports(3), exports(3), exports(3)]);
}
