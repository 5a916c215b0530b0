use control_plane::configuration::{digest_of, Config, Reload};
use control_plane::service::Service;
use std::collections::hash_map::DefaultHasher;
use std::hash::Hasher;

fn service(id: u32, host: &str, target: &str) -> Service {
    Service {
        id,
        hosts: vec![host.to_string()],
        policies: Vec::new(),
        target_domain: target.to_string(),
    }
}

#[test]
fn we_actually_run_tests() {}

#[test]
fn default_store_is_empty_at_version_zero() {
    let store = Config::default();
    assert_eq!(store.get_version(), 0);
    assert_eq!(store.get_hash(), "");
    assert!(store.get_services().is_empty());
}

#[test]
fn import_replaces_and_advances_by_one() {
    let mut store = Config::default();
    store.import(vec![service(1, "a.com", "a.internal:8080")], "h1".to_string());
    assert_eq!(store.get_version(), 1);
    assert_eq!(store.get_hash(), "h1");
    assert_eq!(store.get_services(), vec![service(1, "a.com", "a.internal:8080")]);
    store.import(vec![service(2, "b.com", "b.internal")], "h2".to_string());
    assert_eq!(store.get_version(), 2);
    assert_eq!(store.get_hash(), "h2");
    assert_eq!(store.get_services(), vec![service(2, "b.com", "b.internal")]);
}

#[test]
fn import_does_not_compare_fingerprints() {
    let mut store = Config::default();
    store.import(Vec::new(), "same".to_string());
    store.import(Vec::new(), "same".to_string());
    assert_eq!(store.get_version(), 2);
}

#[test]
fn versions_strictly_increase_over_imports() {
    let mut store = Config::default();
    let mut last = store.get_version();
    for i in 0..20u32 {
        store.import(Vec::new(), format!("{}", i));
        assert!(store.get_version() > last);
        assert_eq!(store.get_version(), last + 1);
        last = store.get_version();
    }
    assert_eq!(last, 20);
}

#[test]
fn snapshot_pairs_services_with_their_version() {
    let mut store = Config::default();
    store.import(vec![service(7, "x.org", "x:1")], "a".to_string());
    let (services, version) = store.snapshot();
    assert_eq!(version, 1);
    assert_eq!(services, vec![service(7, "x.org", "x:1")]);
    store.import(Vec::new(), "b".to_string());
    let (services, version) = store.snapshot();
    assert_eq!(version, 2);
    assert!(services.is_empty());
}

#[test]
fn reload_imports_a_changed_source() {
    let mut store = Config::default();
    let outcome = store.reload(vec![service(1, "a.com", "a.internal:8080")], "abc".to_string());
    assert_eq!(outcome, Reload::Imported);
    assert_eq!(store.get_version(), 1);
    assert_eq!(store.get_hash(), "abc");
}

#[test]
fn reload_of_identical_source_keeps_the_version() {
    let raw = "[{\"id\":1,\"hosts\":[\"a.com\"],\"policies\":[],\"target_domain\":\"a.internal:8080\"}]";
    let read = Config::parse_config(raw, vec![service(1, "a.com", "a.internal:8080")]);
    let mut store = Config::default();
    assert_eq!(store.reload(read.get_services(), read.get_hash()), Reload::Imported);
    assert_eq!(store.get_version(), 1);
    let again = Config::parse_config(raw, vec![service(1, "a.com", "a.internal:8080")]);
    assert_eq!(again.get_hash(), read.get_hash());
    assert_eq!(store.reload(again.get_services(), again.get_hash()), Reload::Unchanged);
    assert_eq!(store.get_version(), 1);
    assert_eq!(store.get_services(), vec![service(1, "a.com", "a.internal:8080")]);
}

#[test]
fn reload_at_the_last_version_changes_nothing() {
    let mut store =
        Config::from_snapshot(vec![service(1, "a.com", "a")], "first".to_string(), u32::MAX);
    assert_eq!(store.get_version(), u32::MAX);
    assert_eq!(store.reload(Vec::new(), "second".to_string()), Reload::Exhausted);
    assert_eq!(store.get_version(), u32::MAX);
    assert_eq!(store.get_hash(), "first");
    assert_eq!(store.get_services(), vec![service(1, "a.com", "a")]);
    assert_eq!(store.reload(Vec::new(), "first".to_string()), Reload::Unchanged);
}

#[test]
fn store_taken_up_from_a_snapshot() {
    let mut store = Config::from_snapshot(vec![service(1, "a.com", "a")], "h".to_string(), 41);
    assert_eq!(store.snapshot(), (vec![service(1, "a.com", "a")], 41));
    assert_eq!(store.get_hash(), "h");
    store.import(Vec::new(), "i".to_string());
    assert_eq!(store.get_version(), 42);
}

#[test]
fn a_copy_of_the_store_is_independent() {
    let mut store = Config::default();
    store.import(vec![service(1, "a.com", "a")], "first".to_string());
    let mut copy = store.clone();
    assert_eq!(copy.get_version(), 1);
    assert_eq!(copy.reload(Vec::new(), "second".to_string()), Reload::Imported);
    assert_eq!(copy.get_version(), 2);
    assert_eq!(store.get_version(), 1);
    assert_eq!(store.get_services(), vec![service(1, "a.com", "a")]);
}

#[test]
fn parse_config_starts_at_version_zero_with_the_fingerprint() {
    let raw = "[]";
    let config = Config::parse_config(raw, Vec::new());
    assert_eq!(config.get_version(), 0);
    let mut hasher = DefaultHasher::new();
    hasher.write(raw.as_bytes());
    assert_eq!(config.get_hash(), format!("{:x}", hasher.finish()));
    assert!(config.get_services().is_empty());
}

#[test]
fn set_hash_records_the_digest_in_hexadecimal() {
    let mut config = Config::default();
    config.import(vec![service(3, "c.com", "c")], "old".to_string());
    let digest = config.set_hash("some content");
    assert_eq!(digest, digest_of("some content"));
    assert_eq!(config.get_hash(), format!("{:x}", digest));
    assert_eq!(config.get_version(), 1);
    assert_eq!(config.get_services(), vec![service(3, "c.com", "c")]);
}

#[test]
fn digest_depends_on_the_text() {
    assert_eq!(digest_of("abc"), digest_of("abc"));
    assert_ne!(digest_of("abc"), digest_of("abd"));
    let mut hasher = DefaultHasher::new();
    hasher.write("abc".as_bytes());
    assert_eq!(digest_of("abc"), hasher.finish());
}
