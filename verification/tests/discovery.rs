use control_plane::configuration::{Config, Reload};
use control_plane::discovery::{
    select_clusters, select_listeners, DiscoveryError, CLUSTER_TYPE_URL, LISTENER_TYPE_URL,
};
use control_plane::envoy_cds::CDS;
use control_plane::envoy_helpers::{DiscoveryType, EnvoyResource, HttpFilter};
use control_plane::processor::{MasterProcess, RELOAD_INTERVAL_SECONDS};
use control_plane::envoy_lds::LDS;
use control_plane::service::Service;

fn service(id: u32, host: &str, target: &str) -> Service {
    Service {
        id,
        hosts: vec![host.to_string()],
        policies: Vec::new(),
        target_domain: target.to_string(),
    }
}

#[test]
fn type_identifiers() {
    assert_eq!(CLUSTER_TYPE_URL, "type.googleapis.com/envoy.config.cluster.v3.Cluster");
    assert_eq!(LISTENER_TYPE_URL, "type.googleapis.com/envoy.config.listener.v3.Listener");
}

#[test]
fn stream_opened_before_the_first_import_emits_version_one() {
    let mut store = Config::default();
    let mut stream = CDS::new();
    assert_eq!(stream.get_version(), 0);
    assert!(stream.poll_next(&store).is_none());
    store.import(vec![service(1, "a.com", "a.internal:8080")], "h".to_string());
    assert_eq!(store.get_version(), 1);
    let response = stream.poll_next(&store).unwrap();
    assert_eq!(response.version_info, "1");
    assert_eq!(response.type_url, CLUSTER_TYPE_URL);
    assert_eq!(response.nonce, "");
    assert_eq!(response.resources.len(), 1);
    match &response.resources[0] {
        EnvoyResource::Cluster(c) => {
            assert_eq!(c.name, "Cluster::service::1");
            assert_eq!(c.endpoint.address, "a.internal");
            assert_eq!(c.endpoint.port, 8080);
            assert_eq!(c.discovery, DiscoveryType::LogicalDns);
            assert_eq!(c.connect_timeout_seconds, 1);
        }
        EnvoyResource::Listener(_) => panic!("a cluster stream emitted a listener"),
    }
    assert_eq!(stream.get_version(), 1);
}

#[test]
fn identical_source_gives_no_new_response() {
    let mut store = Config::default();
    let mut clusters = CDS::new();
    let mut listeners = LDS::new();
    let raw = "[{\"id\":1}]";
    let read = Config::parse_config(raw, vec![service(1, "a.com", "a.internal:8080")]);
    assert_eq!(store.reload(read.get_services(), read.get_hash()), Reload::Imported);
    assert!(clusters.poll_next(&store).is_some());
    assert!(listeners.poll_next(&store).is_some());
    let again = Config::parse_config(raw, vec![service(1, "a.com", "a.internal:8080")]);
    assert_eq!(store.reload(again.get_services(), again.get_hash()), Reload::Unchanged);
    assert_eq!(store.get_version(), 1);
    assert!(clusters.poll_next(&store).is_none());
    assert!(listeners.poll_next(&store).is_none());
}

#[test]
fn malformed_service_is_absent_from_both_streams() {
    let mut store = Config::default();
    store.import(
        vec![
            service(1, "a.com", "a.internal:8080"),
            service(2, "b.com", "bad::addr"),
            service(3, "c.com", "c.internal"),
        ],
        "h".to_string(),
    );
    let clusters = CDS::new().poll_next(&store).unwrap();
    let names: Vec<String> = clusters
        .resources
        .iter()
        .map(|r| match r {
            EnvoyResource::Cluster(c) => c.name.clone(),
            EnvoyResource::Listener(l) => l.name.clone(),
        })
        .collect();
    assert_eq!(names, vec!["Cluster::service::1", "Cluster::service::3"]);
    let listeners = LDS::new().poll_next(&store).unwrap();
    let names: Vec<String> = listeners
        .resources
        .iter()
        .map(|r| match r {
            EnvoyResource::Cluster(c) => c.name.clone(),
            EnvoyResource::Listener(l) => l.name.clone(),
        })
        .collect();
    assert_eq!(names, vec!["service 1", "service 3"]);
    assert_eq!(listeners.type_url, LISTENER_TYPE_URL);
}

#[test]
fn late_stream_gets_the_full_current_snapshot() {
    let mut store = Config::default();
    store.import(vec![service(1, "a.com", "a")], "one".to_string());
    store.import(vec![service(1, "a.com", "a"), service(2, "b.com", "b:81")], "two".to_string());
    assert_eq!(store.get_version(), 2);
    let mut stream = CDS::new();
    let response = stream.poll_next(&store).unwrap();
    assert_eq!(response.version_info, "2");
    assert_eq!(response.resources.len(), 2);
    assert_eq!(stream.get_version(), 2);
    assert!(stream.poll_next(&store).is_none());
    let mut stream = LDS::new();
    let response = stream.poll_next(&store).unwrap();
    assert_eq!(response.version_info, "2");
    assert_eq!(response.resources.len(), 2);
    match &response.resources[1] {
        EnvoyResource::Listener(l) => {
            assert_eq!(l.name, "service 2");
            assert_eq!(l.domains, vec!["b.com"]);
            assert_eq!(l.route_cluster, "Cluster::service::2");
            assert_eq!(l.http_filters, vec![HttpFilter::Router]);
        }
        EnvoyResource::Cluster(_) => panic!("a listener stream emitted a cluster"),
    }
}

#[test]
fn streams_converge_whatever_they_served_before() {
    let mut store = Config::default();
    store.import(vec![service(1, "a.com", "a")], "one".to_string());
    let mut early = CDS::new();
    assert_eq!(early.poll_next(&store).unwrap().version_info, "1");
    store.import(vec![service(5, "e.com", "e:5")], "two".to_string());
    store.import(vec![service(6, "f.com", "f:6"), service(7, "g.com", "g")], "three".to_string());
    let mut late = CDS::new();
    let from_late = late.poll_next(&store).unwrap();
    let from_early = early.poll_next(&store).unwrap();
    assert_eq!(from_early, from_late);
    assert_eq!(from_early.version_info, "3");
    assert_eq!(early.get_version(), late.get_version());
}

#[test]
fn skipped_versions_are_not_replayed() {
    let mut store = Config::default();
    let mut stream = LDS::new();
    store.import(vec![service(1, "a.com", "a")], "one".to_string());
    store.import(vec![service(2, "b.com", "b")], "two".to_string());
    store.import(vec![service(3, "c.com", "c")], "three".to_string());
    let response = stream.poll_next(&store).unwrap();
    assert_eq!(response.version_info, "3");
    assert_eq!(response.resources.len(), 1);
    assert!(stream.poll_next(&store).is_none());
}

#[test]
fn stream_ahead_of_a_store_stays_as_it_is() {
    let mut ahead = Config::default();
    ahead.import(vec![service(1, "a.com", "a")], "one".to_string());
    ahead.import(vec![service(1, "a.com", "a")], "two".to_string());
    let mut behind = Config::default();
    behind.import(Vec::new(), "other".to_string());
    let mut stream = CDS::new();
    assert!(stream.poll_next(&ahead).is_some());
    assert!(stream.poll_next(&behind).is_none());
    assert_eq!(stream.get_version(), 2);
}

#[test]
fn refresh_takes_resources_and_watermark_from_one_snapshot() {
    let mut store = Config::default();
    let mut stream = CDS::new();
    stream.refresh_data(&store);
    assert_eq!(stream.get_version(), 0);
    store.import(vec![service(1, "a.com", "a")], "one".to_string());
    stream.refresh_data(&store);
    assert_eq!(stream.get_version(), 1);
    assert!(stream.poll_next(&store).is_none());
    let copy = stream.clone();
    assert_eq!(copy.get_version(), 1);
    let mut stream = LDS::new();
    stream.refresh_data(&store);
    assert_eq!(stream.get_version(), 1);
}

#[test]
fn selection_by_kind_keeps_the_order() {
    let mut store = Config::default();
    store.import(vec![service(1, "a.com", "a"), service(2, "b.com", "b")], "h".to_string());
    let exports = store.export_config_to_envoy();
    let clusters = select_clusters(&exports);
    let listeners = select_listeners(&exports);
    assert_eq!(clusters.len(), 2);
    assert_eq!(listeners.len(), 2);
    assert_eq!(clusters[0].name, "Cluster::service::1");
    assert_eq!(clusters[1].name, "Cluster::service::2");
    assert_eq!(listeners[0].name, "service 1");
    assert_eq!(listeners[1].name, "service 2");
}

#[test]
fn delta_and_fetch_are_not_implemented() {
    let clusters = CDS::new();
    assert_eq!(clusters.delta_clusters(), Err(DiscoveryError::NotImplemented));
    assert_eq!(clusters.fetch_clusters(), Err(DiscoveryError::NotImplemented));
    let listeners = LDS::new();
    assert_eq!(listeners.delta_listeners(), Err(DiscoveryError::NotImplemented));
    assert_eq!(listeners.fetch_listeners(), Err(DiscoveryError::NotImplemented));
    assert_eq!(DiscoveryError::NotImplemented.message(), "not implemented");
}

#[test]
fn stream_takes_an_export_that_the_caller_computed() {
    let mut store = Config::default();
    store.import(vec![service(1, "a.com", "a"), service(2, "b.com", "b")], "h".to_string());
    let (exports, _) = store.export_report_with(&vec![Some(Vec::new()), None]);
    let mut clusters = CDS::new();
    let response = clusters.poll_exports(store.get_version(), &exports).unwrap();
    assert_eq!(response.version_info, "1");
    assert_eq!(response.type_url, CLUSTER_TYPE_URL);
    assert_eq!(response.resources.len(), 1);
    assert_eq!(clusters.get_version(), 1);
    assert!(clusters.poll_exports(1, &exports).is_none());
    assert!(clusters.poll_exports(0, &exports).is_none());
    assert_eq!(clusters.get_version(), 1);
    let mut listeners = LDS::new();
    assert!(listeners.poll_exports(0, &exports).is_none());
    let response = listeners.poll_exports(4, &exports).unwrap();
    assert_eq!(response.version_info, "4");
    assert_eq!(response.type_url, LISTENER_TYPE_URL);
    assert_eq!(response.resources.len(), 1);
    assert_eq!(listeners.get_version(), 4);
}

#[test]
fn poller_round_imports_only_changed_bytes() {
    assert_eq!(RELOAD_INTERVAL_SECONDS, 5);
    let mut process = MasterProcess::default();
    assert_eq!(process.config().get_version(), 0);
    let raw = "[{\"id\":1,\"hosts\":[\"a.com\"],\"policies\":[],\"target_domain\":\"a.internal:8080\"}]";
    let first = process.config_thread(raw, vec![service(1, "a.com", "a.internal:8080")]);
    assert_eq!(first, Reload::Imported);
    assert_eq!(process.config().get_version(), 1);
    let mut stream = CDS::new();
    assert_eq!(stream.poll_next(process.config()).unwrap().version_info, "1");
    let second = process.config_thread(raw, vec![service(1, "a.com", "a.internal:8080")]);
    assert_eq!(second, Reload::Unchanged);
    assert_eq!(process.config().get_version(), 1);
    assert!(stream.poll_next(process.config()).is_none());
    let changed = "[]";
    assert_eq!(process.config_thread(changed, Vec::new()), Reload::Imported);
    assert_eq!(process.config().get_version(), 2);
    assert_eq!(
        process.config().get_hash(),
        Config::parse_config(changed, Vec::new()).get_hash()
    );
    let response = stream.poll_next(process.config()).unwrap();
    assert_eq!(response.version_info, "2");
    assert!(response.resources.is_empty());
}

#[test]
fn terminated_stream_holds_nothing_and_emits_nothing() {
    let mut store = Config::default();
    store.import(vec![service(1, "a.com", "a")], "one".to_string());
    let mut stream = CDS::new();
    assert!(!stream.is_terminated());
    assert!(stream.poll_next(&store).is_some());
    stream.terminate();
    assert!(stream.is_terminated());
    assert_eq!(stream.get_version(), 1);
    store.import(vec![service(2, "b.com", "b")], "two".to_string());
    assert!(stream.poll_next(&store).is_none());
    stream.refresh_data(&store);
    assert_eq!(stream.get_version(), 1);
    let exports = store.export_config_to_envoy();
    assert!(stream.poll_exports(9, &exports).is_none());
    assert_eq!(stream.get_version(), 1);

    let mut stream = LDS::new();
    stream.terminate();
    assert!(stream.is_terminated());
    assert!(stream.poll_next(&store).is_none());
    assert_eq!(stream.get_version(), 0);
}

#[test]
fn version_tokens_are_decimal() {
    let store = Config::from_snapshot(vec![service(1, "a.com", "a")], "h".to_string(), u32::MAX);
    let response = CDS::new().poll_next(&store).unwrap();
    assert_eq!(response.version_info, "4294967295");
    let store = Config::from_snapshot(Vec::new(), "h".to_string(), 1000);
    let response = LDS::new().poll_next(&store).unwrap();
    assert_eq!(response.version_info, "1000");
    assert!(response.resources.is_empty());
}
