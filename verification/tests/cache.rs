use parietal::client::{decode_resource, demo_fetch, endpoint, FetchError, Resource, ResourceKind};
use parietal::warehouse::{read, FetchBatch, ResourceRef, SlotStatus, Warehouse, WarehouseError};

fn cluster_doc(name: &str) -> String {
    format!(
        r#"{{"cluster_name": "{name}", "status": "green", "timed_out": false,
        "number_of_nodes": 3, "number_of_data_nodes": 2, "active_primary_shards": 10,
        "active_shards": 20, "relocating_shards": 0, "initializing_shards": 0,
        "unassigned_shards": 0, "delayed_unassigned_shards": 0,
        "number_of_pending_tasks": 0, "number_of_in_flight_fetch": 0,
        "task_max_waiting_in_queue_millis": 0, "active_shards_percent_as_number": 100.0}}"#
    )
}

fn shards_doc(index: &str) -> String {
    format!(
        r#"[{{"index": "{index}", "shard": "0", "prirep": "p", "state": "STARTED",
        "docs": "1", "store": "1b", "ip": "10.0.0.5", "node": "node-1"}}]"#
    )
}

fn full_batch() -> FetchBatch {
    FetchBatch {
        cluster: Some(cluster_doc("first")),
        indices: Some("[]".to_owned()),
        recovery: Some("{}".to_owned()),
        shards: Some(shards_doc("logs")),
        nodes: Some(r#"{"nodes": {}}"#.to_owned()),
    }
}

#[test]
fn initialize_fills_every_slot() {
    let w = Warehouse::new(full_batch()).unwrap();
    assert_eq!(w.cluster.cluster_name, "first");
    assert!(w.indices.is_empty());
    assert!(w.recovery.indices.is_empty());
    assert_eq!(w.shards.len(), 1);
    assert!(w.nodes.nodes.is_empty());
}

#[test]
fn initialize_fails_on_any_missing_document() {
    let mut batch = full_batch();
    batch.recovery = None;
    assert!(matches!(
        Warehouse::new(batch),
        Err(FetchError::Transport(_))
    ));
}

#[test]
fn initialize_fails_on_any_undecodable_document() {
    let mut batch = full_batch();
    batch.indices = Some("{\"rows\": []}".to_owned());
    assert!(matches!(Warehouse::new(batch), Err(FetchError::Decode(_))));
}

#[test]
fn every_kind_reads_after_initialization() {
    let w = Warehouse::new(full_batch()).unwrap();
    let kinds = [
        ResourceKind::Cluster,
        ResourceKind::Indices,
        ResourceKind::Recovery,
        ResourceKind::Shards,
        ResourceKind::Nodes,
    ];
    for kind in kinds {
        assert!(read(Some(&w), kind).is_ok());
    }
    match read(Some(&w), ResourceKind::Cluster).unwrap() {
        ResourceRef::Cluster(c) => assert_eq!(c.cluster_name, "first"),
        _ => panic!("wrong slot"),
    }
}

#[test]
fn reading_before_initialization_is_a_distinct_condition() {
    let r = read(None, ResourceKind::Shards);
    assert_eq!(r.unwrap_err(), WarehouseError::CacheUnavailable);
}

#[test]
fn failed_slots_keep_their_value_while_others_update() {
    let mut w = Warehouse::new(full_batch()).unwrap();
    let rep = w.refresh(FetchBatch {
        cluster: Some(cluster_doc("second")),
        indices: None,
        recovery: Some("not json at all".to_owned()),
        shards: Some(shards_doc("metrics")),
        nodes: Some(r#"{"nodes": 3}"#.to_owned()),
    });
    assert_eq!(w.cluster.cluster_name, "second");
    assert!(w.indices.is_empty());
    assert!(w.recovery.indices.is_empty());
    assert_eq!(w.shards[0].index, "metrics");
    assert!(w.nodes.nodes.is_empty());
    assert!(matches!(rep.cluster, SlotStatus::Updated));
    assert!(matches!(rep.indices, SlotStatus::Transport));
    assert!(matches!(rep.recovery, SlotStatus::Failed(_)));
    assert!(matches!(rep.shards, SlotStatus::Updated));
    assert!(matches!(rep.nodes, SlotStatus::Failed(_)));
}

#[test]
fn refresh_with_nothing_fetched_changes_nothing() {
    let mut w = Warehouse::new(full_batch()).unwrap();
    let before = w.clone();
    w.refresh(FetchBatch {
        cluster: None,
        indices: None,
        recovery: None,
        shards: None,
        nodes: None,
    });
    assert_eq!(w, before);
}

fn fixture_table() -> Vec<(String, String)> {
    vec![
        (endpoint(ResourceKind::Cluster).to_owned(), cluster_doc("demo")),
        (endpoint(ResourceKind::Indices).to_owned(), "[]".to_owned()),
        (endpoint(ResourceKind::Recovery).to_owned(), "{}".to_owned()),
        (endpoint(ResourceKind::Shards).to_owned(), shards_doc("demo-logs")),
        (endpoint(ResourceKind::Nodes).to_owned(), r#"{"nodes": {}}"#.to_owned()),
    ]
}

#[test]
fn endpoints_are_the_five_fixed_paths() {
    assert_eq!(endpoint(ResourceKind::Cluster), "_cluster/health");
    assert_eq!(endpoint(ResourceKind::Indices), "_cat/indices?format=json");
    assert_eq!(
        endpoint(ResourceKind::Recovery),
        "_recovery?format=json&active_only=true"
    );
    assert_eq!(endpoint(ResourceKind::Shards), "_cat/shards?format=json");
    assert_eq!(
        endpoint(ResourceKind::Nodes),
        "_nodes/stats/fs,process,os?format=json"
    );
}

#[test]
fn demo_mode_decodes_exactly_like_live_mode() {
    let fixtures = fixture_table();
    let kinds = [
        ResourceKind::Cluster,
        ResourceKind::Indices,
        ResourceKind::Recovery,
        ResourceKind::Shards,
        ResourceKind::Nodes,
    ];
    for kind in kinds {
        let text = &fixtures
            .iter()
            .find(|(p, _)| p.as_str() == endpoint(kind))
            .unwrap()
            .1;
        let live = decode_resource(kind, text).unwrap();
        let demo = demo_fetch(kind, &fixtures).unwrap();
        assert_eq!(live, demo);
    }
}

#[test]
fn demo_mode_without_a_fixture_is_a_transport_failure() {
    let mut fixtures = fixture_table();
    fixtures.retain(|(p, _)| p.as_str() != endpoint(ResourceKind::Nodes));
    assert!(matches!(
        demo_fetch(ResourceKind::Nodes, &fixtures),
        Err(FetchError::Transport(_))
    ));
    match demo_fetch(ResourceKind::Cluster, &fixtures).unwrap() {
        Resource::Cluster(c) => assert_eq!(c.cluster_name, "demo"),
        _ => panic!("wrong resource kind"),
    }
}

#[test]
fn demo_mode_surfaces_decode_failures_with_their_path() {
    let mut fixtures = fixture_table();
    for f in fixtures.iter_mut() {
        if f.0 == endpoint(ResourceKind::Cluster) {
            f.1 = r#"{"cluster_name": 7}"#.to_owned();
        }
    }
    match demo_fetch(ResourceKind::Cluster, &fixtures) {
        Err(FetchError::Decode(e)) => assert_eq!(e.path, "cluster_name"),
        _ => panic!("expected a decode failure"),
    }
}
