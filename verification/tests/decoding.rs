use parietal::client::{decode_resource, Resource, ResourceKind};
use parietal::cluster::{decode_cluster, encode_cluster};
use parietal::index::{decode_index_list, encode_index_list};
use parietal::shard::{decode_shard_list, encode_shard_list, ShallowShard};

const CLUSTER_DOC: &str = r#"{
  "cluster_name": "docs-cluster",
  "status": "yellow",
  "timed_out": false,
  "number_of_nodes": 3,
  "number_of_data_nodes": 2,
  "active_primary_shards": 10,
  "active_shards": 20,
  "relocating_shards": 1,
  "initializing_shards": 0,
  "unassigned_shards": 2,
  "delayed_unassigned_shards": 0,
  "number_of_pending_tasks": 4,
  "number_of_in_flight_fetch": 0,
  "task_max_waiting_in_queue_millis": 12,
  "active_shards_percent_as_number": 90.9
}"#;

#[test]
fn cluster_doc_decodes() {
    let r = decode_resource(ResourceKind::Cluster, CLUSTER_DOC).unwrap();
    let c = match r {
        Resource::Cluster(c) => c,
        _ => panic!("wrong resource kind"),
    };
    assert_eq!(c.cluster_name, "docs-cluster");
    assert_eq!(c.status, "yellow");
    assert!(!c.timed_out);
    assert_eq!(c.number_of_nodes, 3);
    assert_eq!(c.number_of_data_nodes, 2);
    assert_eq!(c.active_primary_shards, 10);
    assert_eq!(c.active_shards, 20);
    assert_eq!(c.relocating_shards, 1);
    assert_eq!(c.initializing_shards, 0);
    assert_eq!(c.unassigned_shards, 2);
    assert_eq!(c.delayed_unassigned_shards, 0);
    assert_eq!(c.number_of_pending_tasks, 4);
    assert_eq!(c.number_of_in_flight_fetch, 0);
    assert_eq!(c.task_max_waiting_in_queue_millis, 12);
    assert_eq!(c.active_shards_percent_as_number, "90.9");
}

#[test]
fn cluster_reencode_round_trips() {
    let c = match decode_resource(ResourceKind::Cluster, CLUSTER_DOC).unwrap() {
        Resource::Cluster(c) => c,
        _ => panic!("wrong resource kind"),
    };
    let doc = encode_cluster(&c);
    let again = decode_cluster(&doc).unwrap();
    assert_eq!(c, again);
}

#[test]
fn cluster_unknown_fields_are_ignored() {
    let doc = CLUSTER_DOC.replacen("{", "{\n  \"brand_new_field\": [1, 2, {}],", 1);
    assert!(decode_resource(ResourceKind::Cluster, &doc).is_ok());
}

#[test]
fn cluster_missing_field_names_its_path() {
    let doc = CLUSTER_DOC.replace("\"status\"", "\"condition\"");
    let e = decode_resource(ResourceKind::Cluster, &doc).unwrap_err();
    assert_eq!(e.path, "status");
}

#[test]
fn cluster_wrong_type_names_its_path() {
    let doc = CLUSTER_DOC.replace("\"timed_out\": false", "\"timed_out\": \"no\"");
    let e = decode_resource(ResourceKind::Cluster, &doc).unwrap_err();
    assert_eq!(e.path, "timed_out");
}

#[test]
fn cluster_count_beyond_machine_range_is_an_error() {
    let doc = CLUSTER_DOC.replace(
        "\"number_of_nodes\": 3",
        "\"number_of_nodes\": 2147483648",
    );
    let e = decode_resource(ResourceKind::Cluster, &doc).unwrap_err();
    assert_eq!(e.path, "number_of_nodes");
}

#[test]
fn cluster_counts_at_machine_range_decode() {
    let doc = CLUSTER_DOC
        .replace("\"number_of_nodes\": 3", "\"number_of_nodes\": 2147483647")
        .replace(
            "\"number_of_data_nodes\": 2",
            "\"number_of_data_nodes\": -2147483648",
        );
    let c = match decode_resource(ResourceKind::Cluster, &doc).unwrap() {
        Resource::Cluster(c) => c,
        _ => panic!("wrong resource kind"),
    };
    assert_eq!(c.number_of_nodes, i32::MAX);
    assert_eq!(c.number_of_data_nodes, i32::MIN);
}

#[test]
fn fractional_count_is_an_error() {
    let doc = CLUSTER_DOC.replace("\"number_of_nodes\": 3", "\"number_of_nodes\": 3.5");
    let e = decode_resource(ResourceKind::Cluster, &doc).unwrap_err();
    assert_eq!(e.path, "number_of_nodes");
}

#[test]
fn count_just_below_machine_range_is_an_error() {
    let doc = CLUSTER_DOC.replace(
        "\"number_of_nodes\": 3",
        "\"number_of_nodes\": -2147483649",
    );
    let e = decode_resource(ResourceKind::Cluster, &doc).unwrap_err();
    assert_eq!(e.path, "number_of_nodes");
}

#[test]
fn malformed_json_is_an_error() {
    let e = decode_resource(ResourceKind::Cluster, "{\"cluster_name\": ").unwrap_err();
    assert_eq!(e.path, "");
    assert!(!e.message.is_empty());
}

#[test]
fn non_object_cluster_doc_is_an_error() {
    assert!(decode_resource(ResourceKind::Cluster, "[1, 2, 3]").is_err());
}

const INDICES_DOC: &str = r#"[
  {
    "health": "green",
    "status": "open",
    "index": "logs-2024",
    "uuid": "aAbB01",
    "pri": "3",
    "rep": "1",
    "docs.count": "120000",
    "docs.deleted": "35",
    "store.size": "1.2gb",
    "pri.store.size": "600mb"
  },
  {
    "health": "red",
    "status": "close",
    "index": "old-logs",
    "uuid": "zZyY99",
    "pri": "1",
    "rep": "0",
    "docs_count": null,
    "docs_deleted": null,
    "store_size": "0b",
    "pri_store_size": null
  }
]"#;

#[test]
fn index_catalog_decodes_with_dotted_aliases() {
    let xs = match decode_resource(ResourceKind::Indices, INDICES_DOC).unwrap() {
        Resource::Indices(xs) => xs,
        _ => panic!("wrong resource kind"),
    };
    assert_eq!(xs.len(), 2);
    assert_eq!(xs[0].index, "logs-2024");
    assert_eq!(xs[0].docs_count.as_deref(), Some("120000"));
    assert_eq!(xs[0].docs_deleted.as_deref(), Some("35"));
    assert_eq!(xs[0].store_size, "1.2gb");
    assert_eq!(xs[0].pri_store_size.as_deref(), Some("600mb"));
    assert_eq!(xs[1].index, "old-logs");
    assert_eq!(xs[1].docs_count, None);
    assert_eq!(xs[1].docs_deleted, None);
    assert_eq!(xs[1].store_size, "0b");
    assert_eq!(xs[1].pri_store_size, None);
}

#[test]
fn index_catalog_reencode_round_trips() {
    let xs = match decode_resource(ResourceKind::Indices, INDICES_DOC).unwrap() {
        Resource::Indices(xs) => xs,
        _ => panic!("wrong resource kind"),
    };
    let doc = encode_index_list(&xs);
    let again = decode_index_list(&doc).unwrap();
    assert_eq!(xs, again);
}

#[test]
fn empty_index_catalog_decodes() {
    let xs = match decode_resource(ResourceKind::Indices, "[]").unwrap() {
        Resource::Indices(xs) => xs,
        _ => panic!("wrong resource kind"),
    };
    assert!(xs.is_empty());
}

#[test]
fn index_row_error_carries_its_position() {
    let doc = r#"[
      {"health": "green", "status": "open", "index": "a", "uuid": "u",
       "pri": "1", "rep": "1", "store.size": "1b"},
      {"health": "green", "status": "open", "index": "b", "uuid": "u",
       "pri": "1", "rep": 2, "store.size": "1b"}
    ]"#;
    let e = decode_resource(ResourceKind::Indices, doc).unwrap_err();
    assert_eq!(e.path, "[1].rep");
}

const SHARDS_DOC: &str = r#"[
  {
    "index": "logs-2024",
    "shard": "0",
    "prirep": "p",
    "state": "STARTED",
    "docs": "60000",
    "store": "600mb",
    "ip": "10.0.0.5",
    "node": "node-1"
  },
  {
    "index": "logs-2024",
    "shard": "1",
    "prirep": "r",
    "state": "UNASSIGNED"
  }
]"#;

#[test]
fn unassigned_shard_decodes_with_absent_fields() {
    let xs = match decode_resource(ResourceKind::Shards, SHARDS_DOC).unwrap() {
        Resource::Shards(xs) => xs,
        _ => panic!("wrong resource kind"),
    };
    assert_eq!(xs.len(), 2);
    assert_eq!(xs[0].ip.as_deref(), Some("10.0.0.5"));
    assert_eq!(xs[0].node.as_deref(), Some("node-1"));
    let unassigned = &xs[1];
    assert_eq!(unassigned.state, "UNASSIGNED");
    assert_eq!(unassigned.ip, None);
    assert_eq!(unassigned.node, None);
    assert_eq!(unassigned.docs, None);
    assert_eq!(unassigned.store, None);
}

#[test]
fn null_shard_fields_decode_as_absent() {
    let doc = r#"[{"index": "a", "shard": "0", "prirep": "p", "state": "UNASSIGNED",
                   "docs": null, "store": null, "ip": null, "node": null}]"#;
    let xs = match decode_resource(ResourceKind::Shards, doc).unwrap() {
        Resource::Shards(xs) => xs,
        _ => panic!("wrong resource kind"),
    };
    assert_eq!(xs[0].ip, None);
    assert_eq!(xs[0].node, None);
}

#[test]
fn shard_catalog_reencode_round_trips() {
    let xs = match decode_resource(ResourceKind::Shards, SHARDS_DOC).unwrap() {
        Resource::Shards(xs) => xs,
        _ => panic!("wrong resource kind"),
    };
    let doc = encode_shard_list(&xs);
    let again = decode_shard_list(&doc).unwrap();
    assert_eq!(xs, again);
}

#[test]
fn shard_with_wrong_optional_type_is_an_error() {
    let doc = r#"[{"index": "a", "shard": "0", "prirep": "p", "state": "STARTED", "ip": 7}]"#;
    let e = decode_resource(ResourceKind::Shards, doc).unwrap_err();
    assert_eq!(e.path, "[0].ip");
}

#[test]
fn query_relocating_keeps_only_unsettled_shards() {
    let xs = match decode_resource(ResourceKind::Shards, SHARDS_DOC).unwrap() {
        Resource::Shards(xs) => xs,
        _ => panic!("wrong resource kind"),
    };
    let moving: Vec<ShallowShard> = parietal::query::Query::relocating(&xs);
    assert_eq!(moving.len(), 1);
    assert_eq!(moving[0].state, "UNASSIGNED");
}

#[test]
fn query_shards_filters_by_index() {
    let xs = match decode_resource(ResourceKind::Shards, SHARDS_DOC).unwrap() {
        Resource::Shards(xs) => xs,
        _ => panic!("wrong resource kind"),
    };
    let all = parietal::query::Query::shards(&xs, None);
    assert_eq!(all.len(), 2);
    let hit = parietal::query::Query::shards(&xs, Some("logs-2024"));
    assert_eq!(hit.len(), 2);
    let miss = parietal::query::Query::shards(&xs, Some("no-such-index"));
    assert!(miss.is_empty());
}

#[test]
fn query_api_version_is_fixed() {
    assert_eq!(parietal::query::Query::api_version(), "1.0");
}
