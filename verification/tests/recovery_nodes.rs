use parietal::client::{decode_resource, Resource, ResourceKind};
use parietal::nodes::{decode_ninfo, encode_ninfo};
use parietal::recovery::{decode_recovery, encode_recovery};

fn recovery_shard_json(stage: &str) -> String {
    format!(
        r#"{{
      "type": "PEER",
      "stage": {stage},
      "primary": true,
      "start_time_in_millis": 1714649223099,
      "total_time_in_millis": 912345678901234567890,
      "source": {{"id": "n1", "host": "h1", "transport_address": "10.0.0.1:9300",
                  "ip": "10.0.0.1", "name": "node-1"}},
      "target": {{"id": "n2", "host": "h2", "transport_address": "10.0.0.2:9300",
                  "ip": "10.0.0.2", "name": "node-2"}},
      "index": {{
        "size": {{"total_in_bytes": 98765432109876543210, "reused_in_bytes": 0,
                  "recovered_in_bytes": 123, "recovered_from_snapshot_in_bytes": 0,
                  "percent": "18.2%"}},
        "files": {{"total": 40, "reused": 0, "recovered": 12, "percent": "30.0%"}},
        "total_time_in_millis": 800,
        "source_throttle_time_in_millis": 0,
        "target_throttle_time_in_millis": 0
      }},
      "translog": {{"recovered": 10, "total": 100, "percent": "10.0%",
                    "total_on_start": 100, "total_time_in_millis": 50}},
      "verify_index": {{"check_index_time_in_millis": 0, "total_time_in_millis": 0}}
    }}"#
    )
}

fn recovery_doc() -> String {
    let shard = recovery_shard_json("\"INDEX\"");
    format!(r#"{{"idx-a": {{"shards": [{shard}]}}, "idx-b": {{"shards": []}}}}"#)
}

#[test]
fn recovery_keys_become_ids_in_order() {
    let doc = recovery_doc();
    let r = match decode_resource(ResourceKind::Recovery, &doc).unwrap() {
        Resource::Recovery(r) => r,
        _ => panic!("wrong resource kind"),
    };
    assert_eq!(r.indices.len(), 2);
    assert_eq!(r.indices[0].id, "idx-a");
    assert_eq!(r.indices[1].id, "idx-b");
    assert_eq!(r.indices[0].shards.len(), 1);
    assert!(r.indices[1].shards.is_empty());
}

#[test]
fn recovery_ids_survive_reversed_key_order() {
    let shard = recovery_shard_json("\"INDEX\"");
    let doc = format!(r#"{{"idx-b": {{"shards": []}}, "idx-a": {{"shards": [{shard}]}}}}"#);
    let r = match decode_resource(ResourceKind::Recovery, &doc).unwrap() {
        Resource::Recovery(r) => r,
        _ => panic!("wrong resource kind"),
    };
    let mut ids: Vec<&str> = r.indices.iter().map(|x| x.id.as_str()).collect();
    assert_eq!(ids, ["idx-b", "idx-a"]);
    ids.sort();
    assert_eq!(ids, ["idx-a", "idx-b"]);
}

#[test]
fn recovery_counters_keep_arbitrary_precision() {
    let doc = recovery_doc();
    let r = match decode_resource(ResourceKind::Recovery, &doc).unwrap() {
        Resource::Recovery(r) => r,
        _ => panic!("wrong resource kind"),
    };
    let shard = &r.indices[0].shards[0];
    assert_eq!(shard.total_time_in_millis, "912345678901234567890");
    assert_eq!(shard.index.size.total_in_bytes, "98765432109876543210");
    assert_eq!(shard.index.size.percent, "18.2%");
    assert_eq!(shard.shard_type, "PEER");
    assert!(shard.primary);
    assert_eq!(shard.source.name, "node-1");
    assert_eq!(shard.target.name, "node-2");
    assert_eq!(shard.translog.total_on_start, 100);
    assert_eq!(shard.verify_index.total_time_in_millis, 0);
}

#[test]
fn recovery_reencode_round_trips_with_ids() {
    let doc = recovery_doc();
    let r = match decode_resource(ResourceKind::Recovery, &doc).unwrap() {
        Resource::Recovery(r) => r,
        _ => panic!("wrong resource kind"),
    };
    let tree = encode_recovery(&r);
    let again = decode_recovery(&tree).unwrap();
    assert_eq!(r, again);
}

#[test]
fn empty_recovery_doc_decodes_to_no_indices() {
    let r = match decode_resource(ResourceKind::Recovery, "{}").unwrap() {
        Resource::Recovery(r) => r,
        _ => panic!("wrong resource kind"),
    };
    assert!(r.indices.is_empty());
}

#[test]
fn recovery_error_path_walks_key_list_and_field() {
    let shard = recovery_shard_json("17");
    let doc = format!(r#"{{"idx-a": {{"shards": [{shard}]}}}}"#);
    let e = decode_resource(ResourceKind::Recovery, &doc).unwrap_err();
    assert_eq!(e.path, "idx-a.shards.[0].stage");
}

fn node_json(name: &str, percent: u32) -> String {
    format!(
        r#"{{
      "name": "{name}",
      "transport_address": "10.0.0.1:9300",
      "host": "10.0.0.1",
      "ip": "10.0.0.1",
      "roles": ["data", "master"],
      "attributes": {{"storage_type": "ssd", "ml.machine_memory": "68719476736",
                      "datacenter": "us-east"}},
      "process": {{"timestamp": 1714649223099, "cpu": {{"percent": {percent}}},
                   "mem": {{"total_virtual_in_bytes": 123456789012345678901234567890}}}},
      "fs": {{"total": {{"total_in_bytes": 1000, "free_in_bytes": 500,
                         "available_in_bytes": 450}},
              "io_stats": {{"total": {{"operations": 1, "read_operations": 2,
                                       "write_operations": 3, "read_kilobytes": 4,
                                       "write_kilobytes": 5}}}}}},
      "os": {{"mem": {{"total_in_bytes": 100, "free_in_bytes": 50, "used_in_bytes": 50,
                       "free_percent": 50, "used_percent": 50}},
              "swap": {{"total_in_bytes": 0, "free_in_bytes": 0, "used_in_bytes": 0}},
              "cpu": {{"percent": 7}}}}
    }}"#
    )
}

fn nodes_doc() -> String {
    let a = node_json("node-1", 12);
    let b = node_json("node-2", 93);
    format!(r#"{{"nodes": {{"aAbB01xyz": {a}, "zZyY99abc": {b}}}}}"#)
}

#[test]
fn node_keys_are_discarded_one_entry_per_key() {
    let doc = nodes_doc();
    let out = match decode_resource(ResourceKind::Nodes, &doc).unwrap() {
        Resource::Nodes(n) => n,
        _ => panic!("wrong resource kind"),
    };
    assert_eq!(out.nodes.len(), 2);
    assert_eq!(out.nodes[0].name, "node-1");
    assert_eq!(out.nodes[1].name, "node-2");
}

#[test]
fn node_attributes_become_ordered_pairs_covering_every_key_once() {
    let doc = nodes_doc();
    let out = match decode_resource(ResourceKind::Nodes, &doc).unwrap() {
        Resource::Nodes(n) => n,
        _ => panic!("wrong resource kind"),
    };
    let attrs = &out.nodes[0].attributes;
    assert_eq!(attrs.len(), 3);
    assert_eq!(attrs[0].key, "storage_type");
    assert_eq!(attrs[0].value, "ssd");
    assert_eq!(attrs[1].key, "ml.machine_memory");
    assert_eq!(attrs[1].value, "68719476736");
    assert_eq!(attrs[2].key, "datacenter");
    assert_eq!(attrs[2].value, "us-east");
}

#[test]
fn node_stats_decode_through_the_alias_and_keep_precision() {
    let doc = nodes_doc();
    let out = match decode_resource(ResourceKind::Nodes, &doc).unwrap() {
        Resource::Nodes(n) => n,
        _ => panic!("wrong resource kind"),
    };
    let n = &out.nodes[0];
    assert_eq!(n.roles, ["data", "master"]);
    assert_eq!(n.process.cpu.percent, 12);
    assert_eq!(
        n.process.mem.total_virtual_in_bytes,
        "123456789012345678901234567890"
    );
    assert_eq!(n.fs.stats.total.write_kilobytes, "5");
    assert_eq!(n.os.mem.free_percent, Some(50));
    assert_eq!(n.os.swap.used_percent, None);
    assert_eq!(n.os.cpu.percent, 7);
}

#[test]
fn node_record_reencode_round_trips() {
    let doc = nodes_doc();
    let out = match decode_resource(ResourceKind::Nodes, &doc).unwrap() {
        Resource::Nodes(n) => n,
        _ => panic!("wrong resource kind"),
    };
    for node in &out.nodes {
        let tree = encode_ninfo(node);
        let again = decode_ninfo(&tree).unwrap();
        assert_eq!(*node, again);
    }
}

#[test]
fn node_error_path_names_the_node_key() {
    let bad = node_json("node-1", 12).replace("\"host\": \"10.0.0.1\"", "\"host\": 4");
    let doc = format!(r#"{{"nodes": {{"aAbB01xyz": {bad}}}}}"#);
    let e = decode_resource(ResourceKind::Nodes, &doc).unwrap_err();
    assert_eq!(e.path, "nodes.aAbB01xyz.host");
}
