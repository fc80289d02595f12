//! Aggregate cluster health: the summary document, one per cluster.

use vstd::prelude::*;

use crate::decode::{req_bool, req_i32, req_num, req_str, DecodeError};
use crate::json::{entries_view, seek, Json, JsonV};
use crate::num::{int_text, lemma_parse_int_text};

verus! {

broadcast use vstd::seq::group_seq_axioms, vstd::std_specs::vec::group_vec_axioms;

/// Basic cluster information, such as health and status.
///
/// The shard-percentage field keeps the raw number lexeme of the document:
/// the upstream emits it as a fraction, which no integer field can hold.
#[derive(Debug, Clone, PartialEq)]
pub struct ClusterInfo {
    pub cluster_name: String,
    pub status: String,
    pub timed_out: bool,
    pub number_of_nodes: i32,
    pub number_of_data_nodes: i32,
    pub active_primary_shards: i32,
    pub active_shards: i32,
    pub relocating_shards: i32,
    pub initializing_shards: i32,
    pub unassigned_shards: i32,
    pub delayed_unassigned_shards: i32,
    pub number_of_pending_tasks: i32,
    pub number_of_in_flight_fetch: i32,
    pub task_max_waiting_in_queue_millis: i32,
    pub active_shards_percent_as_number: String,
}

pub struct ClusterInfoV {
    pub cluster_name: Seq<char>,
    pub status: Seq<char>,
    pub timed_out: bool,
    pub number_of_nodes: int,
    pub number_of_data_nodes: int,
    pub active_primary_shards: int,
    pub active_shards: int,
    pub relocating_shards: int,
    pub initializing_shards: int,
    pub unassigned_shards: int,
    pub delayed_unassigned_shards: int,
    pub number_of_pending_tasks: int,
    pub number_of_in_flight_fetch: int,
    pub task_max_waiting_in_queue_millis: int,
    pub active_shards_percent_as_number: Seq<char>,
}

impl ClusterInfoV {
    /// Every integer field fits the machine type that carries it.
    pub open spec fn wf(self) -> bool {
        &&& i32::MIN <= self.number_of_nodes <= i32::MAX
        &&& i32::MIN <= self.number_of_data_nodes <= i32::MAX
        &&& i32::MIN <= self.active_primary_shards <= i32::MAX
        &&& i32::MIN <= self.active_shards <= i32::MAX
        &&& i32::MIN <= self.relocating_shards <= i32::MAX
        &&& i32::MIN <= self.initializing_shards <= i32::MAX
        &&& i32::MIN <= self.unassigned_shards <= i32::MAX
        &&& i32::MIN <= self.delayed_unassigned_shards <= i32::MAX
        &&& i32::MIN <= self.number_of_pending_tasks <= i32::MAX
        &&& i32::MIN <= self.number_of_in_flight_fetch <= i32::MAX
        &&& i32::MIN <= self.task_max_waiting_in_queue_millis <= i32::MAX
    }
}

impl View for ClusterInfo {
    type V = ClusterInfoV;

    open spec fn view(&self) -> ClusterInfoV {
        ClusterInfoV {
            cluster_name: self.cluster_name@,
            status: self.status@,
            timed_out: self.timed_out,
            number_of_nodes: self.number_of_nodes as int,
            number_of_data_nodes: self.number_of_data_nodes as int,
            active_primary_shards: self.active_primary_shards as int,
            active_shards: self.active_shards as int,
            relocating_shards: self.relocating_shards as int,
            initializing_shards: self.initializing_shards as int,
            unassigned_shards: self.unassigned_shards as int,
            delayed_unassigned_shards: self.delayed_unassigned_shards as int,
            number_of_pending_tasks: self.number_of_pending_tasks as int,
            number_of_in_flight_fetch: self.number_of_in_flight_fetch as int,
            task_max_waiting_in_queue_millis: self.task_max_waiting_in_queue_millis as int,
            active_shards_percent_as_number: self.active_shards_percent_as_number@,
        }
    }
}

/// What a cluster-health document denotes, if it is well-shaped: an object
/// with the fields below, of the right types; unknown extra fields are
/// ignored.
pub open spec fn dec_cluster(v: JsonV) -> Option<ClusterInfoV> {
    match v {
        JsonV::Obj(es) => {
            if req_str(es, "cluster_name"@) is Some && req_str(es, "status"@) is Some && req_bool(
                es,
                "timed_out"@,
            ) is Some && req_i32(es, "number_of_nodes"@) is Some && req_i32(
                es,
                "number_of_data_nodes"@,
            ) is Some && req_i32(es, "active_primary_shards"@) is Some && req_i32(
                es,
                "active_shards"@,
            ) is Some && req_i32(es, "relocating_shards"@) is Some && req_i32(
                es,
                "initializing_shards"@,
            ) is Some && req_i32(es, "unassigned_shards"@) is Some && req_i32(
                es,
                "delayed_unassigned_shards"@,
            ) is Some && req_i32(es, "number_of_pending_tasks"@) is Some && req_i32(
                es,
                "number_of_in_flight_fetch"@,
            ) is Some && req_i32(es, "task_max_waiting_in_queue_millis"@) is Some && req_num(
                es,
                "active_shards_percent_as_number"@,
            ) is Some {
                Some(
                    ClusterInfoV {
                        cluster_name: req_str(es, "cluster_name"@)->0,
                        status: req_str(es, "status"@)->0,
                        timed_out: req_bool(es, "timed_out"@)->0,
                        number_of_nodes: req_i32(es, "number_of_nodes"@)->0,
                        number_of_data_nodes: req_i32(es, "number_of_data_nodes"@)->0,
                        active_primary_shards: req_i32(es, "active_primary_shards"@)->0,
                        active_shards: req_i32(es, "active_shards"@)->0,
                        relocating_shards: req_i32(es, "relocating_shards"@)->0,
                        initializing_shards: req_i32(es, "initializing_shards"@)->0,
                        unassigned_shards: req_i32(es, "unassigned_shards"@)->0,
                        delayed_unassigned_shards: req_i32(es, "delayed_unassigned_shards"@)->0,
                        number_of_pending_tasks: req_i32(es, "number_of_pending_tasks"@)->0,
                        number_of_in_flight_fetch: req_i32(es, "number_of_in_flight_fetch"@)->0,
                        task_max_waiting_in_queue_millis: req_i32(
                            es,
                            "task_max_waiting_in_queue_millis"@,
                        )->0,
                        active_shards_percent_as_number: req_num(
                            es,
                            "active_shards_percent_as_number"@,
                        )->0,
                    },
                )
            } else {
                None
            }
        },
        _ => None,
    }
}

/// Decodes a cluster-health document.
pub fn decode_cluster(v: &Json) -> (r: Result<ClusterInfo, DecodeError>)
    ensures
        r is Ok <==> dec_cluster(v@) is Some,
        r matches Ok(c) ==> dec_cluster(v@) == Some(c@),
{
    let es = crate::decode::as_obj(v)?;
    let cluster_name = crate::decode::get_req_str(es, "cluster_name")?;
    let status = crate::decode::get_req_str(es, "status")?;
    let timed_out = crate::decode::get_req_bool(es, "timed_out")?;
    let number_of_nodes = crate::decode::get_req_i32(es, "number_of_nodes")?;
    let number_of_data_nodes = crate::decode::get_req_i32(es, "number_of_data_nodes")?;
    let active_primary_shards = crate::decode::get_req_i32(es, "active_primary_shards")?;
    let active_shards = crate::decode::get_req_i32(es, "active_shards")?;
    let relocating_shards = crate::decode::get_req_i32(es, "relocating_shards")?;
    let initializing_shards = crate::decode::get_req_i32(es, "initializing_shards")?;
    let unassigned_shards = crate::decode::get_req_i32(es, "unassigned_shards")?;
    let delayed_unassigned_shards = crate::decode::get_req_i32(es, "delayed_unassigned_shards")?;
    let number_of_pending_tasks = crate::decode::get_req_i32(es, "number_of_pending_tasks")?;
    let number_of_in_flight_fetch = crate::decode::get_req_i32(es, "number_of_in_flight_fetch")?;
    let task_max_waiting_in_queue_millis = crate::decode::get_req_i32(
        es,
        "task_max_waiting_in_queue_millis",
    )?;
    let active_shards_percent_as_number = crate::decode::get_req_num(
        es,
        "active_shards_percent_as_number",
    )?;
    Ok(
        ClusterInfo {
            cluster_name,
            status,
            timed_out,
            number_of_nodes,
            number_of_data_nodes,
            active_primary_shards,
            active_shards,
            relocating_shards,
            initializing_shards,
            unassigned_shards,
            delayed_unassigned_shards,
            number_of_pending_tasks,
            number_of_in_flight_fetch,
            task_max_waiting_in_queue_millis,
            active_shards_percent_as_number,
        },
    )
}

/// The canonical document of a cluster summary.
pub open spec fn enc_cluster(c: ClusterInfoV) -> JsonV {
    JsonV::Obj(
        seq![
            ("cluster_name"@, JsonV::Str(c.cluster_name)),
            ("status"@, JsonV::Str(c.status)),
            ("timed_out"@, JsonV::Bool(c.timed_out)),
            ("number_of_nodes"@, JsonV::Num(int_text(c.number_of_nodes))),
            ("number_of_data_nodes"@, JsonV::Num(int_text(c.number_of_data_nodes))),
            ("active_primary_shards"@, JsonV::Num(int_text(c.active_primary_shards))),
            ("active_shards"@, JsonV::Num(int_text(c.active_shards))),
            ("relocating_shards"@, JsonV::Num(int_text(c.relocating_shards))),
            ("initializing_shards"@, JsonV::Num(int_text(c.initializing_shards))),
            ("unassigned_shards"@, JsonV::Num(int_text(c.unassigned_shards))),
            ("delayed_unassigned_shards"@, JsonV::Num(int_text(c.delayed_unassigned_shards))),
            ("number_of_pending_tasks"@, JsonV::Num(int_text(c.number_of_pending_tasks))),
            ("number_of_in_flight_fetch"@, JsonV::Num(int_text(c.number_of_in_flight_fetch))),
            (
                "task_max_waiting_in_queue_millis"@,
                JsonV::Num(int_text(c.task_max_waiting_in_queue_millis)),
            ),
            (
                "active_shards_percent_as_number"@,
                JsonV::Num(c.active_shards_percent_as_number),
            ),
        ],
    )
}

/// Re-encodes a cluster summary as its canonical document.
pub fn encode_cluster(c: &ClusterInfo) -> (j: Json)
    ensures
        j@ == enc_cluster(c@),
{
    let mut es: Vec<(String, Json)> = Vec::new();
    es.push(("cluster_name".to_owned(), Json::Str(c.cluster_name.clone())));
    es.push(("status".to_owned(), Json::Str(c.status.clone())));
    es.push(("timed_out".to_owned(), Json::Bool(c.timed_out)));
    es.push(("number_of_nodes".to_owned(), Json::Num(crate::num::i32_text(c.number_of_nodes))));
    es.push(
        (
            "number_of_data_nodes".to_owned(),
            Json::Num(crate::num::i32_text(c.number_of_data_nodes)),
        ),
    );
    es.push(
        (
            "active_primary_shards".to_owned(),
            Json::Num(crate::num::i32_text(c.active_primary_shards)),
        ),
    );
    es.push(("active_shards".to_owned(), Json::Num(crate::num::i32_text(c.active_shards))));
    es.push(
        ("relocating_shards".to_owned(), Json::Num(crate::num::i32_text(c.relocating_shards))),
    );
    es.push(
        (
            "initializing_shards".to_owned(),
            Json::Num(crate::num::i32_text(c.initializing_shards)),
        ),
    );
    es.push(
        ("unassigned_shards".to_owned(), Json::Num(crate::num::i32_text(c.unassigned_shards))),
    );
    es.push(
        (
            "delayed_unassigned_shards".to_owned(),
            Json::Num(crate::num::i32_text(c.delayed_unassigned_shards)),
        ),
    );
    es.push(
        (
            "number_of_pending_tasks".to_owned(),
            Json::Num(crate::num::i32_text(c.number_of_pending_tasks)),
        ),
    );
    es.push(
        (
            "number_of_in_flight_fetch".to_owned(),
            Json::Num(crate::num::i32_text(c.number_of_in_flight_fetch)),
        ),
    );
    es.push(
        (
            "task_max_waiting_in_queue_millis".to_owned(),
            Json::Num(crate::num::i32_text(c.task_max_waiting_in_queue_millis)),
        ),
    );
    es.push(
        (
            "active_shards_percent_as_number".to_owned(),
            Json::Num(c.active_shards_percent_as_number.clone()),
        ),
    );
    proof {
        let ges = entries_view(es@);
        let target = enc_cluster(c@)->Obj_0;
        assert(ges.len() == 15);
        assert(ges =~= target);
    }
    let j = Json::Obj(es);
    proof {
        assert(j@ == enc_cluster(c@));
    }
    j
}

/// Decoding the canonical document of a cluster summary gives the summary
/// back: no field is lost by re-encoding.
#[verifier::rlimit(100)]
pub proof fn lemma_cluster_round_trip(c: ClusterInfoV)
    requires
        c.wf(),
    ensures
        dec_cluster(enc_cluster(c)) == Some(c),
{
    reveal_strlit("cluster_name");
    reveal_strlit("status");
    reveal_strlit("timed_out");
    reveal_strlit("number_of_nodes");
    reveal_strlit("number_of_data_nodes");
    reveal_strlit("active_primary_shards");
    reveal_strlit("active_shards");
    reveal_strlit("relocating_shards");
    reveal_strlit("initializing_shards");
    reveal_strlit("unassigned_shards");
    reveal_strlit("delayed_unassigned_shards");
    reveal_strlit("number_of_pending_tasks");
    reveal_strlit("number_of_in_flight_fetch");
    reveal_strlit("task_max_waiting_in_queue_millis");
    reveal_strlit("active_shards_percent_as_number");
    assert("cluster_name"@.len() == 12);
    assert("status"@.len() == 6);
    assert("timed_out"@.len() == 9);
    assert("number_of_nodes"@.len() == 15);
    assert("number_of_data_nodes"@.len() == 20);
    assert("active_primary_shards"@.len() == 21);
    assert("active_shards"@.len() == 13);
    assert("relocating_shards"@.len() == 17);
    assert("initializing_shards"@.len() == 19);
    assert("unassigned_shards"@.len() == 17);
    assert("delayed_unassigned_shards"@.len() == 25);
    assert("number_of_pending_tasks"@.len() == 23);
    assert("number_of_in_flight_fetch"@.len() == 25);
    assert("task_max_waiting_in_queue_millis"@.len() == 32);
    assert("active_shards_percent_as_number"@.len() == 31);
    assert("relocating_shards"@[0] == 'r');
    assert("unassigned_shards"@[0] == 'u');
    assert("delayed_unassigned_shards"@[0] == 'd');
    assert("number_of_in_flight_fetch"@[0] == 'n');
    lemma_parse_int_text(c.number_of_nodes);
    lemma_parse_int_text(c.number_of_data_nodes);
    lemma_parse_int_text(c.active_primary_shards);
    lemma_parse_int_text(c.active_shards);
    lemma_parse_int_text(c.relocating_shards);
    lemma_parse_int_text(c.initializing_shards);
    lemma_parse_int_text(c.unassigned_shards);
    lemma_parse_int_text(c.delayed_unassigned_shards);
    lemma_parse_int_text(c.number_of_pending_tasks);
    lemma_parse_int_text(c.number_of_in_flight_fetch);
    lemma_parse_int_text(c.task_max_waiting_in_queue_millis);
    reveal_with_fuel(crate::json::seek, 17);
    let es = enc_cluster(c)->Obj_0;
    assert(es.len() == 15);
    assert(seek(es, "cluster_name"@) == Some(JsonV::Str(c.cluster_name)));
    assert(seek(es, "status"@) == Some(JsonV::Str(c.status)));
    assert(seek(es, "timed_out"@) == Some(JsonV::Bool(c.timed_out)));
    assert(seek(es, "number_of_nodes"@) == Some(JsonV::Num(int_text(c.number_of_nodes))));
    assert(seek(es, "number_of_data_nodes"@) == Some(JsonV::Num(int_text(c.number_of_data_nodes))));
    assert(seek(es, "active_primary_shards"@) == Some(JsonV::Num(int_text(c.active_primary_shards))));
    assert(seek(es, "active_shards"@) == Some(JsonV::Num(int_text(c.active_shards))));
    assert(seek(es, "relocating_shards"@) == Some(JsonV::Num(int_text(c.relocating_shards))));
    assert(seek(es, "initializing_shards"@) == Some(JsonV::Num(int_text(c.initializing_shards))));
    assert(seek(es, "unassigned_shards"@) == Some(JsonV::Num(int_text(c.unassigned_shards))));
    assert(seek(es, "delayed_unassigned_shards"@) == Some(JsonV::Num(int_text(c.delayed_unassigned_shards))));
    assert(seek(es, "number_of_pending_tasks"@) == Some(JsonV::Num(int_text(c.number_of_pending_tasks))));
    assert(seek(es, "number_of_in_flight_fetch"@) == Some(JsonV::Num(int_text(c.number_of_in_flight_fetch))));
    assert(seek(es, "task_max_waiting_in_queue_millis"@) == Some(JsonV::Num(int_text(c.task_max_waiting_in_queue_millis))));
    assert(seek(es, "active_shards_percent_as_number"@) == Some(JsonV::Num(c.active_shards_percent_as_number)));
    assert(req_str(es, "cluster_name"@) == Some(c.cluster_name));
    assert(req_str(es, "status"@) == Some(c.status));
    assert(req_bool(es, "timed_out"@) == Some(c.timed_out));
    assert(req_i32(es, "number_of_nodes"@) == Some(c.number_of_nodes));
    assert(req_i32(es, "number_of_data_nodes"@) == Some(c.number_of_data_nodes));
    assert(req_i32(es, "active_primary_shards"@) == Some(c.active_primary_shards));
    assert(req_i32(es, "active_shards"@) == Some(c.active_shards));
    assert(req_i32(es, "relocating_shards"@) == Some(c.relocating_shards));
    assert(req_i32(es, "initializing_shards"@) == Some(c.initializing_shards));
    assert(req_i32(es, "unassigned_shards"@) == Some(c.unassigned_shards));
    assert(req_i32(es, "delayed_unassigned_shards"@) == Some(c.delayed_unassigned_shards));
    assert(req_i32(es, "number_of_pending_tasks"@) == Some(c.number_of_pending_tasks));
    assert(req_i32(es, "number_of_in_flight_fetch"@) == Some(c.number_of_in_flight_fetch));
    assert(req_i32(es, "task_max_waiting_in_queue_millis"@) == Some(c.task_max_waiting_in_queue_millis));
    assert(req_num(es, "active_shards_percent_as_number"@) == Some(c.active_shards_percent_as_number));
}

} // verus!
