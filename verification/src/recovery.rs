//! The shard-recovery report: the upstream keys it by index name, with an
//! object of in-flight shard recoveries under each key. Decoding flattens
//! that dynamic object into an explicit list, preserving each key as the
//! record's `id` — the one place where a document's opaque keys are data.

use vstd::prelude::*;

use crate::decode::{req_bool, req_i32, req_num, req_str, req_str2, DecodeError};
use crate::json::{arr_view, entries_view, seek, Json, JsonV};
use crate::num::{int_text, lemma_parse_int_text};

verus! {

broadcast use vstd::seq::group_seq_axioms, vstd::std_specs::vec::group_vec_axioms;

/// One endpoint of a recovery: the node the data comes from or goes to.
#[derive(Debug, Clone, PartialEq)]
pub struct NodeTargetInfo {
    pub id: String,
    pub host: String,
    pub transport_address: String,
    pub ip: String,
    pub name: String,
}

pub struct NodeTargetInfoV {
    pub id: Seq<char>,
    pub host: Seq<char>,
    pub transport_address: Seq<char>,
    pub ip: Seq<char>,
    pub name: Seq<char>,
}

impl View for NodeTargetInfo {
    type V = NodeTargetInfoV;

    open spec fn view(&self) -> NodeTargetInfoV {
        NodeTargetInfoV {
            id: self.id@,
            host: self.host@,
            transport_address: self.transport_address@,
            ip: self.ip@,
            name: self.name@,
        }
    }
}

pub open spec fn dec_nti(v: JsonV) -> Option<NodeTargetInfoV> {
    match v {
        JsonV::Obj(es) => {
            if req_str(es, "id"@) is Some && req_str(es, "host"@) is Some && req_str(
                es,
                "transport_address"@,
            ) is Some && req_str(es, "ip"@) is Some && req_str(es, "name"@) is Some {
                Some(
                    NodeTargetInfoV {
                        id: req_str(es, "id"@)->0,
                        host: req_str(es, "host"@)->0,
                        transport_address: req_str(es, "transport_address"@)->0,
                        ip: req_str(es, "ip"@)->0,
                        name: req_str(es, "name"@)->0,
                    },
                )
            } else {
                None
            }
        },
        _ => None,
    }
}

/// Decodes one recovery endpoint.
pub fn decode_nti(v: &Json) -> (r: Result<NodeTargetInfo, DecodeError>)
    ensures
        r is Ok <==> dec_nti(v@) is Some,
        r matches Ok(x) ==> dec_nti(v@) == Some(x@),
{
    let es = crate::decode::as_obj(v)?;
    let id = crate::decode::get_req_str(es, "id")?;
    let host = crate::decode::get_req_str(es, "host")?;
    let transport_address = crate::decode::get_req_str(es, "transport_address")?;
    let ip = crate::decode::get_req_str(es, "ip")?;
    let name = crate::decode::get_req_str(es, "name")?;
    Ok(NodeTargetInfo { id, host, transport_address, ip, name })
}

pub open spec fn enc_nti(x: NodeTargetInfoV) -> JsonV {
    JsonV::Obj(
        seq![
            ("id"@, JsonV::Str(x.id)),
            ("host"@, JsonV::Str(x.host)),
            ("transport_address"@, JsonV::Str(x.transport_address)),
            ("ip"@, JsonV::Str(x.ip)),
            ("name"@, JsonV::Str(x.name)),
        ],
    )
}

/// Re-encodes one recovery endpoint.
pub fn encode_nti(x: &NodeTargetInfo) -> (j: Json)
    ensures
        j@ == enc_nti(x@),
{
    let mut es: Vec<(String, Json)> = Vec::new();
    es.push(("id".to_owned(), Json::Str(x.id.clone())));
    es.push(("host".to_owned(), Json::Str(x.host.clone())));
    es.push(("transport_address".to_owned(), Json::Str(x.transport_address.clone())));
    es.push(("ip".to_owned(), Json::Str(x.ip.clone())));
    es.push(("name".to_owned(), Json::Str(x.name.clone())));
    proof {
        assert(entries_view(es@).len() == 5);
        assert(entries_view(es@) =~= enc_nti(x@)->Obj_0);
    }
    let j = Json::Obj(es);
    proof {
        assert(j@ == enc_nti(x@));
    }
    j
}

pub proof fn lemma_nti_round_trip(x: NodeTargetInfoV)
    ensures
        dec_nti(enc_nti(x)) == Some(x),
{
    reveal_strlit("id");
    reveal_strlit("host");
    reveal_strlit("transport_address");
    reveal_strlit("ip");
    reveal_strlit("name");
    assert("id"@.len() == 2);
    assert("host"@.len() == 4);
    assert("transport_address"@.len() == 17);
    assert("ip"@.len() == 2);
    assert("name"@.len() == 4);
    assert("id"@[1] == 'd');
    assert("ip"@[1] == 'p');
    assert("host"@[0] == 'h');
    assert("name"@[0] == 'n');
    reveal_with_fuel(crate::json::seek, 7);
    let es = enc_nti(x)->Obj_0;
    assert(seek(es, "id"@) == Some(JsonV::Str(x.id)));
    assert(seek(es, "host"@) == Some(JsonV::Str(x.host)));
    assert(seek(es, "transport_address"@) == Some(JsonV::Str(x.transport_address)));
    assert(seek(es, "ip"@) == Some(JsonV::Str(x.ip)));
    assert(seek(es, "name"@) == Some(JsonV::Str(x.name)));
}

/// Byte progress of one recovery, with its percentage left as raw text.
#[derive(Debug, Clone, PartialEq)]
pub struct SizeInfo {
    pub total_in_bytes: String,
    pub reused_in_bytes: String,
    pub recovered_in_bytes: String,
    pub recovered_from_snapshot_in_bytes: String,
    pub percent: String,
}

pub struct SizeInfoV {
    pub total_in_bytes: Seq<char>,
    pub reused_in_bytes: Seq<char>,
    pub recovered_in_bytes: Seq<char>,
    pub recovered_from_snapshot_in_bytes: Seq<char>,
    pub percent: Seq<char>,
}

impl View for SizeInfo {
    type V = SizeInfoV;

    open spec fn view(&self) -> SizeInfoV {
        SizeInfoV {
            total_in_bytes: self.total_in_bytes@,
            reused_in_bytes: self.reused_in_bytes@,
            recovered_in_bytes: self.recovered_in_bytes@,
            recovered_from_snapshot_in_bytes: self.recovered_from_snapshot_in_bytes@,
            percent: self.percent@,
        }
    }
}

pub open spec fn dec_size(v: JsonV) -> Option<SizeInfoV> {
    match v {
        JsonV::Obj(es) => {
            if req_num(es, "total_in_bytes"@) is Some && req_num(es, "reused_in_bytes"@) is Some
                && req_num(es, "recovered_in_bytes"@) is Some && req_num(
                es,
                "recovered_from_snapshot_in_bytes"@,
            ) is Some && req_str(es, "percent"@) is Some {
                Some(
                    SizeInfoV {
                        total_in_bytes: req_num(es, "total_in_bytes"@)->0,
                        reused_in_bytes: req_num(es, "reused_in_bytes"@)->0,
                        recovered_in_bytes: req_num(es, "recovered_in_bytes"@)->0,
                        recovered_from_snapshot_in_bytes: req_num(
                            es,
                            "recovered_from_snapshot_in_bytes"@,
                        )->0,
                        percent: req_str(es, "percent"@)->0,
                    },
                )
            } else {
                None
            }
        },
        _ => None,
    }
}

/// Decodes the byte progress of one recovery.
pub fn decode_size(v: &Json) -> (r: Result<SizeInfo, DecodeError>)
    ensures
        r is Ok <==> dec_size(v@) is Some,
        r matches Ok(x) ==> dec_size(v@) == Some(x@),
{
    let es = crate::decode::as_obj(v)?;
    let total_in_bytes = crate::decode::get_req_num(es, "total_in_bytes")?;
    let reused_in_bytes = crate::decode::get_req_num(es, "reused_in_bytes")?;
    let recovered_in_bytes = crate::decode::get_req_num(es, "recovered_in_bytes")?;
    let recovered_from_snapshot_in_bytes = crate::decode::get_req_num(
        es,
        "recovered_from_snapshot_in_bytes",
    )?;
    let percent = crate::decode::get_req_str(es, "percent")?;
    Ok(
        SizeInfo {
            total_in_bytes,
            reused_in_bytes,
            recovered_in_bytes,
            recovered_from_snapshot_in_bytes,
            percent,
        },
    )
}

pub open spec fn enc_size(x: SizeInfoV) -> JsonV {
    JsonV::Obj(
        seq![
            ("total_in_bytes"@, JsonV::Num(x.total_in_bytes)),
            ("reused_in_bytes"@, JsonV::Num(x.reused_in_bytes)),
            ("recovered_in_bytes"@, JsonV::Num(x.recovered_in_bytes)),
            ("recovered_from_snapshot_in_bytes"@, JsonV::Num(x.recovered_from_snapshot_in_bytes)),
            ("percent"@, JsonV::Str(x.percent)),
        ],
    )
}

/// Re-encodes the byte progress of one recovery.
pub fn encode_size(x: &SizeInfo) -> (j: Json)
    ensures
        j@ == enc_size(x@),
{
    let mut es: Vec<(String, Json)> = Vec::new();
    es.push(("total_in_bytes".to_owned(), Json::Num(x.total_in_bytes.clone())));
    es.push(("reused_in_bytes".to_owned(), Json::Num(x.reused_in_bytes.clone())));
    es.push(("recovered_in_bytes".to_owned(), Json::Num(x.recovered_in_bytes.clone())));
    es.push(
        (
            "recovered_from_snapshot_in_bytes".to_owned(),
            Json::Num(x.recovered_from_snapshot_in_bytes.clone()),
        ),
    );
    es.push(("percent".to_owned(), Json::Str(x.percent.clone())));
    proof {
        assert(entries_view(es@).len() == 5);
        assert(entries_view(es@) =~= enc_size(x@)->Obj_0);
    }
    let j = Json::Obj(es);
    proof {
        assert(j@ == enc_size(x@));
    }
    j
}

pub proof fn lemma_size_round_trip(x: SizeInfoV)
    ensures
        dec_size(enc_size(x)) == Some(x),
{
    reveal_strlit("total_in_bytes");
    reveal_strlit("reused_in_bytes");
    reveal_strlit("recovered_in_bytes");
    reveal_strlit("recovered_from_snapshot_in_bytes");
    reveal_strlit("percent");
    assert("total_in_bytes"@.len() == 14);
    assert("reused_in_bytes"@.len() == 15);
    assert("recovered_in_bytes"@.len() == 18);
    assert("recovered_from_snapshot_in_bytes"@.len() == 32);
    assert("percent"@.len() == 7);
    reveal_with_fuel(crate::json::seek, 7);
    let es = enc_size(x)->Obj_0;
    assert(seek(es, "total_in_bytes"@) == Some(JsonV::Num(x.total_in_bytes)));
    assert(seek(es, "reused_in_bytes"@) == Some(JsonV::Num(x.reused_in_bytes)));
    assert(seek(es, "recovered_in_bytes"@) == Some(JsonV::Num(x.recovered_in_bytes)));
    assert(seek(es, "recovered_from_snapshot_in_bytes"@) == Some(
        JsonV::Num(x.recovered_from_snapshot_in_bytes),
    ));
    assert(seek(es, "percent"@) == Some(JsonV::Str(x.percent)));
}

/// File progress of one recovery.
#[derive(Debug, Clone, PartialEq)]
pub struct FilesInfo {
    pub total: i32,
    pub reused: i32,
    pub recovered: i32,
    pub percent: String,
}

pub struct FilesInfoV {
    pub total: int,
    pub reused: int,
    pub recovered: int,
    pub percent: Seq<char>,
}

impl FilesInfoV {
    pub open spec fn wf(self) -> bool {
        &&& i32::MIN <= self.total <= i32::MAX
        &&& i32::MIN <= self.reused <= i32::MAX
        &&& i32::MIN <= self.recovered <= i32::MAX
    }
}

impl View for FilesInfo {
    type V = FilesInfoV;

    open spec fn view(&self) -> FilesInfoV {
        FilesInfoV {
            total: self.total as int,
            reused: self.reused as int,
            recovered: self.recovered as int,
            percent: self.percent@,
        }
    }
}

pub open spec fn dec_files(v: JsonV) -> Option<FilesInfoV> {
    match v {
        JsonV::Obj(es) => {
            if req_i32(es, "total"@) is Some && req_i32(es, "reused"@) is Some && req_i32(
                es,
                "recovered"@,
            ) is Some && req_str(es, "percent"@) is Some {
                Some(
                    FilesInfoV {
                        total: req_i32(es, "total"@)->0,
                        reused: req_i32(es, "reused"@)->0,
                        recovered: req_i32(es, "recovered"@)->0,
                        percent: req_str(es, "percent"@)->0,
                    },
                )
            } else {
                None
            }
        },
        _ => None,
    }
}

/// Decodes the file progress of one recovery.
pub fn decode_files(v: &Json) -> (r: Result<FilesInfo, DecodeError>)
    ensures
        r is Ok <==> dec_files(v@) is Some,
        r matches Ok(x) ==> dec_files(v@) == Some(x@),
{
    let es = crate::decode::as_obj(v)?;
    let total = crate::decode::get_req_i32(es, "total")?;
    let reused = crate::decode::get_req_i32(es, "reused")?;
    let recovered = crate::decode::get_req_i32(es, "recovered")?;
    let percent = crate::decode::get_req_str(es, "percent")?;
    Ok(FilesInfo { total, reused, recovered, percent })
}

pub open spec fn enc_files(x: FilesInfoV) -> JsonV {
    JsonV::Obj(
        seq![
            ("total"@, JsonV::Num(int_text(x.total))),
            ("reused"@, JsonV::Num(int_text(x.reused))),
            ("recovered"@, JsonV::Num(int_text(x.recovered))),
            ("percent"@, JsonV::Str(x.percent)),
        ],
    )
}

/// Re-encodes the file progress of one recovery.
pub fn encode_files(x: &FilesInfo) -> (j: Json)
    ensures
        j@ == enc_files(x@),
{
    let mut es: Vec<(String, Json)> = Vec::new();
    es.push(("total".to_owned(), Json::Num(crate::num::i32_text(x.total))));
    es.push(("reused".to_owned(), Json::Num(crate::num::i32_text(x.reused))));
    es.push(("recovered".to_owned(), Json::Num(crate::num::i32_text(x.recovered))));
    es.push(("percent".to_owned(), Json::Str(x.percent.clone())));
    proof {
        assert(entries_view(es@).len() == 4);
        assert(entries_view(es@) =~= enc_files(x@)->Obj_0);
    }
    let j = Json::Obj(es);
    proof {
        assert(j@ == enc_files(x@));
    }
    j
}

pub proof fn lemma_files_round_trip(x: FilesInfoV)
    requires
        x.wf(),
    ensures
        dec_files(enc_files(x)) == Some(x),
{
    reveal_strlit("total");
    reveal_strlit("reused");
    reveal_strlit("recovered");
    reveal_strlit("percent");
    assert("total"@.len() == 5);
    assert("reused"@.len() == 6);
    assert("recovered"@.len() == 9);
    assert("percent"@.len() == 7);
    lemma_parse_int_text(x.total);
    lemma_parse_int_text(x.reused);
    lemma_parse_int_text(x.recovered);
    reveal_with_fuel(crate::json::seek, 6);
    let es = enc_files(x)->Obj_0;
    assert(seek(es, "total"@) == Some(JsonV::Num(int_text(x.total))));
    assert(seek(es, "reused"@) == Some(JsonV::Num(int_text(x.reused))));
    assert(seek(es, "recovered"@) == Some(JsonV::Num(int_text(x.recovered))));
    assert(seek(es, "percent"@) == Some(JsonV::Str(x.percent)));
}

/// Transaction-log progress of one recovery.
#[derive(Debug, Clone, PartialEq)]
pub struct TranslogInfo {
    pub recovered: i32,
    pub total: i32,
    pub percent: String,
    pub total_on_start: i32,
    pub total_time_in_millis: i32,
}

pub struct TranslogInfoV {
    pub recovered: int,
    pub total: int,
    pub percent: Seq<char>,
    pub total_on_start: int,
    pub total_time_in_millis: int,
}

impl TranslogInfoV {
    pub open spec fn wf(self) -> bool {
        &&& i32::MIN <= self.recovered <= i32::MAX
        &&& i32::MIN <= self.total <= i32::MAX
        &&& i32::MIN <= self.total_on_start <= i32::MAX
        &&& i32::MIN <= self.total_time_in_millis <= i32::MAX
    }
}

impl View for TranslogInfo {
    type V = TranslogInfoV;

    open spec fn view(&self) -> TranslogInfoV {
        TranslogInfoV {
            recovered: self.recovered as int,
            total: self.total as int,
            percent: self.percent@,
            total_on_start: self.total_on_start as int,
            total_time_in_millis: self.total_time_in_millis as int,
        }
    }
}

pub open spec fn dec_translog(v: JsonV) -> Option<TranslogInfoV> {
    match v {
        JsonV::Obj(es) => {
            if req_i32(es, "recovered"@) is Some && req_i32(es, "total"@) is Some && req_str(
                es,
                "percent"@,
            ) is Some && req_i32(es, "total_on_start"@) is Some && req_i32(
                es,
                "total_time_in_millis"@,
            ) is Some {
                Some(
                    TranslogInfoV {
                        recovered: req_i32(es, "recovered"@)->0,
                        total: req_i32(es, "total"@)->0,
                        percent: req_str(es, "percent"@)->0,
                        total_on_start: req_i32(es, "total_on_start"@)->0,
                        total_time_in_millis: req_i32(es, "total_time_in_millis"@)->0,
                    },
                )
            } else {
                None
            }
        },
        _ => None,
    }
}

/// Decodes the transaction-log progress of one recovery.
pub fn decode_translog(v: &Json) -> (r: Result<TranslogInfo, DecodeError>)
    ensures
        r is Ok <==> dec_translog(v@) is Some,
        r matches Ok(x) ==> dec_translog(v@) == Some(x@),
{
    let es = crate::decode::as_obj(v)?;
    let recovered = crate::decode::get_req_i32(es, "recovered")?;
    let total = crate::decode::get_req_i32(es, "total")?;
    let percent = crate::decode::get_req_str(es, "percent")?;
    let total_on_start = crate::decode::get_req_i32(es, "total_on_start")?;
    let total_time_in_millis = crate::decode::get_req_i32(es, "total_time_in_millis")?;
    Ok(TranslogInfo { recovered, total, percent, total_on_start, total_time_in_millis })
}

pub open spec fn enc_translog(x: TranslogInfoV) -> JsonV {
    JsonV::Obj(
        seq![
            ("recovered"@, JsonV::Num(int_text(x.recovered))),
            ("total"@, JsonV::Num(int_text(x.total))),
            ("percent"@, JsonV::Str(x.percent)),
            ("total_on_start"@, JsonV::Num(int_text(x.total_on_start))),
            ("total_time_in_millis"@, JsonV::Num(int_text(x.total_time_in_millis))),
        ],
    )
}

/// Re-encodes the transaction-log progress of one recovery.
pub fn encode_translog(x: &TranslogInfo) -> (j: Json)
    ensures
        j@ == enc_translog(x@),
{
    let mut es: Vec<(String, Json)> = Vec::new();
    es.push(("recovered".to_owned(), Json::Num(crate::num::i32_text(x.recovered))));
    es.push(("total".to_owned(), Json::Num(crate::num::i32_text(x.total))));
    es.push(("percent".to_owned(), Json::Str(x.percent.clone())));
    es.push(("total_on_start".to_owned(), Json::Num(crate::num::i32_text(x.total_on_start))));
    es.push(
        (
            "total_time_in_millis".to_owned(),
            Json::Num(crate::num::i32_text(x.total_time_in_millis)),
        ),
    );
    proof {
        assert(entries_view(es@).len() == 5);
        assert(entries_view(es@) =~= enc_translog(x@)->Obj_0);
    }
    let j = Json::Obj(es);
    proof {
        assert(j@ == enc_translog(x@));
    }
    j
}

pub proof fn lemma_translog_round_trip(x: TranslogInfoV)
    requires
        x.wf(),
    ensures
        dec_translog(enc_translog(x)) == Some(x),
{
    reveal_strlit("recovered");
    reveal_strlit("total");
    reveal_strlit("percent");
    reveal_strlit("total_on_start");
    reveal_strlit("total_time_in_millis");
    assert("recovered"@.len() == 9);
    assert("total"@.len() == 5);
    assert("percent"@.len() == 7);
    assert("total_on_start"@.len() == 14);
    assert("total_time_in_millis"@.len() == 20);
    lemma_parse_int_text(x.recovered);
    lemma_parse_int_text(x.total);
    lemma_parse_int_text(x.total_on_start);
    lemma_parse_int_text(x.total_time_in_millis);
    reveal_with_fuel(crate::json::seek, 7);
    let es = enc_translog(x)->Obj_0;
    assert(seek(es, "recovered"@) == Some(JsonV::Num(int_text(x.recovered))));
    assert(seek(es, "total"@) == Some(JsonV::Num(int_text(x.total))));
    assert(seek(es, "percent"@) == Some(JsonV::Str(x.percent)));
    assert(seek(es, "total_on_start"@) == Some(JsonV::Num(int_text(x.total_on_start))));
    assert(seek(es, "total_time_in_millis"@) == Some(JsonV::Num(int_text(x.total_time_in_millis))));
}

/// Index-verification timing of one recovery.
#[derive(Debug, Clone, PartialEq)]
pub struct VerifyIndexInfo {
    pub check_index_time_in_millis: i32,
    pub total_time_in_millis: i32,
}

pub struct VerifyIndexInfoV {
    pub check_index_time_in_millis: int,
    pub total_time_in_millis: int,
}

impl VerifyIndexInfoV {
    pub open spec fn wf(self) -> bool {
        &&& i32::MIN <= self.check_index_time_in_millis <= i32::MAX
        &&& i32::MIN <= self.total_time_in_millis <= i32::MAX
    }
}

impl View for VerifyIndexInfo {
    type V = VerifyIndexInfoV;

    open spec fn view(&self) -> VerifyIndexInfoV {
        VerifyIndexInfoV {
            check_index_time_in_millis: self.check_index_time_in_millis as int,
            total_time_in_millis: self.total_time_in_millis as int,
        }
    }
}

pub open spec fn dec_verify(v: JsonV) -> Option<VerifyIndexInfoV> {
    match v {
        JsonV::Obj(es) => {
            if req_i32(es, "check_index_time_in_millis"@) is Some && req_i32(
                es,
                "total_time_in_millis"@,
            ) is Some {
                Some(
                    VerifyIndexInfoV {
                        check_index_time_in_millis: req_i32(es, "check_index_time_in_millis"@)->0,
                        total_time_in_millis: req_i32(es, "total_time_in_millis"@)->0,
                    },
                )
            } else {
                None
            }
        },
        _ => None,
    }
}

/// Decodes the index-verification timing of one recovery.
pub fn decode_verify(v: &Json) -> (r: Result<VerifyIndexInfo, DecodeError>)
    ensures
        r is Ok <==> dec_verify(v@) is Some,
        r matches Ok(x) ==> dec_verify(v@) == Some(x@),
{
    let es = crate::decode::as_obj(v)?;
    let check_index_time_in_millis = crate::decode::get_req_i32(es, "check_index_time_in_millis")?;
    let total_time_in_millis = crate::decode::get_req_i32(es, "total_time_in_millis")?;
    Ok(VerifyIndexInfo { check_index_time_in_millis, total_time_in_millis })
}

pub open spec fn enc_verify(x: VerifyIndexInfoV) -> JsonV {
    JsonV::Obj(
        seq![
            ("check_index_time_in_millis"@, JsonV::Num(int_text(x.check_index_time_in_millis))),
            ("total_time_in_millis"@, JsonV::Num(int_text(x.total_time_in_millis))),
        ],
    )
}

/// Re-encodes the index-verification timing of one recovery.
pub fn encode_verify(x: &VerifyIndexInfo) -> (j: Json)
    ensures
        j@ == enc_verify(x@),
{
    let mut es: Vec<(String, Json)> = Vec::new();
    es.push(
        (
            "check_index_time_in_millis".to_owned(),
            Json::Num(crate::num::i32_text(x.check_index_time_in_millis)),
        ),
    );
    es.push(
        (
            "total_time_in_millis".to_owned(),
            Json::Num(crate::num::i32_text(x.total_time_in_millis)),
        ),
    );
    proof {
        assert(entries_view(es@).len() == 2);
        assert(entries_view(es@) =~= enc_verify(x@)->Obj_0);
    }
    let j = Json::Obj(es);
    proof {
        assert(j@ == enc_verify(x@));
    }
    j
}

pub proof fn lemma_verify_round_trip(x: VerifyIndexInfoV)
    requires
        x.wf(),
    ensures
        dec_verify(enc_verify(x)) == Some(x),
{
    reveal_strlit("check_index_time_in_millis");
    reveal_strlit("total_time_in_millis");
    assert("check_index_time_in_millis"@.len() == 26);
    assert("total_time_in_millis"@.len() == 20);
    lemma_parse_int_text(x.check_index_time_in_millis);
    lemma_parse_int_text(x.total_time_in_millis);
    reveal_with_fuel(crate::json::seek, 4);
    let es = enc_verify(x)->Obj_0;
    assert(seek(es, "check_index_time_in_millis"@) == Some(
        JsonV::Num(int_text(x.check_index_time_in_millis)),
    ));
    assert(seek(es, "total_time_in_millis"@) == Some(JsonV::Num(int_text(x.total_time_in_millis))));
}

/// Time and progress details of one recovery, grouped as the upstream
/// reports them.
#[derive(Debug, Clone, PartialEq)]
pub struct TransportIndexInfo {
    pub size: SizeInfo,
    pub files: FilesInfo,
    pub total_time_in_millis: i32,
    pub source_throttle_time_in_millis: i32,
    pub target_throttle_time_in_millis: i32,
}

pub struct TransportIndexInfoV {
    pub size: SizeInfoV,
    pub files: FilesInfoV,
    pub total_time_in_millis: int,
    pub source_throttle_time_in_millis: int,
    pub target_throttle_time_in_millis: int,
}

impl TransportIndexInfoV {
    pub open spec fn wf(self) -> bool {
        &&& self.files.wf()
        &&& i32::MIN <= self.total_time_in_millis <= i32::MAX
        &&& i32::MIN <= self.source_throttle_time_in_millis <= i32::MAX
        &&& i32::MIN <= self.target_throttle_time_in_millis <= i32::MAX
    }
}

impl View for TransportIndexInfo {
    type V = TransportIndexInfoV;

    open spec fn view(&self) -> TransportIndexInfoV {
        TransportIndexInfoV {
            size: self.size@,
            files: self.files@,
            total_time_in_millis: self.total_time_in_millis as int,
            source_throttle_time_in_millis: self.source_throttle_time_in_millis as int,
            target_throttle_time_in_millis: self.target_throttle_time_in_millis as int,
        }
    }
}

pub open spec fn dec_tii(v: JsonV) -> Option<TransportIndexInfoV> {
    match v {
        JsonV::Obj(es) => {
            if seek(es, "size"@) is Some && dec_size(seek(es, "size"@)->0) is Some && seek(
                es,
                "files"@,
            ) is Some && dec_files(seek(es, "files"@)->0) is Some && req_i32(
                es,
                "total_time_in_millis"@,
            ) is Some && req_i32(es, "source_throttle_time_in_millis"@) is Some && req_i32(
                es,
                "target_throttle_time_in_millis"@,
            ) is Some {
                Some(
                    TransportIndexInfoV {
                        size: dec_size(seek(es, "size"@)->0)->0,
                        files: dec_files(seek(es, "files"@)->0)->0,
                        total_time_in_millis: req_i32(es, "total_time_in_millis"@)->0,
                        source_throttle_time_in_millis: req_i32(
                            es,
                            "source_throttle_time_in_millis"@,
                        )->0,
                        target_throttle_time_in_millis: req_i32(
                            es,
                            "target_throttle_time_in_millis"@,
                        )->0,
                    },
                )
            } else {
                None
            }
        },
        _ => None,
    }
}

/// Decodes the detail block of one recovery.
pub fn decode_tii(v: &Json) -> (r: Result<TransportIndexInfo, DecodeError>)
    ensures
        r is Ok <==> dec_tii(v@) is Some,
        r matches Ok(x) ==> dec_tii(v@) == Some(x@),
{
    let es = crate::decode::as_obj(v)?;
    let size_j = crate::decode::get_field(es, "size")?;
    let size = match decode_size(size_j) {
        Ok(x) => x,
        Err(e) => {
            return Err(e.under_key("size"));
        },
    };
    let files_j = crate::decode::get_field(es, "files")?;
    let files = match decode_files(files_j) {
        Ok(x) => x,
        Err(e) => {
            return Err(e.under_key("files"));
        },
    };
    let total_time_in_millis = crate::decode::get_req_i32(es, "total_time_in_millis")?;
    let source_throttle_time_in_millis = crate::decode::get_req_i32(
        es,
        "source_throttle_time_in_millis",
    )?;
    let target_throttle_time_in_millis = crate::decode::get_req_i32(
        es,
        "target_throttle_time_in_millis",
    )?;
    Ok(
        TransportIndexInfo {
            size,
            files,
            total_time_in_millis,
            source_throttle_time_in_millis,
            target_throttle_time_in_millis,
        },
    )
}

pub open spec fn enc_tii(x: TransportIndexInfoV) -> JsonV {
    JsonV::Obj(
        seq![
            ("size"@, enc_size(x.size)),
            ("files"@, enc_files(x.files)),
            ("total_time_in_millis"@, JsonV::Num(int_text(x.total_time_in_millis))),
            (
                "source_throttle_time_in_millis"@,
                JsonV::Num(int_text(x.source_throttle_time_in_millis)),
            ),
            (
                "target_throttle_time_in_millis"@,
                JsonV::Num(int_text(x.target_throttle_time_in_millis)),
            ),
        ],
    )
}

/// Re-encodes the detail block of one recovery.
pub fn encode_tii(x: &TransportIndexInfo) -> (j: Json)
    ensures
        j@ == enc_tii(x@),
{
    let mut es: Vec<(String, Json)> = Vec::new();
    es.push(("size".to_owned(), encode_size(&x.size)));
    es.push(("files".to_owned(), encode_files(&x.files)));
    es.push(
        (
            "total_time_in_millis".to_owned(),
            Json::Num(crate::num::i32_text(x.total_time_in_millis)),
        ),
    );
    es.push(
        (
            "source_throttle_time_in_millis".to_owned(),
            Json::Num(crate::num::i32_text(x.source_throttle_time_in_millis)),
        ),
    );
    es.push(
        (
            "target_throttle_time_in_millis".to_owned(),
            Json::Num(crate::num::i32_text(x.target_throttle_time_in_millis)),
        ),
    );
    proof {
        assert(entries_view(es@).len() == 5);
        assert(entries_view(es@) =~= enc_tii(x@)->Obj_0);
    }
    let j = Json::Obj(es);
    proof {
        assert(j@ == enc_tii(x@));
    }
    j
}

pub proof fn lemma_tii_round_trip(x: TransportIndexInfoV)
    requires
        x.wf(),
    ensures
        dec_tii(enc_tii(x)) == Some(x),
{
    reveal_strlit("size");
    reveal_strlit("files");
    reveal_strlit("total_time_in_millis");
    reveal_strlit("source_throttle_time_in_millis");
    reveal_strlit("target_throttle_time_in_millis");
    assert("size"@.len() == 4);
    assert("files"@.len() == 5);
    assert("total_time_in_millis"@.len() == 20);
    assert("source_throttle_time_in_millis"@.len() == 30);
    assert("target_throttle_time_in_millis"@.len() == 30);
    assert("source_throttle_time_in_millis"@[0] == 's');
    assert("target_throttle_time_in_millis"@[0] == 't');
    lemma_parse_int_text(x.total_time_in_millis);
    lemma_parse_int_text(x.source_throttle_time_in_millis);
    lemma_parse_int_text(x.target_throttle_time_in_millis);
    lemma_size_round_trip(x.size);
    lemma_files_round_trip(x.files);
    reveal_with_fuel(crate::json::seek, 7);
    let es = enc_tii(x)->Obj_0;
    assert(seek(es, "size"@) == Some(enc_size(x.size)));
    assert(seek(es, "files"@) == Some(enc_files(x.files)));
    assert(seek(es, "total_time_in_millis"@) == Some(JsonV::Num(int_text(x.total_time_in_millis))));
    assert(seek(es, "source_throttle_time_in_millis"@) == Some(
        JsonV::Num(int_text(x.source_throttle_time_in_millis)),
    ));
    assert(seek(es, "target_throttle_time_in_millis"@) == Some(
        JsonV::Num(int_text(x.target_throttle_time_in_millis)),
    ));
}

/// One in-flight shard recovery.
#[derive(Debug, Clone, PartialEq)]
pub struct RecoveryShard {
    pub shard_type: String,
    pub stage: String,
    pub primary: bool,
    pub start_time_in_millis: String,
    pub total_time_in_millis: String,
    pub source: NodeTargetInfo,
    pub target: NodeTargetInfo,
    pub index: TransportIndexInfo,
    pub translog: TranslogInfo,
    pub verify_index: VerifyIndexInfo,
}

pub struct RecoveryShardV {
    pub shard_type: Seq<char>,
    pub stage: Seq<char>,
    pub primary: bool,
    pub start_time_in_millis: Seq<char>,
    pub total_time_in_millis: Seq<char>,
    pub source: NodeTargetInfoV,
    pub target: NodeTargetInfoV,
    pub index: TransportIndexInfoV,
    pub translog: TranslogInfoV,
    pub verify_index: VerifyIndexInfoV,
}

impl RecoveryShardV {
    pub open spec fn wf(self) -> bool {
        &&& self.index.wf()
        &&& self.translog.wf()
        &&& self.verify_index.wf()
    }
}

impl View for RecoveryShard {
    type V = RecoveryShardV;

    open spec fn view(&self) -> RecoveryShardV {
        RecoveryShardV {
            shard_type: self.shard_type@,
            stage: self.stage@,
            primary: self.primary,
            start_time_in_millis: self.start_time_in_millis@,
            total_time_in_millis: self.total_time_in_millis@,
            source: self.source@,
            target: self.target@,
            index: self.index@,
            translog: self.translog@,
            verify_index: self.verify_index@,
        }
    }
}

pub open spec fn dec_rshard(v: JsonV) -> Option<RecoveryShardV> {
    match v {
        JsonV::Obj(es) => {
            if req_str2(es, "shard_type"@, "type"@) is Some && req_str(es, "stage"@) is Some
                && req_bool(es, "primary"@) is Some && req_num(es, "start_time_in_millis"@) is Some
                && req_num(es, "total_time_in_millis"@) is Some && seek(es, "source"@) is Some
                && dec_nti(seek(es, "source"@)->0) is Some && seek(es, "target"@) is Some
                && dec_nti(seek(es, "target"@)->0) is Some && seek(es, "index"@) is Some && dec_tii(
                seek(es, "index"@)->0,
            ) is Some && seek(es, "translog"@) is Some && dec_translog(
                seek(es, "translog"@)->0,
            ) is Some && seek(es, "verify_index"@) is Some && dec_verify(
                seek(es, "verify_index"@)->0,
            ) is Some {
                Some(
                    RecoveryShardV {
                        shard_type: req_str2(es, "shard_type"@, "type"@)->0,
                        stage: req_str(es, "stage"@)->0,
                        primary: req_bool(es, "primary"@)->0,
                        start_time_in_millis: req_num(es, "start_time_in_millis"@)->0,
                        total_time_in_millis: req_num(es, "total_time_in_millis"@)->0,
                        source: dec_nti(seek(es, "source"@)->0)->0,
                        target: dec_nti(seek(es, "target"@)->0)->0,
                        index: dec_tii(seek(es, "index"@)->0)->0,
                        translog: dec_translog(seek(es, "translog"@)->0)->0,
                        verify_index: dec_verify(seek(es, "verify_index"@)->0)->0,
                    },
                )
            } else {
                None
            }
        },
        _ => None,
    }
}

/// Decodes one in-flight shard recovery.
pub fn decode_rshard(v: &Json) -> (r: Result<RecoveryShard, DecodeError>)
    ensures
        r is Ok <==> dec_rshard(v@) is Some,
        r matches Ok(x) ==> dec_rshard(v@) == Some(x@),
{
    let es = crate::decode::as_obj(v)?;
    let shard_type = crate::decode::get_req_str2(es, "shard_type", "type")?;
    let stage = crate::decode::get_req_str(es, "stage")?;
    let primary = crate::decode::get_req_bool(es, "primary")?;
    let start_time_in_millis = crate::decode::get_req_num(es, "start_time_in_millis")?;
    let total_time_in_millis = crate::decode::get_req_num(es, "total_time_in_millis")?;
    let source_j = crate::decode::get_field(es, "source")?;
    let source = match decode_nti(source_j) {
        Ok(x) => x,
        Err(e) => {
            return Err(e.under_key("source"));
        },
    };
    let target_j = crate::decode::get_field(es, "target")?;
    let target = match decode_nti(target_j) {
        Ok(x) => x,
        Err(e) => {
            return Err(e.under_key("target"));
        },
    };
    let index_j = crate::decode::get_field(es, "index")?;
    let index = match decode_tii(index_j) {
        Ok(x) => x,
        Err(e) => {
            return Err(e.under_key("index"));
        },
    };
    let translog_j = crate::decode::get_field(es, "translog")?;
    let translog = match decode_translog(translog_j) {
        Ok(x) => x,
        Err(e) => {
            return Err(e.under_key("translog"));
        },
    };
    let verify_j = crate::decode::get_field(es, "verify_index")?;
    let verify_index = match decode_verify(verify_j) {
        Ok(x) => x,
        Err(e) => {
            return Err(e.under_key("verify_index"));
        },
    };
    Ok(
        RecoveryShard {
            shard_type,
            stage,
            primary,
            start_time_in_millis,
            total_time_in_millis,
            source,
            target,
            index,
            translog,
            verify_index,
        },
    )
}

pub open spec fn enc_rshard(x: RecoveryShardV) -> JsonV {
    JsonV::Obj(
        seq![
            ("shard_type"@, JsonV::Str(x.shard_type)),
            ("stage"@, JsonV::Str(x.stage)),
            ("primary"@, JsonV::Bool(x.primary)),
            ("start_time_in_millis"@, JsonV::Num(x.start_time_in_millis)),
            ("total_time_in_millis"@, JsonV::Num(x.total_time_in_millis)),
            ("source"@, enc_nti(x.source)),
            ("target"@, enc_nti(x.target)),
            ("index"@, enc_tii(x.index)),
            ("translog"@, enc_translog(x.translog)),
            ("verify_index"@, enc_verify(x.verify_index)),
        ],
    )
}

/// Re-encodes one in-flight shard recovery.
pub fn encode_rshard(x: &RecoveryShard) -> (j: Json)
    ensures
        j@ == enc_rshard(x@),
{
    let mut es: Vec<(String, Json)> = Vec::new();
    es.push(("shard_type".to_owned(), Json::Str(x.shard_type.clone())));
    es.push(("stage".to_owned(), Json::Str(x.stage.clone())));
    es.push(("primary".to_owned(), Json::Bool(x.primary)));
    es.push(("start_time_in_millis".to_owned(), Json::Num(x.start_time_in_millis.clone())));
    es.push(("total_time_in_millis".to_owned(), Json::Num(x.total_time_in_millis.clone())));
    es.push(("source".to_owned(), encode_nti(&x.source)));
    es.push(("target".to_owned(), encode_nti(&x.target)));
    es.push(("index".to_owned(), encode_tii(&x.index)));
    es.push(("translog".to_owned(), encode_translog(&x.translog)));
    es.push(("verify_index".to_owned(), encode_verify(&x.verify_index)));
    proof {
        assert(entries_view(es@).len() == 10);
        assert(entries_view(es@) =~= enc_rshard(x@)->Obj_0);
    }
    let j = Json::Obj(es);
    proof {
        assert(j@ == enc_rshard(x@));
    }
    j
}

#[verifier::rlimit(100)]
pub proof fn lemma_rshard_round_trip(x: RecoveryShardV)
    requires
        x.wf(),
    ensures
        dec_rshard(enc_rshard(x)) == Some(x),
{
    reveal_strlit("shard_type");
    reveal_strlit("stage");
    reveal_strlit("primary");
    reveal_strlit("start_time_in_millis");
    reveal_strlit("total_time_in_millis");
    reveal_strlit("source");
    reveal_strlit("target");
    reveal_strlit("index");
    reveal_strlit("translog");
    reveal_strlit("verify_index");
    assert("shard_type"@.len() == 10);
    assert("stage"@.len() == 5);
    assert("primary"@.len() == 7);
    assert("start_time_in_millis"@.len() == 20);
    assert("total_time_in_millis"@.len() == 20);
    assert("source"@.len() == 6);
    assert("target"@.len() == 6);
    assert("index"@.len() == 5);
    assert("translog"@.len() == 8);
    assert("verify_index"@.len() == 12);
    assert("start_time_in_millis"@[0] == 's');
    assert("total_time_in_millis"@[0] == 't');
    assert("source"@[0] == 's');
    assert("target"@[0] == 't');
    assert("stage"@[0] == 's');
    assert("index"@[0] == 'i');
    lemma_nti_round_trip(x.source);
    lemma_nti_round_trip(x.target);
    lemma_tii_round_trip(x.index);
    lemma_translog_round_trip(x.translog);
    lemma_verify_round_trip(x.verify_index);
    reveal_with_fuel(crate::json::seek, 12);
    let es = enc_rshard(x)->Obj_0;
    assert(seek(es, "shard_type"@) == Some(JsonV::Str(x.shard_type)));
    assert(seek(es, "stage"@) == Some(JsonV::Str(x.stage)));
    assert(seek(es, "primary"@) == Some(JsonV::Bool(x.primary)));
    assert(seek(es, "start_time_in_millis"@) == Some(JsonV::Num(x.start_time_in_millis)));
    assert(seek(es, "total_time_in_millis"@) == Some(JsonV::Num(x.total_time_in_millis)));
    assert(seek(es, "source"@) == Some(enc_nti(x.source)));
    assert(seek(es, "target"@) == Some(enc_nti(x.target)));
    assert(seek(es, "index"@) == Some(enc_tii(x.index)));
    assert(seek(es, "translog"@) == Some(enc_translog(x.translog)));
    assert(seek(es, "verify_index"@) == Some(enc_verify(x.verify_index)));
    assert(req_str2(es, "shard_type"@, "type"@) == Some(x.shard_type));
}

/// The views of a recovery-shard list, in order.
pub open spec fn rshard_list_v(xs: Seq<RecoveryShard>) -> Seq<RecoveryShardV> {
    Seq::new(xs.len(), |i: int| if 0 <= i < xs.len() { xs[i]@ } else { arbitrary() })
}

/// The recoveries of one index, tagged with the object key they stood under.
#[derive(Debug, Clone, PartialEq)]
pub struct IndexRecovery {
    pub id: String,
    pub shards: Vec<RecoveryShard>,
}

pub struct IndexRecoveryV {
    pub id: Seq<char>,
    pub shards: Seq<RecoveryShardV>,
}

impl View for IndexRecovery {
    type V = IndexRecoveryV;

    open spec fn view(&self) -> IndexRecoveryV {
        IndexRecoveryV { id: self.id@, shards: rshard_list_v(self.shards@) }
    }
}

/// The views of an index-recovery list, in order.
pub open spec fn irec_list_v(xs: Seq<IndexRecovery>) -> Seq<IndexRecoveryV> {
    Seq::new(xs.len(), |i: int| if 0 <= i < xs.len() { xs[i]@ } else { arbitrary() })
}

/// The whole recovery report.
#[derive(Debug, Clone, PartialEq)]
pub struct Recovery {
    pub indices: Vec<IndexRecovery>,
}

pub struct RecoveryV {
    pub indices: Seq<IndexRecoveryV>,
}

impl RecoveryV {
    pub open spec fn wf(self) -> bool {
        forall|i: int, j: int|
            0 <= i < self.indices.len() && 0 <= j < self.indices[i].shards.len()
                ==> (#[trigger] self.indices[i].shards[j]).wf()
    }
}

impl View for Recovery {
    type V = RecoveryV;

    open spec fn view(&self) -> RecoveryV {
        RecoveryV { indices: irec_list_v(self.indices@) }
    }
}

/// What the value under one index key denotes: an object whose `shards`
/// field lists that index's in-flight recoveries.
pub open spec fn dec_irec_shards(v: JsonV) -> Option<Seq<RecoveryShardV>> {
    match v {
        JsonV::Obj(es) => match seek(es, "shards"@) {
            Some(JsonV::Arr(a)) => {
                if forall|i: int| 0 <= i < a.len() ==> dec_rshard(#[trigger] a[i]) is Some {
                    Some(Seq::new(a.len(), |i: int| dec_rshard(a[i])->0))
                } else {
                    None
                }
            },
            _ => None,
        },
        _ => None,
    }
}

/// Decodes the recoveries of one index.
pub fn decode_irec_shards(v: &Json) -> (r: Result<Vec<RecoveryShard>, DecodeError>)
    ensures
        r is Ok <==> dec_irec_shards(v@) is Some,
        r matches Ok(xs) ==> dec_irec_shards(v@) == Some(rshard_list_v(xs@)),
{
    let es = crate::decode::as_obj(v)?;
    let shards_j = crate::decode::get_field(es, "shards")?;
    let a = match shards_j {
        Json::Arr(a) => a,
        _ => {
            return Err(crate::decode::DecodeError::at("shards", "expected an array"));
        },
    };
    let ghost ga = arr_view(a@);
    let ghost ges = entries_view(es@);
    let mut out: Vec<RecoveryShard> = Vec::new();
    let n = a.len();
    for i in 0..n
        invariant
            n == a.len(),
            ga == arr_view(a@),
            v@ == JsonV::Obj(ges),
            seek(ges, "shards"@) == Some(JsonV::Arr(ga)),
            out@.len() == i,
            forall|j: int|
                0 <= j < i ==> dec_rshard(#[trigger] ga[j]) is Some && out@[j]@ == dec_rshard(
                    ga[j],
                )->0,
    {
        proof {
            assert(ga[i as int] == a@[i as int]@);
        }
        match decode_rshard(&a[i]) {
            Ok(x) => out.push(x),
            Err(e) => {
                proof {
                    assert(dec_rshard(ga[i as int]) is None);
                    assert(!(forall|j: int|
                        0 <= j < ga.len() ==> dec_rshard(#[trigger] ga[j]) is Some));
                }
                return Err(e.under_index(i).under_key("shards"));
            },
        }
    }
    proof {
        assert(forall|i: int| 0 <= i < ga.len() ==> dec_rshard(#[trigger] ga[i]) is Some);
        assert(rshard_list_v(out@) =~= Seq::new(ga.len(), |i: int| dec_rshard(ga[i])->0));
    }
    Ok(out)
}

/// What a recovery report denotes: an object keyed by index name, each key's
/// value carrying that index's recoveries. The keys become the records'
/// `id` fields, in document order.
pub open spec fn dec_recovery(v: JsonV) -> Option<RecoveryV> {
    match v {
        JsonV::Obj(es) => {
            if forall|i: int| 0 <= i < es.len() ==> dec_irec_shards(#[trigger] es[i].1) is Some {
                Some(
                    RecoveryV {
                        indices: Seq::new(
                            es.len(),
                            |i: int|
                                IndexRecoveryV {
                                    id: es[i].0,
                                    shards: dec_irec_shards(es[i].1)->0,
                                },
                        ),
                    },
                )
            } else {
                None
            }
        },
        _ => None,
    }
}

/// Decodes a recovery report, flattening the index-keyed object into an
/// explicit list with each key preserved as the record's `id`.
pub fn decode_recovery(v: &Json) -> (r: Result<Recovery, DecodeError>)
    ensures
        r is Ok <==> dec_recovery(v@) is Some,
        r matches Ok(x) ==> dec_recovery(v@) == Some(x@),
{
    let es = crate::decode::as_obj(v)?;
    let ghost ges = entries_view(es@);
    let mut indices: Vec<IndexRecovery> = Vec::new();
    let n = es.len();
    for i in 0..n
        invariant
            n == es.len(),
            ges == entries_view(es@),
            v@ == JsonV::Obj(ges),
            indices@.len() == i,
            forall|j: int|
                0 <= j < i ==> dec_irec_shards(#[trigger] ges[j].1) is Some && indices@[j]@
                    == (IndexRecoveryV { id: ges[j].0, shards: dec_irec_shards(ges[j].1)->0 }),
    {
        let e: &(String, Json) = &es[i];
        proof {
            assert(ges[i as int] == (es@[i as int].0@, es@[i as int].1@));
        }
        match decode_irec_shards(&e.1) {
            Ok(shards) => {
                indices.push(IndexRecovery { id: e.0.clone(), shards });
            },
            Err(err) => {
                proof {
                    assert(dec_irec_shards(ges[i as int].1) is None);
                    assert(!(forall|j: int|
                        0 <= j < ges.len() ==> dec_irec_shards(#[trigger] ges[j].1) is Some));
                }
                return Err(err.under_key(e.0.as_str()));
            },
        }
    }
    let out = Recovery { indices };
    proof {
        assert(forall|i: int| 0 <= i < ges.len() ==> dec_irec_shards(#[trigger] ges[i].1) is Some);
        assert(out@.indices =~= Seq::new(
            ges.len(),
            |i: int| IndexRecoveryV { id: ges[i].0, shards: dec_irec_shards(ges[i].1)->0 },
        ));
    }
    Ok(out)
}

/// The canonical document of one index's recoveries.
pub open spec fn enc_irec_shards(shards: Seq<RecoveryShardV>) -> JsonV {
    JsonV::Obj(
        seq![
            (
                "shards"@,
                JsonV::Arr(
                    Seq::new(
                        shards.len(),
                        |i: int|
                            if 0 <= i < shards.len() {
                                enc_rshard(shards[i])
                            } else {
                                JsonV::Null
                            },
                    ),
                ),
            ),
        ],
    )
}

/// Re-encodes the recoveries of one index.
pub fn encode_irec_shards(shards: &Vec<RecoveryShard>) -> (j: Json)
    ensures
        j@ == enc_irec_shards(rshard_list_v(shards@)),
{
    let mut out: Vec<Json> = Vec::new();
    let n = shards.len();
    for i in 0..n
        invariant
            n == shards.len(),
            out@.len() == i,
            forall|j: int| 0 <= j < i ==> #[trigger] out@[j]@ == enc_rshard(shards@[j]@),
    {
        out.push(encode_rshard(&shards[i]));
    }
    proof {
        let target = enc_irec_shards(rshard_list_v(shards@));
        let ta = target->Obj_0[0].1->Arr_0;
        assert(ta.len() == n);
        assert(arr_view(out@).len() == n);
        assert forall|j: int| 0 <= j < n implies arr_view(out@)[j] == ta[j] by {
            assert(arr_view(out@)[j] == out@[j]@);
            assert(ta[j] == enc_rshard(rshard_list_v(shards@)[j]));
        }
        assert(arr_view(out@) =~= ta);
    }
    let arr = Json::Arr(out);
    let mut es: Vec<(String, Json)> = Vec::new();
    es.push(("shards".to_owned(), arr));
    proof {
        assert(entries_view(es@).len() == 1);
        assert(entries_view(es@) =~= enc_irec_shards(rshard_list_v(shards@))->Obj_0);
    }
    let j = Json::Obj(es);
    proof {
        assert(j@ == enc_irec_shards(rshard_list_v(shards@)));
    }
    j
}

/// The canonical document of a recovery report: one key per record, the
/// record's `id` restored as the key.
pub open spec fn enc_recovery(r: RecoveryV) -> JsonV {
    JsonV::Obj(
        Seq::new(
            r.indices.len(),
            |i: int|
                if 0 <= i < r.indices.len() {
                    (r.indices[i].id, enc_irec_shards(r.indices[i].shards))
                } else {
                    (Seq::empty(), JsonV::Null)
                },
        ),
    )
}

/// Re-encodes a recovery report as its canonical index-keyed document.
pub fn encode_recovery(x: &Recovery) -> (j: Json)
    ensures
        j@ == enc_recovery(x@),
{
    let mut es: Vec<(String, Json)> = Vec::new();
    let n = x.indices.len();
    for i in 0..n
        invariant
            n == x.indices.len(),
            es@.len() == i,
            forall|j: int|
                0 <= j < i ==> es@[j].0@ == (#[trigger] x.indices@[j]).id@ && es@[j].1@
                    == enc_irec_shards(rshard_list_v(x.indices@[j].shards@)),
    {
        let e: &IndexRecovery = &x.indices[i];
        proof {
            assert(e == x.indices@[i as int]);
        }
        let key = e.id.clone();
        let val = encode_irec_shards(&e.shards);
        let ghost gk = key@;
        let ghost gv = val@;
        let ghost old_es = es@;
        es.push((key, val));
        proof {
            assert(es@[i as int].0@ == gk);
            assert(es@[i as int].1@ == gv);
            assert(gv == enc_irec_shards(rshard_list_v(x.indices@[i as int].shards@)));
            assert forall|j: int| 0 <= j <= i implies es@[j].0@ == (#[trigger] x.indices@[j]).id@
                && es@[j].1@ == enc_irec_shards(rshard_list_v(x.indices@[j].shards@)) by {
                if j < i {
                    assert(es@[j] == old_es[j]);
                    assert(old_es[j].0@ == x.indices@[j].id@);
                    assert(old_es[j].1@ == enc_irec_shards(rshard_list_v(x.indices@[j].shards@)));
                } else {
                    assert(j == i);
                    assert(es@[j] == es@[i as int]);
                    assert(es@[j].0@ == gk);
                    assert(gk == x.indices@[i as int].id@);
                    assert(es@[j].1@ == gv);
                }
            }
        }
    }
    proof {
        let target = enc_recovery(x@);
        let ta = target->Obj_0;
        assert(ta.len() == n);
        assert(entries_view(es@).len() == n);
        assert forall|j: int| 0 <= j < n implies entries_view(es@)[j] == ta[j] by {
            assert(entries_view(es@)[j] == (es@[j].0@, es@[j].1@));
            assert(x@.indices[j] == x.indices@[j]@);
            assert(ta[j] == (x@.indices[j].id, enc_irec_shards(x@.indices[j].shards)));
        }
        assert(entries_view(es@) =~= ta);
    }
    let j = Json::Obj(es);
    proof {
        assert(j@ == enc_recovery(x@));
    }
    j
}

/// Decoding the canonical document of one index's recoveries gives them back.
pub proof fn lemma_irec_shards_round_trip(shards: Seq<RecoveryShardV>)
    requires
        forall|i: int| 0 <= i < shards.len() ==> (#[trigger] shards[i]).wf(),
    ensures
        dec_irec_shards(enc_irec_shards(shards)) == Some(shards),
{
    reveal_strlit("shards");
    reveal_with_fuel(crate::json::seek, 3);
    let es = enc_irec_shards(shards)->Obj_0;
    let a = es[0].1->Arr_0;
    assert(seek(es, "shards"@) == Some(JsonV::Arr(a)));
    assert forall|i: int| 0 <= i < a.len() implies dec_rshard(#[trigger] a[i]) is Some by {
        lemma_rshard_round_trip(shards[i]);
    }
    assert forall|i: int| 0 <= i < a.len() implies dec_rshard(#[trigger] a[i])->0 == shards[i] by {
        lemma_rshard_round_trip(shards[i]);
    }
    assert(Seq::new(a.len(), |i: int| dec_rshard(a[i])->0) =~= shards);
}

/// Decoding the canonical document of a recovery report gives the report
/// back: every record, its `id` included, survives re-encoding.
pub proof fn lemma_recovery_round_trip(r: RecoveryV)
    requires
        r.wf(),
    ensures
        dec_recovery(enc_recovery(r)) == Some(r),
{
    let es = enc_recovery(r)->Obj_0;
    assert(es.len() == r.indices.len());
    assert forall|i: int| 0 <= i < es.len() implies dec_irec_shards(#[trigger] es[i].1) is Some by {
        assert(es[i].1 == enc_irec_shards(r.indices[i].shards));
        lemma_irec_shards_round_trip(r.indices[i].shards);
    }
    assert forall|i: int| 0 <= i < es.len() implies dec_irec_shards(#[trigger] es[i].1)->0
        == r.indices[i].shards by {
        lemma_irec_shards_round_trip(r.indices[i].shards);
    }
    assert(Seq::new(
        es.len(),
        |i: int| IndexRecoveryV { id: es[i].0, shards: dec_irec_shards(es[i].1)->0 },
    ) =~= r.indices);
}

/// Decoding an index-keyed recovery document yields exactly one record per
/// key, whose `id` is that key, in document order — whatever the order of
/// the keys.
pub proof fn lemma_recovery_ids_match_keys(v: JsonV)
    requires
        dec_recovery(v) is Some,
    ensures
        v is Obj,
        dec_recovery(v)->0.indices.len() == v->Obj_0.len(),
        forall|i: int|
            0 <= i < v->Obj_0.len() ==> (#[trigger] dec_recovery(v)->0.indices[i]).id
                == v->Obj_0[i].0,
{
}

/// Re-encoding a decoded recovery report emits exactly the keys of the
/// document it came from, in order: no index entry is lost or invented.
pub proof fn lemma_recovery_reencode_keeps_keys(v: JsonV)
    requires
        dec_recovery(v) is Some,
    ensures
        enc_recovery(dec_recovery(v)->0)->Obj_0.len() == v->Obj_0.len(),
        forall|i: int|
            0 <= i < v->Obj_0.len() ==> (#[trigger] enc_recovery(dec_recovery(v)->0)->Obj_0[i]).0
                == v->Obj_0[i].0,
{
    let r = dec_recovery(v)->0;
    lemma_recovery_ids_match_keys(v);
}

} // verus!
