//! Per-node runtime statistics: the upstream keys them by node ID; decoding
//! flattens them to a list and — unlike the recovery report — discards the
//! keys, as the node records name themselves. Each node's dynamic attribute
//! bag becomes an ordered list of key/value pairs.

use vstd::prelude::*;

use crate::decode::{opt_i32, req_i32, req_num, req_str, DecodeError};
use crate::json::{arr_view, entries_view, seek, Json, JsonV};
use crate::num::{int_text, lemma_parse_int_text};

verus! {

broadcast use vstd::seq::group_seq_axioms, vstd::std_specs::vec::group_vec_axioms;

/// CPU load of a node or a process, in whole percent.
#[derive(Debug, Clone, PartialEq)]
pub struct NodeCpu {
    pub percent: i32,
}

pub struct NodeCpuV {
    pub percent: int,
}

impl NodeCpuV {
    pub open spec fn wf(self) -> bool {
        i32::MIN <= self.percent <= i32::MAX
    }
}

impl View for NodeCpu {
    type V = NodeCpuV;

    open spec fn view(&self) -> NodeCpuV {
        NodeCpuV { percent: self.percent as int }
    }
}

pub open spec fn dec_cpu(v: JsonV) -> Option<NodeCpuV> {
    match v {
        JsonV::Obj(es) => {
            if req_i32(es, "percent"@) is Some {
                Some(NodeCpuV { percent: req_i32(es, "percent"@)->0 })
            } else {
                None
            }
        },
        _ => None,
    }
}

/// Decodes a CPU block.
pub fn decode_cpu(v: &Json) -> (r: Result<NodeCpu, DecodeError>)
    ensures
        r is Ok <==> dec_cpu(v@) is Some,
        r matches Ok(x) ==> dec_cpu(v@) == Some(x@),
{
    let es = crate::decode::as_obj(v)?;
    let percent = crate::decode::get_req_i32(es, "percent")?;
    Ok(NodeCpu { percent })
}

pub open spec fn enc_cpu(x: NodeCpuV) -> JsonV {
    JsonV::Obj(seq![("percent"@, JsonV::Num(int_text(x.percent)))])
}

/// Re-encodes a CPU block.
pub fn encode_cpu(x: &NodeCpu) -> (j: Json)
    ensures
        j@ == enc_cpu(x@),
{
    let mut es: Vec<(String, Json)> = Vec::new();
    es.push(("percent".to_owned(), Json::Num(crate::num::i32_text(x.percent))));
    proof {
        assert(entries_view(es@).len() == 1);
        assert(entries_view(es@) =~= enc_cpu(x@)->Obj_0);
    }
    let j = Json::Obj(es);
    proof {
        assert(j@ == enc_cpu(x@));
    }
    j
}

pub proof fn lemma_cpu_round_trip(x: NodeCpuV)
    requires
        x.wf(),
    ensures
        dec_cpu(enc_cpu(x)) == Some(x),
{
    reveal_strlit("percent");
    lemma_parse_int_text(x.percent);
    reveal_with_fuel(crate::json::seek, 3);
    let es = enc_cpu(x)->Obj_0;
    assert(seek(es, "percent"@) == Some(JsonV::Num(int_text(x.percent))));
}

/// Virtual memory of a node's process.
#[derive(Debug, Clone, PartialEq)]
pub struct NodeProcessMemory {
    pub total_virtual_in_bytes: String,
}

pub struct NodeProcessMemoryV {
    pub total_virtual_in_bytes: Seq<char>,
}

impl View for NodeProcessMemory {
    type V = NodeProcessMemoryV;

    open spec fn view(&self) -> NodeProcessMemoryV {
        NodeProcessMemoryV { total_virtual_in_bytes: self.total_virtual_in_bytes@ }
    }
}

pub open spec fn dec_pmem(v: JsonV) -> Option<NodeProcessMemoryV> {
    match v {
        JsonV::Obj(es) => {
            if req_num(es, "total_virtual_in_bytes"@) is Some {
                Some(
                    NodeProcessMemoryV {
                        total_virtual_in_bytes: req_num(es, "total_virtual_in_bytes"@)->0,
                    },
                )
            } else {
                None
            }
        },
        _ => None,
    }
}

/// Decodes a process-memory block.
pub fn decode_pmem(v: &Json) -> (r: Result<NodeProcessMemory, DecodeError>)
    ensures
        r is Ok <==> dec_pmem(v@) is Some,
        r matches Ok(x) ==> dec_pmem(v@) == Some(x@),
{
    let es = crate::decode::as_obj(v)?;
    let total_virtual_in_bytes = crate::decode::get_req_num(es, "total_virtual_in_bytes")?;
    Ok(NodeProcessMemory { total_virtual_in_bytes })
}

pub open spec fn enc_pmem(x: NodeProcessMemoryV) -> JsonV {
    JsonV::Obj(seq![("total_virtual_in_bytes"@, JsonV::Num(x.total_virtual_in_bytes))])
}

/// Re-encodes a process-memory block.
pub fn encode_pmem(x: &NodeProcessMemory) -> (j: Json)
    ensures
        j@ == enc_pmem(x@),
{
    let mut es: Vec<(String, Json)> = Vec::new();
    es.push(("total_virtual_in_bytes".to_owned(), Json::Num(x.total_virtual_in_bytes.clone())));
    proof {
        assert(entries_view(es@).len() == 1);
        assert(entries_view(es@) =~= enc_pmem(x@)->Obj_0);
    }
    let j = Json::Obj(es);
    proof {
        assert(j@ == enc_pmem(x@));
    }
    j
}

pub proof fn lemma_pmem_round_trip(x: NodeProcessMemoryV)
    ensures
        dec_pmem(enc_pmem(x)) == Some(x),
{
    reveal_strlit("total_virtual_in_bytes");
    reveal_with_fuel(crate::json::seek, 3);
    let es = enc_pmem(x)->Obj_0;
    assert(seek(es, "total_virtual_in_bytes"@) == Some(JsonV::Num(x.total_virtual_in_bytes)));
}

/// Memory of a node, physical or swap. The upstream omits the percent
/// fields for swap, so they are optional.
#[derive(Debug, Clone, PartialEq)]
pub struct NodeOSMemory {
    pub total_in_bytes: String,
    pub free_in_bytes: String,
    pub used_in_bytes: String,
    pub free_percent: Option<i32>,
    pub used_percent: Option<i32>,
}

pub struct NodeOSMemoryV {
    pub total_in_bytes: Seq<char>,
    pub free_in_bytes: Seq<char>,
    pub used_in_bytes: Seq<char>,
    pub free_percent: Option<int>,
    pub used_percent: Option<int>,
}

pub open spec fn opt_i32_wf(o: Option<int>) -> bool {
    match o {
        Some(v) => i32::MIN <= v <= i32::MAX,
        None => true,
    }
}

pub open spec fn opt_i32_view(o: Option<i32>) -> Option<int> {
    match o {
        Some(v) => Some(v as int),
        None => None,
    }
}

impl NodeOSMemoryV {
    pub open spec fn wf(self) -> bool {
        opt_i32_wf(self.free_percent) && opt_i32_wf(self.used_percent)
    }
}

impl View for NodeOSMemory {
    type V = NodeOSMemoryV;

    open spec fn view(&self) -> NodeOSMemoryV {
        NodeOSMemoryV {
            total_in_bytes: self.total_in_bytes@,
            free_in_bytes: self.free_in_bytes@,
            used_in_bytes: self.used_in_bytes@,
            free_percent: opt_i32_view(self.free_percent),
            used_percent: opt_i32_view(self.used_percent),
        }
    }
}

pub open spec fn dec_osmem(v: JsonV) -> Option<NodeOSMemoryV> {
    match v {
        JsonV::Obj(es) => {
            if req_num(es, "total_in_bytes"@) is Some && req_num(es, "free_in_bytes"@) is Some
                && req_num(es, "used_in_bytes"@) is Some && opt_i32(es, "free_percent"@) is Some
                && opt_i32(es, "used_percent"@) is Some {
                Some(
                    NodeOSMemoryV {
                        total_in_bytes: req_num(es, "total_in_bytes"@)->0,
                        free_in_bytes: req_num(es, "free_in_bytes"@)->0,
                        used_in_bytes: req_num(es, "used_in_bytes"@)->0,
                        free_percent: opt_i32(es, "free_percent"@)->0,
                        used_percent: opt_i32(es, "used_percent"@)->0,
                    },
                )
            } else {
                None
            }
        },
        _ => None,
    }
}

/// Decodes a memory block.
pub fn decode_osmem(v: &Json) -> (r: Result<NodeOSMemory, DecodeError>)
    ensures
        r is Ok <==> dec_osmem(v@) is Some,
        r matches Ok(x) ==> dec_osmem(v@) == Some(x@),
{
    let es = crate::decode::as_obj(v)?;
    let total_in_bytes = crate::decode::get_req_num(es, "total_in_bytes")?;
    let free_in_bytes = crate::decode::get_req_num(es, "free_in_bytes")?;
    let used_in_bytes = crate::decode::get_req_num(es, "used_in_bytes")?;
    let free_percent = crate::decode::get_opt_i32(es, "free_percent")?;
    let used_percent = crate::decode::get_opt_i32(es, "used_percent")?;
    Ok(NodeOSMemory { total_in_bytes, free_in_bytes, used_in_bytes, free_percent, used_percent })
}

/// The canonical document of an optional integer: absent values are null.
pub open spec fn enc_opt_i32(o: Option<int>) -> JsonV {
    match o {
        Some(v) => JsonV::Num(int_text(v)),
        None => JsonV::Null,
    }
}

/// Re-encodes an optional integer.
pub fn encode_opt_i32(o: &Option<i32>) -> (j: Json)
    ensures
        j@ == enc_opt_i32(opt_i32_view(*o)),
{
    match o {
        Some(v) => Json::Num(crate::num::i32_text(*v)),
        None => Json::Null,
    }
}

pub open spec fn enc_osmem(x: NodeOSMemoryV) -> JsonV {
    JsonV::Obj(
        seq![
            ("total_in_bytes"@, JsonV::Num(x.total_in_bytes)),
            ("free_in_bytes"@, JsonV::Num(x.free_in_bytes)),
            ("used_in_bytes"@, JsonV::Num(x.used_in_bytes)),
            ("free_percent"@, enc_opt_i32(x.free_percent)),
            ("used_percent"@, enc_opt_i32(x.used_percent)),
        ],
    )
}

/// Re-encodes a memory block.
pub fn encode_osmem(x: &NodeOSMemory) -> (j: Json)
    ensures
        j@ == enc_osmem(x@),
{
    let mut es: Vec<(String, Json)> = Vec::new();
    es.push(("total_in_bytes".to_owned(), Json::Num(x.total_in_bytes.clone())));
    es.push(("free_in_bytes".to_owned(), Json::Num(x.free_in_bytes.clone())));
    es.push(("used_in_bytes".to_owned(), Json::Num(x.used_in_bytes.clone())));
    es.push(("free_percent".to_owned(), encode_opt_i32(&x.free_percent)));
    es.push(("used_percent".to_owned(), encode_opt_i32(&x.used_percent)));
    proof {
        assert(entries_view(es@).len() == 5);
        assert(entries_view(es@) =~= enc_osmem(x@)->Obj_0);
    }
    let j = Json::Obj(es);
    proof {
        assert(j@ == enc_osmem(x@));
    }
    j
}

pub proof fn lemma_osmem_round_trip(x: NodeOSMemoryV)
    requires
        x.wf(),
    ensures
        dec_osmem(enc_osmem(x)) == Some(x),
{
    reveal_strlit("total_in_bytes");
    reveal_strlit("free_in_bytes");
    reveal_strlit("used_in_bytes");
    reveal_strlit("free_percent");
    reveal_strlit("used_percent");
    assert("total_in_bytes"@.len() == 14);
    assert("free_in_bytes"@.len() == 13);
    assert("used_in_bytes"@.len() == 13);
    assert("free_percent"@.len() == 12);
    assert("used_percent"@.len() == 12);
    assert("free_in_bytes"@[0] == 'f');
    assert("used_in_bytes"@[0] == 'u');
    assert("free_percent"@[0] == 'f');
    assert("used_percent"@[0] == 'u');
    if x.free_percent is Some {
        lemma_parse_int_text(x.free_percent->0);
    }
    if x.used_percent is Some {
        lemma_parse_int_text(x.used_percent->0);
    }
    reveal_with_fuel(crate::json::seek, 7);
    let es = enc_osmem(x)->Obj_0;
    assert(seek(es, "total_in_bytes"@) == Some(JsonV::Num(x.total_in_bytes)));
    assert(seek(es, "free_in_bytes"@) == Some(JsonV::Num(x.free_in_bytes)));
    assert(seek(es, "used_in_bytes"@) == Some(JsonV::Num(x.used_in_bytes)));
    assert(seek(es, "free_percent"@) == Some(enc_opt_i32(x.free_percent)));
    assert(seek(es, "used_percent"@) == Some(enc_opt_i32(x.used_percent)));
    assert(opt_i32(es, "free_percent"@) == Some(x.free_percent));
    assert(opt_i32(es, "used_percent"@) == Some(x.used_percent));
}

/// Operating-system statistics of a node.
#[derive(Debug, Clone, PartialEq)]
pub struct NodeOS {
    pub mem: NodeOSMemory,
    pub swap: NodeOSMemory,
    pub cpu: NodeCpu,
}

pub struct NodeOSV {
    pub mem: NodeOSMemoryV,
    pub swap: NodeOSMemoryV,
    pub cpu: NodeCpuV,
}

impl NodeOSV {
    pub open spec fn wf(self) -> bool {
        self.mem.wf() && self.swap.wf() && self.cpu.wf()
    }
}

impl View for NodeOS {
    type V = NodeOSV;

    open spec fn view(&self) -> NodeOSV {
        NodeOSV { mem: self.mem@, swap: self.swap@, cpu: self.cpu@ }
    }
}

pub open spec fn dec_os(v: JsonV) -> Option<NodeOSV> {
    match v {
        JsonV::Obj(es) => {
            if seek(es, "mem"@) is Some && dec_osmem(seek(es, "mem"@)->0) is Some && seek(
                es,
                "swap"@,
            ) is Some && dec_osmem(seek(es, "swap"@)->0) is Some && seek(es, "cpu"@) is Some
                && dec_cpu(seek(es, "cpu"@)->0) is Some {
                Some(
                    NodeOSV {
                        mem: dec_osmem(seek(es, "mem"@)->0)->0,
                        swap: dec_osmem(seek(es, "swap"@)->0)->0,
                        cpu: dec_cpu(seek(es, "cpu"@)->0)->0,
                    },
                )
            } else {
                None
            }
        },
        _ => None,
    }
}

/// Decodes an operating-system block.
pub fn decode_os(v: &Json) -> (r: Result<NodeOS, DecodeError>)
    ensures
        r is Ok <==> dec_os(v@) is Some,
        r matches Ok(x) ==> dec_os(v@) == Some(x@),
{
    let es = crate::decode::as_obj(v)?;
    let mem_j = crate::decode::get_field(es, "mem")?;
    let mem = match decode_osmem(mem_j) {
        Ok(x) => x,
        Err(e) => {
            return Err(e.under_key("mem"));
        },
    };
    let swap_j = crate::decode::get_field(es, "swap")?;
    let swap = match decode_osmem(swap_j) {
        Ok(x) => x,
        Err(e) => {
            return Err(e.under_key("swap"));
        },
    };
    let cpu_j = crate::decode::get_field(es, "cpu")?;
    let cpu = match decode_cpu(cpu_j) {
        Ok(x) => x,
        Err(e) => {
            return Err(e.under_key("cpu"));
        },
    };
    Ok(NodeOS { mem, swap, cpu })
}

pub open spec fn enc_os(x: NodeOSV) -> JsonV {
    JsonV::Obj(
        seq![
            ("mem"@, enc_osmem(x.mem)),
            ("swap"@, enc_osmem(x.swap)),
            ("cpu"@, enc_cpu(x.cpu)),
        ],
    )
}

/// Re-encodes an operating-system block.
pub fn encode_os(x: &NodeOS) -> (j: Json)
    ensures
        j@ == enc_os(x@),
{
    let mut es: Vec<(String, Json)> = Vec::new();
    es.push(("mem".to_owned(), encode_osmem(&x.mem)));
    es.push(("swap".to_owned(), encode_osmem(&x.swap)));
    es.push(("cpu".to_owned(), encode_cpu(&x.cpu)));
    proof {
        assert(entries_view(es@).len() == 3);
        assert(entries_view(es@) =~= enc_os(x@)->Obj_0);
    }
    let j = Json::Obj(es);
    proof {
        assert(j@ == enc_os(x@));
    }
    j
}

pub proof fn lemma_os_round_trip(x: NodeOSV)
    requires
        x.wf(),
    ensures
        dec_os(enc_os(x)) == Some(x),
{
    reveal_strlit("mem");
    reveal_strlit("swap");
    reveal_strlit("cpu");
    assert("mem"@.len() == 3);
    assert("swap"@.len() == 4);
    assert("cpu"@.len() == 3);
    assert("mem"@[0] == 'm');
    assert("cpu"@[0] == 'c');
    lemma_osmem_round_trip(x.mem);
    lemma_osmem_round_trip(x.swap);
    lemma_cpu_round_trip(x.cpu);
    reveal_with_fuel(crate::json::seek, 5);
    let es = enc_os(x)->Obj_0;
    assert(seek(es, "mem"@) == Some(enc_osmem(x.mem)));
    assert(seek(es, "swap"@) == Some(enc_osmem(x.swap)));
    assert(seek(es, "cpu"@) == Some(enc_cpu(x.cpu)));
}

/// Process statistics of a node. Its timestamp can exceed safe-integer
/// range, so it keeps the raw lexeme.
#[derive(Debug, Clone, PartialEq)]
pub struct NodeProcess {
    pub timestamp: String,
    pub cpu: NodeCpu,
    pub mem: NodeProcessMemory,
}

pub struct NodeProcessV {
    pub timestamp: Seq<char>,
    pub cpu: NodeCpuV,
    pub mem: NodeProcessMemoryV,
}

impl NodeProcessV {
    pub open spec fn wf(self) -> bool {
        self.cpu.wf()
    }
}

impl View for NodeProcess {
    type V = NodeProcessV;

    open spec fn view(&self) -> NodeProcessV {
        NodeProcessV { timestamp: self.timestamp@, cpu: self.cpu@, mem: self.mem@ }
    }
}

pub open spec fn dec_process(v: JsonV) -> Option<NodeProcessV> {
    match v {
        JsonV::Obj(es) => {
            if req_num(es, "timestamp"@) is Some && seek(es, "cpu"@) is Some && dec_cpu(
                seek(es, "cpu"@)->0,
            ) is Some && seek(es, "mem"@) is Some && dec_pmem(seek(es, "mem"@)->0) is Some {
                Some(
                    NodeProcessV {
                        timestamp: req_num(es, "timestamp"@)->0,
                        cpu: dec_cpu(seek(es, "cpu"@)->0)->0,
                        mem: dec_pmem(seek(es, "mem"@)->0)->0,
                    },
                )
            } else {
                None
            }
        },
        _ => None,
    }
}

/// Decodes a process block.
pub fn decode_process(v: &Json) -> (r: Result<NodeProcess, DecodeError>)
    ensures
        r is Ok <==> dec_process(v@) is Some,
        r matches Ok(x) ==> dec_process(v@) == Some(x@),
{
    let es = crate::decode::as_obj(v)?;
    let timestamp = crate::decode::get_req_num(es, "timestamp")?;
    let cpu_j = crate::decode::get_field(es, "cpu")?;
    let cpu = match decode_cpu(cpu_j) {
        Ok(x) => x,
        Err(e) => {
            return Err(e.under_key("cpu"));
        },
    };
    let mem_j = crate::decode::get_field(es, "mem")?;
    let mem = match decode_pmem(mem_j) {
        Ok(x) => x,
        Err(e) => {
            return Err(e.under_key("mem"));
        },
    };
    Ok(NodeProcess { timestamp, cpu, mem })
}

pub open spec fn enc_process(x: NodeProcessV) -> JsonV {
    JsonV::Obj(
        seq![
            ("timestamp"@, JsonV::Num(x.timestamp)),
            ("cpu"@, enc_cpu(x.cpu)),
            ("mem"@, enc_pmem(x.mem)),
        ],
    )
}

/// Re-encodes a process block.
pub fn encode_process(x: &NodeProcess) -> (j: Json)
    ensures
        j@ == enc_process(x@),
{
    let mut es: Vec<(String, Json)> = Vec::new();
    es.push(("timestamp".to_owned(), Json::Num(x.timestamp.clone())));
    es.push(("cpu".to_owned(), encode_cpu(&x.cpu)));
    es.push(("mem".to_owned(), encode_pmem(&x.mem)));
    proof {
        assert(entries_view(es@).len() == 3);
        assert(entries_view(es@) =~= enc_process(x@)->Obj_0);
    }
    let j = Json::Obj(es);
    proof {
        assert(j@ == enc_process(x@));
    }
    j
}

pub proof fn lemma_process_round_trip(x: NodeProcessV)
    requires
        x.wf(),
    ensures
        dec_process(enc_process(x)) == Some(x),
{
    reveal_strlit("timestamp");
    reveal_strlit("cpu");
    reveal_strlit("mem");
    assert("timestamp"@.len() == 9);
    assert("cpu"@.len() == 3);
    assert("mem"@.len() == 3);
    assert("cpu"@[0] == 'c');
    assert("mem"@[0] == 'm');
    lemma_cpu_round_trip(x.cpu);
    lemma_pmem_round_trip(x.mem);
    reveal_with_fuel(crate::json::seek, 5);
    let es = enc_process(x)->Obj_0;
    assert(seek(es, "timestamp"@) == Some(JsonV::Num(x.timestamp)));
    assert(seek(es, "cpu"@) == Some(enc_cpu(x.cpu)));
    assert(seek(es, "mem"@) == Some(enc_pmem(x.mem)));
}

/// Total file-system capacity of a node.
#[derive(Debug, Clone, PartialEq)]
pub struct NodeFSTotal {
    pub total_in_bytes: String,
    pub free_in_bytes: String,
    pub available_in_bytes: String,
}

pub struct NodeFSTotalV {
    pub total_in_bytes: Seq<char>,
    pub free_in_bytes: Seq<char>,
    pub available_in_bytes: Seq<char>,
}

impl View for NodeFSTotal {
    type V = NodeFSTotalV;

    open spec fn view(&self) -> NodeFSTotalV {
        NodeFSTotalV {
            total_in_bytes: self.total_in_bytes@,
            free_in_bytes: self.free_in_bytes@,
            available_in_bytes: self.available_in_bytes@,
        }
    }
}

pub open spec fn dec_fstotal(v: JsonV) -> Option<NodeFSTotalV> {
    match v {
        JsonV::Obj(es) => {
            if req_num(es, "total_in_bytes"@) is Some && req_num(es, "free_in_bytes"@) is Some
                && req_num(es, "available_in_bytes"@) is Some {
                Some(
                    NodeFSTotalV {
                        total_in_bytes: req_num(es, "total_in_bytes"@)->0,
                        free_in_bytes: req_num(es, "free_in_bytes"@)->0,
                        available_in_bytes: req_num(es, "available_in_bytes"@)->0,
                    },
                )
            } else {
                None
            }
        },
        _ => None,
    }
}

/// Decodes a file-system capacity block.
pub fn decode_fstotal(v: &Json) -> (r: Result<NodeFSTotal, DecodeError>)
    ensures
        r is Ok <==> dec_fstotal(v@) is Some,
        r matches Ok(x) ==> dec_fstotal(v@) == Some(x@),
{
    let es = crate::decode::as_obj(v)?;
    let total_in_bytes = crate::decode::get_req_num(es, "total_in_bytes")?;
    let free_in_bytes = crate::decode::get_req_num(es, "free_in_bytes")?;
    let available_in_bytes = crate::decode::get_req_num(es, "available_in_bytes")?;
    Ok(NodeFSTotal { total_in_bytes, free_in_bytes, available_in_bytes })
}

pub open spec fn enc_fstotal(x: NodeFSTotalV) -> JsonV {
    JsonV::Obj(
        seq![
            ("total_in_bytes"@, JsonV::Num(x.total_in_bytes)),
            ("free_in_bytes"@, JsonV::Num(x.free_in_bytes)),
            ("available_in_bytes"@, JsonV::Num(x.available_in_bytes)),
        ],
    )
}

/// Re-encodes a file-system capacity block.
pub fn encode_fstotal(x: &NodeFSTotal) -> (j: Json)
    ensures
        j@ == enc_fstotal(x@),
{
    let mut es: Vec<(String, Json)> = Vec::new();
    es.push(("total_in_bytes".to_owned(), Json::Num(x.total_in_bytes.clone())));
    es.push(("free_in_bytes".to_owned(), Json::Num(x.free_in_bytes.clone())));
    es.push(("available_in_bytes".to_owned(), Json::Num(x.available_in_bytes.clone())));
    proof {
        assert(entries_view(es@).len() == 3);
        assert(entries_view(es@) =~= enc_fstotal(x@)->Obj_0);
    }
    let j = Json::Obj(es);
    proof {
        assert(j@ == enc_fstotal(x@));
    }
    j
}

pub proof fn lemma_fstotal_round_trip(x: NodeFSTotalV)
    ensures
        dec_fstotal(enc_fstotal(x)) == Some(x),
{
    reveal_strlit("total_in_bytes");
    reveal_strlit("free_in_bytes");
    reveal_strlit("available_in_bytes");
    assert("total_in_bytes"@.len() == 14);
    assert("free_in_bytes"@.len() == 13);
    assert("available_in_bytes"@.len() == 18);
    reveal_with_fuel(crate::json::seek, 5);
    let es = enc_fstotal(x)->Obj_0;
    assert(seek(es, "total_in_bytes"@) == Some(JsonV::Num(x.total_in_bytes)));
    assert(seek(es, "free_in_bytes"@) == Some(JsonV::Num(x.free_in_bytes)));
    assert(seek(es, "available_in_bytes"@) == Some(JsonV::Num(x.available_in_bytes)));
}

/// Input/output counters of a node's file systems.
#[derive(Debug, Clone, PartialEq)]
pub struct NodeFSStatsTotal {
    pub operations: String,
    pub read_operations: String,
    pub write_operations: String,
    pub read_kilobytes: String,
    pub write_kilobytes: String,
}

pub struct NodeFSStatsTotalV {
    pub operations: Seq<char>,
    pub read_operations: Seq<char>,
    pub write_operations: Seq<char>,
    pub read_kilobytes: Seq<char>,
    pub write_kilobytes: Seq<char>,
}

impl View for NodeFSStatsTotal {
    type V = NodeFSStatsTotalV;

    open spec fn view(&self) -> NodeFSStatsTotalV {
        NodeFSStatsTotalV {
            operations: self.operations@,
            read_operations: self.read_operations@,
            write_operations: self.write_operations@,
            read_kilobytes: self.read_kilobytes@,
            write_kilobytes: self.write_kilobytes@,
        }
    }
}

pub open spec fn dec_fsstats_total(v: JsonV) -> Option<NodeFSStatsTotalV> {
    match v {
        JsonV::Obj(es) => {
            if req_num(es, "operations"@) is Some && req_num(es, "read_operations"@) is Some
                && req_num(es, "write_operations"@) is Some && req_num(
                es,
                "read_kilobytes"@,
            ) is Some && req_num(es, "write_kilobytes"@) is Some {
                Some(
                    NodeFSStatsTotalV {
                        operations: req_num(es, "operations"@)->0,
                        read_operations: req_num(es, "read_operations"@)->0,
                        write_operations: req_num(es, "write_operations"@)->0,
                        read_kilobytes: req_num(es, "read_kilobytes"@)->0,
                        write_kilobytes: req_num(es, "write_kilobytes"@)->0,
                    },
                )
            } else {
                None
            }
        },
        _ => None,
    }
}

/// Decodes an input/output counter block.
pub fn decode_fsstats_total(v: &Json) -> (r: Result<NodeFSStatsTotal, DecodeError>)
    ensures
        r is Ok <==> dec_fsstats_total(v@) is Some,
        r matches Ok(x) ==> dec_fsstats_total(v@) == Some(x@),
{
    let es = crate::decode::as_obj(v)?;
    let operations = crate::decode::get_req_num(es, "operations")?;
    let read_operations = crate::decode::get_req_num(es, "read_operations")?;
    let write_operations = crate::decode::get_req_num(es, "write_operations")?;
    let read_kilobytes = crate::decode::get_req_num(es, "read_kilobytes")?;
    let write_kilobytes = crate::decode::get_req_num(es, "write_kilobytes")?;
    Ok(
        NodeFSStatsTotal {
            operations,
            read_operations,
            write_operations,
            read_kilobytes,
            write_kilobytes,
        },
    )
}

pub open spec fn enc_fsstats_total(x: NodeFSStatsTotalV) -> JsonV {
    JsonV::Obj(
        seq![
            ("operations"@, JsonV::Num(x.operations)),
            ("read_operations"@, JsonV::Num(x.read_operations)),
            ("write_operations"@, JsonV::Num(x.write_operations)),
            ("read_kilobytes"@, JsonV::Num(x.read_kilobytes)),
            ("write_kilobytes"@, JsonV::Num(x.write_kilobytes)),
        ],
    )
}

/// Re-encodes an input/output counter block.
pub fn encode_fsstats_total(x: &NodeFSStatsTotal) -> (j: Json)
    ensures
        j@ == enc_fsstats_total(x@),
{
    let mut es: Vec<(String, Json)> = Vec::new();
    es.push(("operations".to_owned(), Json::Num(x.operations.clone())));
    es.push(("read_operations".to_owned(), Json::Num(x.read_operations.clone())));
    es.push(("write_operations".to_owned(), Json::Num(x.write_operations.clone())));
    es.push(("read_kilobytes".to_owned(), Json::Num(x.read_kilobytes.clone())));
    es.push(("write_kilobytes".to_owned(), Json::Num(x.write_kilobytes.clone())));
    proof {
        assert(entries_view(es@).len() == 5);
        assert(entries_view(es@) =~= enc_fsstats_total(x@)->Obj_0);
    }
    let j = Json::Obj(es);
    proof {
        assert(j@ == enc_fsstats_total(x@));
    }
    j
}

pub proof fn lemma_fsstats_total_round_trip(x: NodeFSStatsTotalV)
    ensures
        dec_fsstats_total(enc_fsstats_total(x)) == Some(x),
{
    reveal_strlit("operations");
    reveal_strlit("read_operations");
    reveal_strlit("write_operations");
    reveal_strlit("read_kilobytes");
    reveal_strlit("write_kilobytes");
    assert("operations"@.len() == 10);
    assert("read_operations"@.len() == 15);
    assert("write_operations"@.len() == 16);
    assert("read_kilobytes"@.len() == 14);
    assert("write_kilobytes"@.len() == 15);
    assert("read_operations"@[0] == 'r');
    assert("write_kilobytes"@[0] == 'w');
    reveal_with_fuel(crate::json::seek, 7);
    let es = enc_fsstats_total(x)->Obj_0;
    assert(seek(es, "operations"@) == Some(JsonV::Num(x.operations)));
    assert(seek(es, "read_operations"@) == Some(JsonV::Num(x.read_operations)));
    assert(seek(es, "write_operations"@) == Some(JsonV::Num(x.write_operations)));
    assert(seek(es, "read_kilobytes"@) == Some(JsonV::Num(x.read_kilobytes)));
    assert(seek(es, "write_kilobytes"@) == Some(JsonV::Num(x.write_kilobytes)));
}

/// The counter block nested under a node's file-system statistics.
#[derive(Debug, Clone, PartialEq)]
pub struct NodeFSStats {
    pub total: NodeFSStatsTotal,
}

pub struct NodeFSStatsV {
    pub total: NodeFSStatsTotalV,
}

impl View for NodeFSStats {
    type V = NodeFSStatsV;

    open spec fn view(&self) -> NodeFSStatsV {
        NodeFSStatsV { total: self.total@ }
    }
}

pub open spec fn dec_fsstats(v: JsonV) -> Option<NodeFSStatsV> {
    match v {
        JsonV::Obj(es) => {
            if seek(es, "total"@) is Some && dec_fsstats_total(seek(es, "total"@)->0) is Some {
                Some(NodeFSStatsV { total: dec_fsstats_total(seek(es, "total"@)->0)->0 })
            } else {
                None
            }
        },
        _ => None,
    }
}

/// Decodes a file-system statistics block.
pub fn decode_fsstats(v: &Json) -> (r: Result<NodeFSStats, DecodeError>)
    ensures
        r is Ok <==> dec_fsstats(v@) is Some,
        r matches Ok(x) ==> dec_fsstats(v@) == Some(x@),
{
    let es = crate::decode::as_obj(v)?;
    let total_j = crate::decode::get_field(es, "total")?;
    let total = match decode_fsstats_total(total_j) {
        Ok(x) => x,
        Err(e) => {
            return Err(e.under_key("total"));
        },
    };
    Ok(NodeFSStats { total })
}

pub open spec fn enc_fsstats(x: NodeFSStatsV) -> JsonV {
    JsonV::Obj(seq![("total"@, enc_fsstats_total(x.total))])
}

/// Re-encodes a file-system statistics block.
pub fn encode_fsstats(x: &NodeFSStats) -> (j: Json)
    ensures
        j@ == enc_fsstats(x@),
{
    let mut es: Vec<(String, Json)> = Vec::new();
    es.push(("total".to_owned(), encode_fsstats_total(&x.total)));
    proof {
        assert(entries_view(es@).len() == 1);
        assert(entries_view(es@) =~= enc_fsstats(x@)->Obj_0);
    }
    let j = Json::Obj(es);
    proof {
        assert(j@ == enc_fsstats(x@));
    }
    j
}

pub proof fn lemma_fsstats_round_trip(x: NodeFSStatsV)
    ensures
        dec_fsstats(enc_fsstats(x)) == Some(x),
{
    reveal_strlit("total");
    lemma_fsstats_total_round_trip(x.total);
    reveal_with_fuel(crate::json::seek, 3);
    let es = enc_fsstats(x)->Obj_0;
    assert(seek(es, "total"@) == Some(enc_fsstats_total(x.total)));
}

/// File-system statistics of a node. The upstream names the counter block
/// `io_stats`, which is accepted as an alias.
#[derive(Debug, Clone, PartialEq)]
pub struct NodeFileSystem {
    pub total: NodeFSTotal,
    pub stats: NodeFSStats,
}

pub struct NodeFileSystemV {
    pub total: NodeFSTotalV,
    pub stats: NodeFSStatsV,
}

impl View for NodeFileSystem {
    type V = NodeFileSystemV;

    open spec fn view(&self) -> NodeFileSystemV {
        NodeFileSystemV { total: self.total@, stats: self.stats@ }
    }
}

pub open spec fn dec_fs(v: JsonV) -> Option<NodeFileSystemV> {
    match v {
        JsonV::Obj(es) => {
            if seek(es, "total"@) is Some && dec_fstotal(seek(es, "total"@)->0) is Some
                && crate::decode::seek2(es, "stats"@, "io_stats"@) is Some && dec_fsstats(
                crate::decode::seek2(es, "stats"@, "io_stats"@)->0,
            ) is Some {
                Some(
                    NodeFileSystemV {
                        total: dec_fstotal(seek(es, "total"@)->0)->0,
                        stats: dec_fsstats(crate::decode::seek2(es, "stats"@, "io_stats"@)->0)->0,
                    },
                )
            } else {
                None
            }
        },
        _ => None,
    }
}

/// Decodes a node's file-system block.
pub fn decode_fs(v: &Json) -> (r: Result<NodeFileSystem, DecodeError>)
    ensures
        r is Ok <==> dec_fs(v@) is Some,
        r matches Ok(x) ==> dec_fs(v@) == Some(x@),
{
    let es = crate::decode::as_obj(v)?;
    let total_j = crate::decode::get_field(es, "total")?;
    let total = match decode_fstotal(total_j) {
        Ok(x) => x,
        Err(e) => {
            return Err(e.under_key("total"));
        },
    };
    let stats_j = crate::decode::get_field2(es, "stats", "io_stats")?;
    let stats = match decode_fsstats(stats_j) {
        Ok(x) => x,
        Err(e) => {
            return Err(e.under_key("stats"));
        },
    };
    Ok(NodeFileSystem { total, stats })
}

pub open spec fn enc_fs(x: NodeFileSystemV) -> JsonV {
    JsonV::Obj(seq![("total"@, enc_fstotal(x.total)), ("stats"@, enc_fsstats(x.stats))])
}

/// Re-encodes a node's file-system block.
pub fn encode_fs(x: &NodeFileSystem) -> (j: Json)
    ensures
        j@ == enc_fs(x@),
{
    let mut es: Vec<(String, Json)> = Vec::new();
    es.push(("total".to_owned(), encode_fstotal(&x.total)));
    es.push(("stats".to_owned(), encode_fsstats(&x.stats)));
    proof {
        assert(entries_view(es@).len() == 2);
        assert(entries_view(es@) =~= enc_fs(x@)->Obj_0);
    }
    let j = Json::Obj(es);
    proof {
        assert(j@ == enc_fs(x@));
    }
    j
}

pub proof fn lemma_fs_round_trip(x: NodeFileSystemV)
    ensures
        dec_fs(enc_fs(x)) == Some(x),
{
    reveal_strlit("total");
    reveal_strlit("stats");
    assert("total"@.len() == 5);
    assert("stats"@.len() == 5);
    assert("total"@[0] == 't');
    assert("stats"@[0] == 's');
    lemma_fstotal_round_trip(x.total);
    lemma_fsstats_round_trip(x.stats);
    reveal_with_fuel(crate::json::seek, 4);
    let es = enc_fs(x)->Obj_0;
    assert(seek(es, "total"@) == Some(enc_fstotal(x.total)));
    assert(seek(es, "stats"@) == Some(enc_fsstats(x.stats)));
}

/// One entry of a node's dynamic attribute bag.
#[derive(Debug, Clone, PartialEq)]
pub struct NodeAttribute {
    pub key: String,
    pub value: String,
}

pub struct NodeAttributeV {
    pub key: Seq<char>,
    pub value: Seq<char>,
}

impl View for NodeAttribute {
    type V = NodeAttributeV;

    open spec fn view(&self) -> NodeAttributeV {
        NodeAttributeV { key: self.key@, value: self.value@ }
    }
}

/// The views of an attribute list, in order.
pub open spec fn attr_list_v(xs: Seq<NodeAttribute>) -> Seq<NodeAttributeV> {
    Seq::new(xs.len(), |i: int| if 0 <= i < xs.len() { xs[i]@ } else { arbitrary() })
}

/// The views of a string list, in order.
pub open spec fn strings_v(xs: Seq<String>) -> Seq<Seq<char>> {
    Seq::new(xs.len(), |i: int| if 0 <= i < xs.len() { xs[i]@ } else { Seq::empty() })
}

/// What a node's attribute bag denotes: every entry becomes one key/value
/// pair, in document order.
pub open spec fn dec_attrs(v: JsonV) -> Option<Seq<NodeAttributeV>> {
    match v {
        JsonV::Obj(aes) => {
            if forall|i: int| 0 <= i < aes.len() ==> (#[trigger] aes[i]).1 is Str {
                Some(
                    Seq::new(
                        aes.len(),
                        |i: int| NodeAttributeV { key: aes[i].0, value: aes[i].1->Str_0 },
                    ),
                )
            } else {
                None
            }
        },
        _ => None,
    }
}

/// Decodes a node's attribute bag into an ordered key/value list.
pub fn decode_attrs(v: &Json) -> (r: Result<Vec<NodeAttribute>, DecodeError>)
    ensures
        r is Ok <==> dec_attrs(v@) is Some,
        r matches Ok(xs) ==> dec_attrs(v@) == Some(attr_list_v(xs@)),
{
    let es = crate::decode::as_obj(v)?;
    let ghost ges = entries_view(es@);
    let mut out: Vec<NodeAttribute> = Vec::new();
    let n = es.len();
    for i in 0..n
        invariant
            n == es.len(),
            ges == entries_view(es@),
            v@ == JsonV::Obj(ges),
            out@.len() == i,
            forall|j: int|
                0 <= j < i ==> (#[trigger] ges[j]).1 is Str && out@[j]@ == (NodeAttributeV {
                    key: ges[j].0,
                    value: ges[j].1->Str_0,
                }),
    {
        let e: &(String, Json) = &es[i];
        proof {
            assert(ges[i as int] == (es@[i as int].0@, es@[i as int].1@));
        }
        match &e.1 {
            Json::Str(s) => {
                out.push(NodeAttribute { key: e.0.clone(), value: s.clone() });
            },
            _ => {
                proof {
                    assert(!((ges[i as int]).1 is Str));
                    assert(!(forall|j: int|
                        0 <= j < ges.len() ==> (#[trigger] ges[j]).1 is Str));
                }
                return Err(crate::decode::DecodeError::at("attributes", "expected a string"));
            },
        }
    }
    proof {
        assert(forall|i: int| 0 <= i < ges.len() ==> (#[trigger] ges[i]).1 is Str);
        assert(attr_list_v(out@) =~= Seq::new(
            ges.len(),
            |i: int| NodeAttributeV { key: ges[i].0, value: ges[i].1->Str_0 },
        ));
    }
    Ok(out)
}

/// What a node's role list denotes: its strings, in order.
pub open spec fn dec_roles(v: JsonV) -> Option<Seq<Seq<char>>> {
    match v {
        JsonV::Arr(a) => {
            if forall|i: int| 0 <= i < a.len() ==> (#[trigger] a[i]) is Str {
                Some(Seq::new(a.len(), |i: int| a[i]->Str_0))
            } else {
                None
            }
        },
        _ => None,
    }
}

/// Decodes a node's role list.
pub fn decode_roles(v: &Json) -> (r: Result<Vec<String>, DecodeError>)
    ensures
        r is Ok <==> dec_roles(v@) is Some,
        r matches Ok(xs) ==> dec_roles(v@) == Some(strings_v(xs@)),
{
    let a = crate::decode::as_arr(v)?;
    let ghost ga = arr_view(a@);
    let mut out: Vec<String> = Vec::new();
    let n = a.len();
    for i in 0..n
        invariant
            n == a.len(),
            ga == arr_view(a@),
            v@ == JsonV::Arr(ga),
            out@.len() == i,
            forall|j: int|
                0 <= j < i ==> (#[trigger] ga[j]) is Str && out@[j]@ == ga[j]->Str_0,
    {
        proof {
            assert(ga[i as int] == a@[i as int]@);
        }
        match &a[i] {
            Json::Str(s) => {
                out.push(s.clone());
            },
            _ => {
                proof {
                    assert(!(ga[i as int] is Str));
                    assert(!(forall|j: int| 0 <= j < ga.len() ==> (#[trigger] ga[j]) is Str));
                }
                return Err(crate::decode::DecodeError::at("roles", "expected a string"));
            },
        }
    }
    proof {
        assert(forall|i: int| 0 <= i < ga.len() ==> (#[trigger] ga[i]) is Str);
        assert(strings_v(out@) =~= Seq::new(ga.len(), |i: int| ga[i]->Str_0));
    }
    Ok(out)
}

/// Runtime statistics of one node. The node's position under the upstream's
/// ID-keyed object is not kept: the record names the node itself.
#[derive(Debug, Clone, PartialEq)]
pub struct NodeInfo {
    pub name: String,
    pub transport_address: String,
    pub host: String,
    pub ip: String,
    pub roles: Vec<String>,
    pub attributes: Vec<NodeAttribute>,
    pub process: NodeProcess,
    pub fs: NodeFileSystem,
    pub os: NodeOS,
}

pub struct NodeInfoV {
    pub name: Seq<char>,
    pub transport_address: Seq<char>,
    pub host: Seq<char>,
    pub ip: Seq<char>,
    pub roles: Seq<Seq<char>>,
    pub attributes: Seq<NodeAttributeV>,
    pub process: NodeProcessV,
    pub fs: NodeFileSystemV,
    pub os: NodeOSV,
}

impl NodeInfoV {
    pub open spec fn wf(self) -> bool {
        self.process.wf() && self.os.wf()
    }
}

impl View for NodeInfo {
    type V = NodeInfoV;

    open spec fn view(&self) -> NodeInfoV {
        NodeInfoV {
            name: self.name@,
            transport_address: self.transport_address@,
            host: self.host@,
            ip: self.ip@,
            roles: strings_v(self.roles@),
            attributes: attr_list_v(self.attributes@),
            process: self.process@,
            fs: self.fs@,
            os: self.os@,
        }
    }
}

pub open spec fn dec_ninfo(v: JsonV) -> Option<NodeInfoV> {
    match v {
        JsonV::Obj(es) => {
            if req_str(es, "name"@) is Some && req_str(es, "transport_address"@) is Some
                && req_str(es, "host"@) is Some && req_str(es, "ip"@) is Some && seek(
                es,
                "roles"@,
            ) is Some && dec_roles(seek(es, "roles"@)->0) is Some && seek(es, "attributes"@)
                is Some && dec_attrs(seek(es, "attributes"@)->0) is Some && seek(es, "process"@)
                is Some && dec_process(seek(es, "process"@)->0) is Some && seek(es, "fs"@) is Some
                && dec_fs(seek(es, "fs"@)->0) is Some && seek(es, "os"@) is Some && dec_os(
                seek(es, "os"@)->0,
            ) is Some {
                Some(
                    NodeInfoV {
                        name: req_str(es, "name"@)->0,
                        transport_address: req_str(es, "transport_address"@)->0,
                        host: req_str(es, "host"@)->0,
                        ip: req_str(es, "ip"@)->0,
                        roles: dec_roles(seek(es, "roles"@)->0)->0,
                        attributes: dec_attrs(seek(es, "attributes"@)->0)->0,
                        process: dec_process(seek(es, "process"@)->0)->0,
                        fs: dec_fs(seek(es, "fs"@)->0)->0,
                        os: dec_os(seek(es, "os"@)->0)->0,
                    },
                )
            } else {
                None
            }
        },
        _ => None,
    }
}

/// Decodes one node's statistics.
pub fn decode_ninfo(v: &Json) -> (r: Result<NodeInfo, DecodeError>)
    ensures
        r is Ok <==> dec_ninfo(v@) is Some,
        r matches Ok(x) ==> dec_ninfo(v@) == Some(x@),
{
    let es = crate::decode::as_obj(v)?;
    let name = crate::decode::get_req_str(es, "name")?;
    let transport_address = crate::decode::get_req_str(es, "transport_address")?;
    let host = crate::decode::get_req_str(es, "host")?;
    let ip = crate::decode::get_req_str(es, "ip")?;
    let roles_j = crate::decode::get_field(es, "roles")?;
    let roles = match decode_roles(roles_j) {
        Ok(x) => x,
        Err(e) => {
            return Err(e.under_key("roles"));
        },
    };
    let attrs_j = crate::decode::get_field(es, "attributes")?;
    let attributes = match decode_attrs(attrs_j) {
        Ok(x) => x,
        Err(e) => {
            return Err(e.under_key("attributes"));
        },
    };
    let process_j = crate::decode::get_field(es, "process")?;
    let process = match decode_process(process_j) {
        Ok(x) => x,
        Err(e) => {
            return Err(e.under_key("process"));
        },
    };
    let fs_j = crate::decode::get_field(es, "fs")?;
    let fs = match decode_fs(fs_j) {
        Ok(x) => x,
        Err(e) => {
            return Err(e.under_key("fs"));
        },
    };
    let os_j = crate::decode::get_field(es, "os")?;
    let os = match decode_os(os_j) {
        Ok(x) => x,
        Err(e) => {
            return Err(e.under_key("os"));
        },
    };
    Ok(NodeInfo { name, transport_address, host, ip, roles, attributes, process, fs, os })
}

/// The canonical document of a role list.
pub open spec fn enc_roles(roles: Seq<Seq<char>>) -> JsonV {
    JsonV::Arr(
        Seq::new(
            roles.len(),
            |i: int| if 0 <= i < roles.len() { JsonV::Str(roles[i]) } else { JsonV::Null },
        ),
    )
}

/// The canonical document of an attribute bag: one key per pair.
pub open spec fn enc_attrs(attrs: Seq<NodeAttributeV>) -> JsonV {
    JsonV::Obj(
        Seq::new(
            attrs.len(),
            |i: int|
                if 0 <= i < attrs.len() {
                    (attrs[i].key, JsonV::Str(attrs[i].value))
                } else {
                    (Seq::empty(), JsonV::Null)
                },
        ),
    )
}

/// Re-encodes a role list.
pub fn encode_roles(roles: &Vec<String>) -> (j: Json)
    ensures
        j@ == enc_roles(strings_v(roles@)),
{
    let mut out: Vec<Json> = Vec::new();
    let n = roles.len();
    for i in 0..n
        invariant
            n == roles.len(),
            out@.len() == i,
            forall|j: int| 0 <= j < i ==> #[trigger] out@[j]@ == JsonV::Str(roles@[j]@),
    {
        out.push(Json::Str(roles[i].clone()));
    }
    proof {
        let ta = enc_roles(strings_v(roles@))->Arr_0;
        assert(ta.len() == n);
        assert(arr_view(out@).len() == n);
        assert forall|j: int| 0 <= j < n implies arr_view(out@)[j] == ta[j] by {
            assert(arr_view(out@)[j] == out@[j]@);
            assert(ta[j] == JsonV::Str(strings_v(roles@)[j]));
        }
        assert(arr_view(out@) =~= ta);
    }
    let j = Json::Arr(out);
    proof {
        assert(j@ == enc_roles(strings_v(roles@)));
    }
    j
}

/// Re-encodes an attribute bag.
pub fn encode_attrs(attrs: &Vec<NodeAttribute>) -> (j: Json)
    ensures
        j@ == enc_attrs(attr_list_v(attrs@)),
{
    let mut es: Vec<(String, Json)> = Vec::new();
    let n = attrs.len();
    for i in 0..n
        invariant
            n == attrs.len(),
            es@.len() == i,
            forall|j: int|
                0 <= j < i ==> es@[j].0@ == (#[trigger] attrs@[j]).key@ && es@[j].1@ == JsonV::Str(
                    attrs@[j].value@,
                ),
    {
        let e: &NodeAttribute = &attrs[i];
        let key = e.key.clone();
        let val = Json::Str(e.value.clone());
        let ghost gk = key@;
        let ghost gv = val@;
        es.push((key, val));
        proof {
            assert(es@[i as int].0@ == gk);
            assert(es@[i as int].1@ == gv);
        }
    }
    proof {
        let ta = enc_attrs(attr_list_v(attrs@))->Obj_0;
        assert(ta.len() == n);
        assert(entries_view(es@).len() == n);
        assert forall|j: int| 0 <= j < n implies entries_view(es@)[j] == ta[j] by {
            assert(entries_view(es@)[j] == (es@[j].0@, es@[j].1@));
            assert(attr_list_v(attrs@)[j] == attrs@[j]@);
            assert(ta[j] == (attr_list_v(attrs@)[j].key, JsonV::Str(attr_list_v(attrs@)[j].value)));
        }
        assert(entries_view(es@) =~= ta);
    }
    let j = Json::Obj(es);
    proof {
        assert(j@ == enc_attrs(attr_list_v(attrs@)));
    }
    j
}

pub open spec fn enc_ninfo(x: NodeInfoV) -> JsonV {
    JsonV::Obj(
        seq![
            ("name"@, JsonV::Str(x.name)),
            ("transport_address"@, JsonV::Str(x.transport_address)),
            ("host"@, JsonV::Str(x.host)),
            ("ip"@, JsonV::Str(x.ip)),
            ("roles"@, enc_roles(x.roles)),
            ("attributes"@, enc_attrs(x.attributes)),
            ("process"@, enc_process(x.process)),
            ("fs"@, enc_fs(x.fs)),
            ("os"@, enc_os(x.os)),
        ],
    )
}

/// Re-encodes one node's statistics.
pub fn encode_ninfo(x: &NodeInfo) -> (j: Json)
    ensures
        j@ == enc_ninfo(x@),
{
    let mut es: Vec<(String, Json)> = Vec::new();
    es.push(("name".to_owned(), Json::Str(x.name.clone())));
    es.push(("transport_address".to_owned(), Json::Str(x.transport_address.clone())));
    es.push(("host".to_owned(), Json::Str(x.host.clone())));
    es.push(("ip".to_owned(), Json::Str(x.ip.clone())));
    es.push(("roles".to_owned(), encode_roles(&x.roles)));
    es.push(("attributes".to_owned(), encode_attrs(&x.attributes)));
    es.push(("process".to_owned(), encode_process(&x.process)));
    es.push(("fs".to_owned(), encode_fs(&x.fs)));
    es.push(("os".to_owned(), encode_os(&x.os)));
    proof {
        assert(entries_view(es@).len() == 9);
        assert(entries_view(es@) =~= enc_ninfo(x@)->Obj_0);
    }
    let j = Json::Obj(es);
    proof {
        assert(j@ == enc_ninfo(x@));
    }
    j
}

#[verifier::rlimit(100)]
pub proof fn lemma_ninfo_round_trip(x: NodeInfoV)
    requires
        x.wf(),
    ensures
        dec_ninfo(enc_ninfo(x)) == Some(x),
{
    reveal_strlit("name");
    reveal_strlit("transport_address");
    reveal_strlit("host");
    reveal_strlit("ip");
    reveal_strlit("roles");
    reveal_strlit("attributes");
    reveal_strlit("process");
    reveal_strlit("fs");
    reveal_strlit("os");
    assert("name"@.len() == 4);
    assert("transport_address"@.len() == 17);
    assert("host"@.len() == 4);
    assert("ip"@.len() == 2);
    assert("roles"@.len() == 5);
    assert("attributes"@.len() == 10);
    assert("process"@.len() == 7);
    assert("fs"@.len() == 2);
    assert("os"@.len() == 2);
    assert("name"@[0] == 'n');
    assert("host"@[0] == 'h');
    assert("ip"@[0] == 'i');
    assert("fs"@[0] == 'f');
    assert("os"@[0] == 'o');
    lemma_process_round_trip(x.process);
    lemma_fs_round_trip(x.fs);
    lemma_os_round_trip(x.os);
    reveal_with_fuel(crate::json::seek, 11);
    let es = enc_ninfo(x)->Obj_0;
    assert(seek(es, "name"@) == Some(JsonV::Str(x.name)));
    assert(seek(es, "transport_address"@) == Some(JsonV::Str(x.transport_address)));
    assert(seek(es, "host"@) == Some(JsonV::Str(x.host)));
    assert(seek(es, "ip"@) == Some(JsonV::Str(x.ip)));
    assert(seek(es, "roles"@) == Some(enc_roles(x.roles)));
    assert(seek(es, "attributes"@) == Some(enc_attrs(x.attributes)));
    assert(seek(es, "process"@) == Some(enc_process(x.process)));
    assert(seek(es, "fs"@) == Some(enc_fs(x.fs)));
    assert(seek(es, "os"@) == Some(enc_os(x.os)));
    let ra = enc_roles(x.roles)->Arr_0;
    assert(forall|i: int| 0 <= i < ra.len() ==> (#[trigger] ra[i]) is Str);
    assert(dec_roles(enc_roles(x.roles))->0 =~= x.roles);
    let aes = enc_attrs(x.attributes)->Obj_0;
    assert(forall|i: int| 0 <= i < aes.len() ==> (#[trigger] aes[i]).1 is Str);
    assert(dec_attrs(enc_attrs(x.attributes))->0 =~= x.attributes);
}

/// The whole per-node statistics report.
#[derive(Debug, Clone, PartialEq)]
pub struct NodeOutput {
    pub nodes: Vec<NodeInfo>,
}

pub struct NodeOutputV {
    pub nodes: Seq<NodeInfoV>,
}

impl NodeOutputV {
    pub open spec fn wf(self) -> bool {
        forall|i: int| 0 <= i < self.nodes.len() ==> (#[trigger] self.nodes[i]).wf()
    }
}

/// The views of a node list, in order.
pub open spec fn ninfo_list_v(xs: Seq<NodeInfo>) -> Seq<NodeInfoV> {
    Seq::new(xs.len(), |i: int| if 0 <= i < xs.len() { xs[i]@ } else { arbitrary() })
}

impl View for NodeOutput {
    type V = NodeOutputV;

    open spec fn view(&self) -> NodeOutputV {
        NodeOutputV { nodes: ninfo_list_v(self.nodes@) }
    }
}

/// What a node-statistics document denotes: under its `nodes` field, an
/// object keyed by opaque node IDs; one record per key, in document order,
/// the keys themselves discarded.
pub open spec fn dec_node_output(v: JsonV) -> Option<NodeOutputV> {
    match v {
        JsonV::Obj(es) => match seek(es, "nodes"@) {
            Some(JsonV::Obj(nes)) => {
                if forall|i: int| 0 <= i < nes.len() ==> dec_ninfo((#[trigger] nes[i]).1) is Some {
                    Some(
                        NodeOutputV {
                            nodes: Seq::new(nes.len(), |i: int| dec_ninfo(nes[i].1)->0),
                        },
                    )
                } else {
                    None
                }
            },
            _ => None,
        },
        _ => None,
    }
}

/// Decodes a node-statistics document, flattening the ID-keyed object to a
/// list and discarding the keys.
pub fn decode_node_output(v: &Json) -> (r: Result<NodeOutput, DecodeError>)
    ensures
        r is Ok <==> dec_node_output(v@) is Some,
        r matches Ok(x) ==> dec_node_output(v@) == Some(x@),
{
    let es = crate::decode::as_obj(v)?;
    let nodes_j = crate::decode::get_field(es, "nodes")?;
    let nes = match nodes_j {
        Json::Obj(nes) => nes,
        _ => {
            return Err(crate::decode::DecodeError::at("nodes", "expected an object"));
        },
    };
    let ghost ges = entries_view(es@);
    let ghost gn = entries_view(nes@);
    let mut nodes: Vec<NodeInfo> = Vec::new();
    let n = nes.len();
    for i in 0..n
        invariant
            n == nes.len(),
            gn == entries_view(nes@),
            v@ == JsonV::Obj(ges),
            seek(ges, "nodes"@) == Some(JsonV::Obj(gn)),
            nodes@.len() == i,
            forall|j: int|
                0 <= j < i ==> dec_ninfo((#[trigger] gn[j]).1) is Some && nodes@[j]@ == dec_ninfo(
                    gn[j].1,
                )->0,
    {
        let e: &(String, Json) = &nes[i];
        proof {
            assert(gn[i as int] == (nes@[i as int].0@, nes@[i as int].1@));
        }
        match decode_ninfo(&e.1) {
            Ok(x) => nodes.push(x),
            Err(err) => {
                proof {
                    assert(dec_ninfo(gn[i as int].1) is None);
                    assert(!(forall|j: int|
                        0 <= j < gn.len() ==> dec_ninfo((#[trigger] gn[j]).1) is Some));
                }
                return Err(err.under_key(e.0.as_str()).under_key("nodes"));
            },
        }
    }
    let out = NodeOutput { nodes };
    proof {
        assert(forall|i: int| 0 <= i < gn.len() ==> dec_ninfo((#[trigger] gn[i]).1) is Some);
        assert(out@.nodes =~= Seq::new(gn.len(), |i: int| dec_ninfo(gn[i].1)->0));
    }
    Ok(out)
}

/// The canonical re-encoding of a node report. The upstream's node IDs were
/// discarded during decoding — by this resource's documented contract — so
/// the records are re-encoded as a plain list under `nodes`.
pub open spec fn enc_node_output(x: NodeOutputV) -> JsonV {
    JsonV::Obj(
        seq![
            (
                "nodes"@,
                JsonV::Arr(
                    Seq::new(
                        x.nodes.len(),
                        |i: int|
                            if 0 <= i < x.nodes.len() {
                                enc_ninfo(x.nodes[i])
                            } else {
                                JsonV::Null
                            },
                    ),
                ),
            ),
        ],
    )
}

/// Re-encodes a node report as a plain list of records.
pub fn encode_node_output(x: &NodeOutput) -> (j: Json)
    ensures
        j@ == enc_node_output(x@),
{
    let mut out: Vec<Json> = Vec::new();
    let n = x.nodes.len();
    for i in 0..n
        invariant
            n == x.nodes.len(),
            out@.len() == i,
            forall|j: int| 0 <= j < i ==> #[trigger] out@[j]@ == enc_ninfo(x.nodes@[j]@),
    {
        out.push(encode_ninfo(&x.nodes[i]));
    }
    proof {
        let ta = enc_node_output(x@)->Obj_0[0].1->Arr_0;
        assert(ta.len() == n);
        assert(arr_view(out@).len() == n);
        assert forall|j: int| 0 <= j < n implies arr_view(out@)[j] == ta[j] by {
            assert(arr_view(out@)[j] == out@[j]@);
            assert(ta[j] == enc_ninfo(ninfo_list_v(x.nodes@)[j]));
        }
        assert(arr_view(out@) =~= ta);
    }
    let arr = Json::Arr(out);
    let mut es: Vec<(String, Json)> = Vec::new();
    es.push(("nodes".to_owned(), arr));
    proof {
        assert(entries_view(es@).len() == 1);
        assert(entries_view(es@) =~= enc_node_output(x@)->Obj_0);
    }
    let j = Json::Obj(es);
    proof {
        assert(j@ == enc_node_output(x@));
    }
    j
}

/// Decoding an ID-keyed node document yields exactly one record per key, in
/// document order, each the decoding of that key's value — the IDs
/// themselves appear nowhere in the result.
pub proof fn lemma_node_output_shape(v: JsonV, es: Seq<(Seq<char>, JsonV)>, nes: Seq<
    (Seq<char>, JsonV),
>)
    requires
        v == JsonV::Obj(es),
        seek(es, "nodes"@) == Some(JsonV::Obj(nes)),
        dec_node_output(v) is Some,
    ensures
        dec_node_output(v)->0.nodes.len() == nes.len(),
        forall|i: int|
            0 <= i < nes.len() ==> #[trigger] dec_node_output(v)->0.nodes[i] == dec_ninfo(
                nes[i].1,
            )->0,
{
}

/// Decoding an attribute bag covers every original key exactly once, in
/// document order, pairing it with its value.
pub proof fn lemma_attrs_cover_keys(aes: Seq<(Seq<char>, JsonV)>)
    requires
        dec_attrs(JsonV::Obj(aes)) is Some,
    ensures
        dec_attrs(JsonV::Obj(aes))->0.len() == aes.len(),
        forall|i: int|
            0 <= i < aes.len() ==> (#[trigger] dec_attrs(JsonV::Obj(aes))->0[i]).key == aes[i].0
                && dec_attrs(JsonV::Obj(aes))->0[i].value == aes[i].1->Str_0,
{
}

} // verus!
