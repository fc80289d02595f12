//! The upstream client's decision logic: the fixed path of each resource,
//! the text-to-tree parse, the dispatch to the right decoder, and the
//! fixture lookup of demo mode.
//!
//! Demo mode and live mode share `decode_doc`: what a fetch returns is a
//! function of the document's text alone, so byte-identical content decodes
//! to identical values in either mode.

use vstd::prelude::*;

use crate::cluster::{dec_cluster, decode_cluster, ClusterInfo, ClusterInfoV};
use crate::decode::{DecodeError, DecodeErrorV};
use crate::index::{dec_index_list, decode_index_list, index_list_v, IndexInfo, IndexInfoV};
use crate::json::{Json, JsonV};
use crate::nodes::{dec_node_output, decode_node_output, NodeOutput, NodeOutputV};
use crate::recovery::{dec_recovery, decode_recovery, Recovery, RecoveryV};
use crate::shard::{dec_shard_list, decode_shard_list, shard_list_v, ShallowShard, ShallowShardV};

verus! {

broadcast use vstd::seq::group_seq_axioms, vstd::std_specs::vec::group_vec_axioms;

/// The five independently cached resources.
#[derive(Debug, Clone, Copy, PartialEq, Eq, Structural)]
pub enum ResourceKind {
    Cluster,
    Indices,
    Recovery,
    Shards,
    Nodes,
}

/// One decoded resource value.
#[derive(Debug, Clone, PartialEq)]
pub enum Resource {
    Cluster(ClusterInfo),
    Indices(Vec<IndexInfo>),
    Recovery(Recovery),
    Shards(Vec<ShallowShard>),
    Nodes(NodeOutput),
}

pub enum ResourceV {
    Cluster(ClusterInfoV),
    Indices(Seq<IndexInfoV>),
    Recovery(RecoveryV),
    Shards(Seq<ShallowShardV>),
    Nodes(NodeOutputV),
}

impl View for Resource {
    type V = ResourceV;

    open spec fn view(&self) -> ResourceV {
        match self {
            Resource::Cluster(c) => ResourceV::Cluster(c@),
            Resource::Indices(xs) => ResourceV::Indices(index_list_v(xs@)),
            Resource::Recovery(r) => ResourceV::Recovery(r@),
            Resource::Shards(xs) => ResourceV::Shards(shard_list_v(xs@)),
            Resource::Nodes(n) => ResourceV::Nodes(n@),
        }
    }
}

/// Why a fetch produced no value: the transport failed, or the document did
/// not decode.
#[derive(Debug)]
pub enum FetchError {
    Transport(String),
    Decode(DecodeError),
}

pub enum FetchErrorV {
    Transport(Seq<char>),
    Decode(DecodeErrorV),
}

impl View for FetchError {
    type V = FetchErrorV;

    open spec fn view(&self) -> FetchErrorV {
        match self {
            FetchError::Transport(m) => FetchErrorV::Transport(m@),
            FetchError::Decode(e) => FetchErrorV::Decode(e@),
        }
    }
}

/// The fixed path and query string of each resource on the upstream server.
pub open spec fn endpoint_spec(kind: ResourceKind) -> Seq<char> {
    match kind {
        ResourceKind::Cluster => "_cluster/health"@,
        ResourceKind::Indices => "_cat/indices?format=json"@,
        ResourceKind::Recovery => "_recovery?format=json&active_only=true"@,
        ResourceKind::Shards => "_cat/shards?format=json"@,
        ResourceKind::Nodes => "_nodes/stats/fs,process,os?format=json"@,
    }
}

/// The path and query string for one resource; also the fixture key in demo
/// mode.
pub fn endpoint(kind: ResourceKind) -> (r: &'static str)
    ensures
        r@ == endpoint_spec(kind),
{
    match kind {
        ResourceKind::Cluster => "_cluster/health",
        ResourceKind::Indices => "_cat/indices?format=json",
        ResourceKind::Recovery => "_recovery?format=json&active_only=true",
        ResourceKind::Shards => "_cat/shards?format=json",
        ResourceKind::Nodes => "_nodes/stats/fs,process,os?format=json",
    }
}

#[verifier::external_type_specification]
#[verifier::external_body]
pub struct ExValue(serde_json::Value);

/// What a text parses to, if it is well-formed JSON. The outcome depends on
/// the text alone.
pub uninterp spec fn parsed_json(s: Seq<char>) -> Option<JsonV>;

/// Relies on serde_json::Value: each variant moves to the matching arm of
/// the library's own tree; a number's raw lexeme is kept as text.
#[verifier::external_body]
fn from_value(v: serde_json::Value) -> Json {
    match v {
        serde_json::Value::Null => Json::Null,
        serde_json::Value::Bool(b) => Json::Bool(b),
        serde_json::Value::Number(n) => Json::Num(n.to_string()),
        serde_json::Value::String(s) => Json::Str(s),
        serde_json::Value::Array(a) => Json::Arr(a.into_iter().map(from_value).collect()),
        serde_json::Value::Object(m) => Json::Obj(
            m.into_iter().map(|(k, w)| (k, from_value(w))).collect(),
        ),
    }
}

/// Relies on serde_json::from_str::<serde_json::Value>: parsing is a
/// function of the input text alone; with the crate's order-preserving
/// feature object entries keep document order, and with its
/// arbitrary-precision feature numbers keep their raw lexeme.
#[verifier::external_body]
pub(crate) fn parse_json(s: &str) -> (r: Result<Json, String>)
    ensures
        r matches Ok(j) ==> parsed_json(s@) == Some(j@),
        r is Err ==> parsed_json(s@) is None,
{
    match serde_json::from_str::<serde_json::Value>(s) {
        Ok(v) => Ok(from_value(v)),
        Err(e) => Err(e.to_string()),
    }
}

/// What one resource's document denotes under its kind's schema.
pub open spec fn dec_resource(kind: ResourceKind, v: JsonV) -> Option<ResourceV> {
    match kind {
        ResourceKind::Cluster => match dec_cluster(v) {
            Some(c) => Some(ResourceV::Cluster(c)),
            None => None,
        },
        ResourceKind::Indices => match dec_index_list(v) {
            Some(xs) => Some(ResourceV::Indices(xs)),
            None => None,
        },
        ResourceKind::Recovery => match dec_recovery(v) {
            Some(r) => Some(ResourceV::Recovery(r)),
            None => None,
        },
        ResourceKind::Shards => match dec_shard_list(v) {
            Some(xs) => Some(ResourceV::Shards(xs)),
            None => None,
        },
        ResourceKind::Nodes => match dec_node_output(v) {
            Some(n) => Some(ResourceV::Nodes(n)),
            None => None,
        },
    }
}

/// What one resource's raw text denotes: parse, then decode under the
/// kind's schema. Both demo and live mode return exactly this.
pub open spec fn decode_doc(kind: ResourceKind, s: Seq<char>) -> Option<ResourceV> {
    match parsed_json(s) {
        Some(v) => dec_resource(kind, v),
        None => None,
    }
}

/// Decodes one resource's document from its raw text.
pub fn decode_resource(kind: ResourceKind, text: &str) -> (r: Result<Resource, DecodeError>)
    ensures
        r is Ok <==> decode_doc(kind, text@) is Some,
        r matches Ok(x) ==> decode_doc(kind, text@) == Some(x@),
{
    let j = match parse_json(text) {
        Ok(j) => j,
        Err(m) => {
            return Err(DecodeError { path: String::new(), message: m });
        },
    };
    match kind {
        ResourceKind::Cluster => match decode_cluster(&j) {
            Ok(c) => Ok(Resource::Cluster(c)),
            Err(e) => Err(e),
        },
        ResourceKind::Indices => match decode_index_list(&j) {
            Ok(xs) => Ok(Resource::Indices(xs)),
            Err(e) => Err(e),
        },
        ResourceKind::Recovery => match decode_recovery(&j) {
            Ok(r) => Ok(Resource::Recovery(r)),
            Err(e) => Err(e),
        },
        ResourceKind::Shards => match decode_shard_list(&j) {
            Ok(xs) => Ok(Resource::Shards(xs)),
            Err(e) => Err(e),
        },
        ResourceKind::Nodes => match decode_node_output(&j) {
            Ok(n) => Ok(Resource::Nodes(n)),
            Err(e) => Err(e),
        },
    }
}

/// The views of a fixture table's entries, in order.
pub open spec fn fixtures_view(t: Seq<(String, String)>) -> Seq<(Seq<char>, Seq<char>)> {
    Seq::new(
        t.len(),
        |i: int|
            if 0 <= i < t.len() {
                (t[i].0@, t[i].1@)
            } else {
                (Seq::empty(), Seq::empty())
            },
    )
}

/// The text under the first fixture whose key is `k`, if any.
pub open spec fn fixture_lookup(t: Seq<(Seq<char>, Seq<char>)>, k: Seq<char>) -> Option<
    Seq<char>,
>
    decreases t.len(),
{
    if t.len() == 0 {
        None
    } else if t[0].0 == k {
        Some(t[0].1)
    } else {
        fixture_lookup(t.drop_first(), k)
    }
}

proof fn lemma_fixture_lookup_skip(t: Seq<(Seq<char>, Seq<char>)>, k: Seq<char>, i: int)
    requires
        0 <= i <= t.len(),
        forall|j: int| 0 <= j < i ==> t[j].0 != k,
    ensures
        fixture_lookup(t, k) == fixture_lookup(t.skip(i), k),
    decreases i,
{
    if i > 0 {
        lemma_fixture_lookup_skip(t.drop_first(), k, i - 1);
        assert(t.drop_first().skip(i - 1) =~= t.skip(i));
    } else {
        assert(t.skip(0) =~= t);
    }
}

/// Finds the canned document for a path in a fixture table.
pub fn demo_lookup<'a>(fixtures: &'a Vec<(String, String)>, path: &str) -> (r: Option<&'a String>)
    ensures
        match r {
            Some(s) => fixture_lookup(fixtures_view(fixtures@), path@) == Some(s@),
            None => fixture_lookup(fixtures_view(fixtures@), path@) is None,
        },
{
    let ghost gt = fixtures_view(fixtures@);
    let n = fixtures.len();
    for i in 0..n
        invariant
            n == fixtures.len(),
            gt == fixtures_view(fixtures@),
            gt.len() == n,
            forall|j: int| 0 <= j < i ==> gt[j].0 != path@,
    {
        let e: &(String, String) = &fixtures[i];
        if crate::json::str_eq(e.0.as_str(), path) {
            proof {
                assert(gt[i as int] == (fixtures@[i as int].0@, fixtures@[i as int].1@));
                lemma_fixture_lookup_skip(gt, path@, i as int);
                assert(gt.skip(i as int)[0] == gt[i as int]);
            }
            return Some(&e.1);
        }
        proof {
            assert(gt[i as int] == (fixtures@[i as int].0@, fixtures@[i as int].1@));
        }
    }
    proof {
        lemma_fixture_lookup_skip(gt, path@, n as int);
        assert(gt.skip(n as int) =~= Seq::<(Seq<char>, Seq<char>)>::empty());
    }
    None
}

/// The canned document a demo fetch reads for one resource, if the table
/// holds one.
pub open spec fn demo_doc(kind: ResourceKind, t: Seq<(Seq<char>, Seq<char>)>) -> Option<
    Seq<char>,
> {
    fixture_lookup(t, endpoint_spec(kind))
}

/// Fetches one resource in demo mode: looks its path up in the fixture
/// table and decodes the canned document exactly as a live response would
/// be decoded. A missing fixture is this mode's transport failure.
pub fn demo_fetch(kind: ResourceKind, fixtures: &Vec<(String, String)>) -> (r: Result<
    Resource,
    FetchError,
>)
    ensures
        demo_doc(kind, fixtures_view(fixtures@)) is None <==> r matches Err(
            FetchError::Transport(_),
        ),
        demo_doc(kind, fixtures_view(fixtures@)) matches Some(text) ==> {
            &&& r is Ok <==> decode_doc(kind, text) is Some
            &&& (r matches Ok(x) ==> decode_doc(kind, text) == Some(x@))
            &&& (decode_doc(kind, text) is None ==> r matches Err(FetchError::Decode(_)))
        },
{
    let path = endpoint(kind);
    let text = match demo_lookup(fixtures, path) {
        Some(t) => t,
        None => {
            return Err(FetchError::Transport("no fixture for this path".to_owned()));
        },
    };
    match decode_resource(kind, text.as_str()) {
        Ok(x) => Ok(x),
        Err(e) => Err(FetchError::Decode(e)),
    }
}

/// Unwraps a resource known to be a cluster summary.
pub fn into_cluster(r: Resource) -> (c: ClusterInfo)
    requires
        r@ is Cluster,
    ensures
        r@ == ResourceV::Cluster(c@),
{
    match r {
        Resource::Cluster(c) => c,
        _ => unreached(),
    }
}

/// Unwraps a resource known to be an index catalog.
pub fn into_indices(r: Resource) -> (xs: Vec<IndexInfo>)
    requires
        r@ is Indices,
    ensures
        r@ == ResourceV::Indices(index_list_v(xs@)),
{
    match r {
        Resource::Indices(xs) => xs,
        _ => unreached(),
    }
}

/// Unwraps a resource known to be a recovery report.
pub fn into_recovery(r: Resource) -> (x: Recovery)
    requires
        r@ is Recovery,
    ensures
        r@ == ResourceV::Recovery(x@),
{
    match r {
        Resource::Recovery(x) => x,
        _ => unreached(),
    }
}

/// Unwraps a resource known to be a shard catalog.
pub fn into_shards(r: Resource) -> (xs: Vec<ShallowShard>)
    requires
        r@ is Shards,
    ensures
        r@ == ResourceV::Shards(shard_list_v(xs@)),
{
    match r {
        Resource::Shards(xs) => xs,
        _ => unreached(),
    }
}

/// Unwraps a resource known to be a node report.
pub fn into_nodes(r: Resource) -> (x: NodeOutput)
    requires
        r@ is Nodes,
    ensures
        r@ == ResourceV::Nodes(x@),
{
    match r {
        Resource::Nodes(x) => x,
        _ => unreached(),
    }
}

/// A resource decoded under a kind's schema carries that kind's variant.
pub proof fn lemma_decode_doc_kind(kind: ResourceKind, s: Seq<char>)
    requires
        decode_doc(kind, s) is Some,
    ensures
        kind is Cluster ==> decode_doc(kind, s)->0 is Cluster,
        kind is Indices ==> decode_doc(kind, s)->0 is Indices,
        kind is Recovery ==> decode_doc(kind, s)->0 is Recovery,
        kind is Shards ==> decode_doc(kind, s)->0 is Shards,
        kind is Nodes ==> decode_doc(kind, s)->0 is Nodes,
{
}

} // verus!
