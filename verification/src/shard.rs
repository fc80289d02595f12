//! The shard catalog: one row per shard, in the upstream's tabular row format.

use vstd::prelude::*;

use crate::decode::{opt_str, req_str, DecodeError};
use crate::index::{enc_opt_str, encode_opt_str, opt_view};
use crate::json::{arr_view, entries_view, seek, Json, JsonV};

verus! {

broadcast use vstd::seq::group_seq_axioms, vstd::std_specs::vec::group_vec_axioms;

/// One row of the shard catalog. An unassigned shard has no node and no
/// address, and may lack size and document counts, so those fields are
/// explicitly optional rather than a decode failure.
#[derive(Debug, Clone, PartialEq)]
pub struct ShallowShard {
    pub index: String,
    pub shard: String,
    pub prirep: String,
    pub state: String,
    pub docs: Option<String>,
    pub store: Option<String>,
    pub ip: Option<String>,
    pub node: Option<String>,
}

pub struct ShallowShardV {
    pub index: Seq<char>,
    pub shard: Seq<char>,
    pub prirep: Seq<char>,
    pub state: Seq<char>,
    pub docs: Option<Seq<char>>,
    pub store: Option<Seq<char>>,
    pub ip: Option<Seq<char>>,
    pub node: Option<Seq<char>>,
}

impl View for ShallowShard {
    type V = ShallowShardV;

    open spec fn view(&self) -> ShallowShardV {
        ShallowShardV {
            index: self.index@,
            shard: self.shard@,
            prirep: self.prirep@,
            state: self.state@,
            docs: opt_view(self.docs),
            store: opt_view(self.store),
            ip: opt_view(self.ip),
            node: opt_view(self.node),
        }
    }
}

impl ShallowShard {
    /// A field-for-field copy.
    pub fn duplicate(&self) -> (r: ShallowShard)
        ensures
            r@ == self@,
    {
        ShallowShard {
            index: self.index.clone(),
            shard: self.shard.clone(),
            prirep: self.prirep.clone(),
            state: self.state.clone(),
            docs: clone_opt(&self.docs),
            store: clone_opt(&self.store),
            ip: clone_opt(&self.ip),
            node: clone_opt(&self.node),
        }
    }
}

/// A copy of an optional string.
pub fn clone_opt(s: &Option<String>) -> (r: Option<String>)
    ensures
        opt_view(r) == opt_view(*s),
{
    match s {
        Some(s) => Some(s.clone()),
        None => None,
    }
}

/// What one shard row denotes, if it is well-shaped.
pub open spec fn dec_shard(v: JsonV) -> Option<ShallowShardV> {
    match v {
        JsonV::Obj(es) => {
            if req_str(es, "index"@) is Some && req_str(es, "shard"@) is Some && req_str(
                es,
                "prirep"@,
            ) is Some && req_str(es, "state"@) is Some && opt_str(es, "docs"@) is Some && opt_str(
                es,
                "store"@,
            ) is Some && opt_str(es, "ip"@) is Some && opt_str(es, "node"@) is Some {
                Some(
                    ShallowShardV {
                        index: req_str(es, "index"@)->0,
                        shard: req_str(es, "shard"@)->0,
                        prirep: req_str(es, "prirep"@)->0,
                        state: req_str(es, "state"@)->0,
                        docs: opt_str(es, "docs"@)->0,
                        store: opt_str(es, "store"@)->0,
                        ip: opt_str(es, "ip"@)->0,
                        node: opt_str(es, "node"@)->0,
                    },
                )
            } else {
                None
            }
        },
        _ => None,
    }
}

/// Decodes one shard row.
pub fn decode_shard(v: &Json) -> (r: Result<ShallowShard, DecodeError>)
    ensures
        r is Ok <==> dec_shard(v@) is Some,
        r matches Ok(x) ==> dec_shard(v@) == Some(x@),
{
    let es = crate::decode::as_obj(v)?;
    let index = crate::decode::get_req_str(es, "index")?;
    let shard = crate::decode::get_req_str(es, "shard")?;
    let prirep = crate::decode::get_req_str(es, "prirep")?;
    let state = crate::decode::get_req_str(es, "state")?;
    let docs = crate::decode::get_opt_str(es, "docs")?;
    let store = crate::decode::get_opt_str(es, "store")?;
    let ip = crate::decode::get_opt_str(es, "ip")?;
    let node = crate::decode::get_opt_str(es, "node")?;
    Ok(ShallowShard { index, shard, prirep, state, docs, store, ip, node })
}

/// A shard row lacking the `ip` and `node` columns — an unassigned shard —
/// still decodes, with those fields explicitly absent.
pub proof fn lemma_unassigned_shard_decodes(es: Seq<(Seq<char>, JsonV)>)
    requires
        req_str(es, "index"@) is Some,
        req_str(es, "shard"@) is Some,
        req_str(es, "prirep"@) is Some,
        req_str(es, "state"@) is Some,
        seek(es, "docs"@) is None,
        seek(es, "store"@) is None,
        seek(es, "ip"@) is None,
        seek(es, "node"@) is None,
    ensures
        dec_shard(JsonV::Obj(es)) matches Some(s) && s.ip is None && s.node is None && s.docs
            is None && s.store is None,
{
}

/// The canonical document of one shard row.
pub open spec fn enc_shard(x: ShallowShardV) -> JsonV {
    JsonV::Obj(
        seq![
            ("index"@, JsonV::Str(x.index)),
            ("shard"@, JsonV::Str(x.shard)),
            ("prirep"@, JsonV::Str(x.prirep)),
            ("state"@, JsonV::Str(x.state)),
            ("docs"@, enc_opt_str(x.docs)),
            ("store"@, enc_opt_str(x.store)),
            ("ip"@, enc_opt_str(x.ip)),
            ("node"@, enc_opt_str(x.node)),
        ],
    )
}

/// Re-encodes one shard row as its canonical document.
pub fn encode_shard(x: &ShallowShard) -> (j: Json)
    ensures
        j@ == enc_shard(x@),
{
    let mut es: Vec<(String, Json)> = Vec::new();
    es.push(("index".to_owned(), Json::Str(x.index.clone())));
    es.push(("shard".to_owned(), Json::Str(x.shard.clone())));
    es.push(("prirep".to_owned(), Json::Str(x.prirep.clone())));
    es.push(("state".to_owned(), Json::Str(x.state.clone())));
    es.push(("docs".to_owned(), encode_opt_str(&x.docs)));
    es.push(("store".to_owned(), encode_opt_str(&x.store)));
    es.push(("ip".to_owned(), encode_opt_str(&x.ip)));
    es.push(("node".to_owned(), encode_opt_str(&x.node)));
    proof {
        assert(entries_view(es@).len() == 8);
        assert(entries_view(es@) =~= enc_shard(x@)->Obj_0);
    }
    let j = Json::Obj(es);
    proof {
        assert(j@ == enc_shard(x@));
    }
    j
}

/// Decoding the canonical document of a shard row gives the row back.
pub proof fn lemma_shard_round_trip(x: ShallowShardV)
    ensures
        dec_shard(enc_shard(x)) == Some(x),
{
    reveal_strlit("index");
    reveal_strlit("shard");
    reveal_strlit("prirep");
    reveal_strlit("state");
    reveal_strlit("docs");
    reveal_strlit("store");
    reveal_strlit("ip");
    reveal_strlit("node");
    assert("index"@.len() == 5);
    assert("shard"@.len() == 5);
    assert("prirep"@.len() == 6);
    assert("state"@.len() == 5);
    assert("docs"@.len() == 4);
    assert("store"@.len() == 5);
    assert("ip"@.len() == 2);
    assert("node"@.len() == 4);
    assert("index"@[0] == 'i');
    assert("shard"@[0] == 's');
    assert("state"@[0] == 's');
    assert("store"@[0] == 's');
    assert("docs"@[0] == 'd');
    assert("node"@[0] == 'n');
    assert("shard"@[1] == 'h');
    assert("state"@[1] == 't');
    assert("store"@[1] == 't');
    assert("state"@[2] == 'a');
    assert("store"@[2] == 'o');
    reveal_with_fuel(crate::json::seek, 10);
    let es = enc_shard(x)->Obj_0;
    assert(es.len() == 8);
    assert(seek(es, "index"@) == Some(JsonV::Str(x.index)));
    assert(seek(es, "shard"@) == Some(JsonV::Str(x.shard)));
    assert(seek(es, "prirep"@) == Some(JsonV::Str(x.prirep)));
    assert(seek(es, "state"@) == Some(JsonV::Str(x.state)));
    assert(seek(es, "docs"@) == Some(enc_opt_str(x.docs)));
    assert(seek(es, "store"@) == Some(enc_opt_str(x.store)));
    assert(seek(es, "ip"@) == Some(enc_opt_str(x.ip)));
    assert(seek(es, "node"@) == Some(enc_opt_str(x.node)));
    assert(req_str(es, "index"@) == Some(x.index));
    assert(req_str(es, "shard"@) == Some(x.shard));
    assert(req_str(es, "prirep"@) == Some(x.prirep));
    assert(req_str(es, "state"@) == Some(x.state));
    assert(opt_str(es, "docs"@) == Some(x.docs));
    assert(opt_str(es, "store"@) == Some(x.store));
    assert(opt_str(es, "ip"@) == Some(x.ip));
    assert(opt_str(es, "node"@) == Some(x.node));
}

/// The views of a shard list, in order.
pub open spec fn shard_list_v(xs: Seq<ShallowShard>) -> Seq<ShallowShardV> {
    Seq::new(xs.len(), |i: int| if 0 <= i < xs.len() { xs[i]@ } else { arbitrary() })
}

/// What a shard-catalog document denotes: an array of well-shaped rows.
pub open spec fn dec_shard_list(v: JsonV) -> Option<Seq<ShallowShardV>> {
    match v {
        JsonV::Arr(a) => {
            if forall|i: int| 0 <= i < a.len() ==> dec_shard(#[trigger] a[i]) is Some {
                Some(Seq::new(a.len(), |i: int| dec_shard(a[i])->0))
            } else {
                None
            }
        },
        _ => None,
    }
}

/// Decodes a shard-catalog document.
pub fn decode_shard_list(v: &Json) -> (r: Result<Vec<ShallowShard>, DecodeError>)
    ensures
        r is Ok <==> dec_shard_list(v@) is Some,
        r matches Ok(xs) ==> dec_shard_list(v@) == Some(shard_list_v(xs@)),
{
    let a = crate::decode::as_arr(v)?;
    let ghost ga = arr_view(a@);
    let mut out: Vec<ShallowShard> = Vec::new();
    let n = a.len();
    for i in 0..n
        invariant
            n == a.len(),
            ga == arr_view(a@),
            v@ == JsonV::Arr(ga),
            out@.len() == i,
            forall|j: int|
                0 <= j < i ==> dec_shard(#[trigger] ga[j]) is Some && out@[j]@ == dec_shard(
                    ga[j],
                )->0,
    {
        proof {
            assert(ga[i as int] == a@[i as int]@);
        }
        match decode_shard(&a[i]) {
            Ok(x) => out.push(x),
            Err(e) => {
                proof {
                    assert(dec_shard(ga[i as int]) is None);
                    assert(!(forall|j: int|
                        0 <= j < ga.len() ==> dec_shard(#[trigger] ga[j]) is Some));
                }
                return Err(e.under_index(i));
            },
        }
    }
    proof {
        assert(forall|i: int| 0 <= i < ga.len() ==> dec_shard(#[trigger] ga[i]) is Some);
        assert(shard_list_v(out@) =~= Seq::new(ga.len(), |i: int| dec_shard(ga[i])->0));
    }
    Ok(out)
}

/// The canonical document of a shard list.
pub open spec fn enc_shard_list(xs: Seq<ShallowShardV>) -> JsonV {
    JsonV::Arr(
        Seq::new(xs.len(), |i: int| if 0 <= i < xs.len() { enc_shard(xs[i]) } else { JsonV::Null }),
    )
}

/// Re-encodes a shard list as its canonical document.
pub fn encode_shard_list(xs: &Vec<ShallowShard>) -> (j: Json)
    ensures
        j@ == enc_shard_list(shard_list_v(xs@)),
{
    let mut out: Vec<Json> = Vec::new();
    let n = xs.len();
    for i in 0..n
        invariant
            n == xs.len(),
            out@.len() == i,
            forall|j: int| 0 <= j < i ==> #[trigger] out@[j]@ == enc_shard(xs@[j]@),
    {
        out.push(encode_shard(&xs[i]));
    }
    proof {
        let target = enc_shard_list(shard_list_v(xs@));
        assert(target is Arr);
        let ta = target->Arr_0;
        assert(ta.len() == n);
        assert(arr_view(out@).len() == n);
        assert forall|j: int| 0 <= j < n implies arr_view(out@)[j] == ta[j] by {
            assert(arr_view(out@)[j] == out@[j]@);
            assert(ta[j] == enc_shard(shard_list_v(xs@)[j]));
        }
        assert(arr_view(out@) =~= ta);
    }
    let j = Json::Arr(out);
    proof {
        assert(j@ == enc_shard_list(shard_list_v(xs@)));
    }
    j
}

/// Decoding the canonical document of a shard list gives the list back.
pub proof fn lemma_shard_list_round_trip(xs: Seq<ShallowShardV>)
    ensures
        dec_shard_list(enc_shard_list(xs)) == Some(xs),
{
    let a = enc_shard_list(xs)->Arr_0;
    assert forall|i: int| 0 <= i < a.len() implies dec_shard(#[trigger] a[i]) is Some by {
        lemma_shard_round_trip(xs[i]);
    }
    assert forall|i: int| 0 <= i < a.len() implies dec_shard(#[trigger] a[i])->0 == xs[i] by {
        lemma_shard_round_trip(xs[i]);
    }
    assert(Seq::new(a.len(), |i: int| dec_shard(a[i])->0) =~= xs);
}

} // verus!
