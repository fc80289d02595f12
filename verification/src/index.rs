//! The index catalog: one row per index, in the upstream's tabular row format.

use vstd::prelude::*;

use crate::decode::{opt_str2, req_str, req_str2, DecodeError};
use crate::json::{arr_view, entries_view, seek, Json, JsonV};

verus! {

broadcast use vstd::seq::group_seq_axioms, vstd::std_specs::vec::group_vec_axioms;

/// One row of the index catalog. Counts and sizes stay in the upstream's own
/// string formatting; rows for closed indices omit the document counts, so
/// those fields are explicitly optional.
#[derive(Debug, Clone, PartialEq)]
pub struct IndexInfo {
    pub health: String,
    pub status: String,
    pub index: String,
    pub uuid: String,
    pub pri: String,
    pub rep: String,
    pub docs_count: Option<String>,
    pub docs_deleted: Option<String>,
    pub store_size: String,
    pub pri_store_size: Option<String>,
}

pub struct IndexInfoV {
    pub health: Seq<char>,
    pub status: Seq<char>,
    pub index: Seq<char>,
    pub uuid: Seq<char>,
    pub pri: Seq<char>,
    pub rep: Seq<char>,
    pub docs_count: Option<Seq<char>>,
    pub docs_deleted: Option<Seq<char>>,
    pub store_size: Seq<char>,
    pub pri_store_size: Option<Seq<char>>,
}

pub open spec fn opt_view(s: Option<String>) -> Option<Seq<char>> {
    match s {
        Some(s) => Some(s@),
        None => None,
    }
}

impl View for IndexInfo {
    type V = IndexInfoV;

    open spec fn view(&self) -> IndexInfoV {
        IndexInfoV {
            health: self.health@,
            status: self.status@,
            index: self.index@,
            uuid: self.uuid@,
            pri: self.pri@,
            rep: self.rep@,
            docs_count: opt_view(self.docs_count),
            docs_deleted: opt_view(self.docs_deleted),
            store_size: self.store_size@,
            pri_store_size: opt_view(self.pri_store_size),
        }
    }
}

/// What one catalog row denotes, if it is well-shaped. The dotted column
/// names of the upstream's tabular format are accepted as aliases.
pub open spec fn dec_index(v: JsonV) -> Option<IndexInfoV> {
    match v {
        JsonV::Obj(es) => {
            if req_str(es, "health"@) is Some && req_str(es, "status"@) is Some && req_str(
                es,
                "index"@,
            ) is Some && req_str(es, "uuid"@) is Some && req_str(es, "pri"@) is Some && req_str(
                es,
                "rep"@,
            ) is Some && opt_str2(es, "docs_count"@, "docs.count"@) is Some && opt_str2(
                es,
                "docs_deleted"@,
                "docs.deleted"@,
            ) is Some && req_str2(es, "store_size"@, "store.size"@) is Some && opt_str2(
                es,
                "pri_store_size"@,
                "pri.store.size"@,
            ) is Some {
                Some(
                    IndexInfoV {
                        health: req_str(es, "health"@)->0,
                        status: req_str(es, "status"@)->0,
                        index: req_str(es, "index"@)->0,
                        uuid: req_str(es, "uuid"@)->0,
                        pri: req_str(es, "pri"@)->0,
                        rep: req_str(es, "rep"@)->0,
                        docs_count: opt_str2(es, "docs_count"@, "docs.count"@)->0,
                        docs_deleted: opt_str2(es, "docs_deleted"@, "docs.deleted"@)->0,
                        store_size: req_str2(es, "store_size"@, "store.size"@)->0,
                        pri_store_size: opt_str2(es, "pri_store_size"@, "pri.store.size"@)->0,
                    },
                )
            } else {
                None
            }
        },
        _ => None,
    }
}

/// Decodes one catalog row.
pub fn decode_index(v: &Json) -> (r: Result<IndexInfo, DecodeError>)
    ensures
        r is Ok <==> dec_index(v@) is Some,
        r matches Ok(x) ==> dec_index(v@) == Some(x@),
{
    let es = crate::decode::as_obj(v)?;
    let health = crate::decode::get_req_str(es, "health")?;
    let status = crate::decode::get_req_str(es, "status")?;
    let index = crate::decode::get_req_str(es, "index")?;
    let uuid = crate::decode::get_req_str(es, "uuid")?;
    let pri = crate::decode::get_req_str(es, "pri")?;
    let rep = crate::decode::get_req_str(es, "rep")?;
    let docs_count = crate::decode::get_opt_str2(es, "docs_count", "docs.count")?;
    let docs_deleted = crate::decode::get_opt_str2(es, "docs_deleted", "docs.deleted")?;
    let store_size = crate::decode::get_req_str2(es, "store_size", "store.size")?;
    let pri_store_size = crate::decode::get_opt_str2(es, "pri_store_size", "pri.store.size")?;
    Ok(
        IndexInfo {
            health,
            status,
            index,
            uuid,
            pri,
            rep,
            docs_count,
            docs_deleted,
            store_size,
            pri_store_size,
        },
    )
}

/// The canonical document of an optional string: absent values are null.
pub open spec fn enc_opt_str(s: Option<Seq<char>>) -> JsonV {
    match s {
        Some(s) => JsonV::Str(s),
        None => JsonV::Null,
    }
}

/// Re-encodes an optional string.
pub fn encode_opt_str(s: &Option<String>) -> (j: Json)
    ensures
        j@ == enc_opt_str(opt_view(*s)),
{
    match s {
        Some(s) => Json::Str(s.clone()),
        None => Json::Null,
    }
}

/// The canonical document of one catalog row.
pub open spec fn enc_index(x: IndexInfoV) -> JsonV {
    JsonV::Obj(
        seq![
            ("health"@, JsonV::Str(x.health)),
            ("status"@, JsonV::Str(x.status)),
            ("index"@, JsonV::Str(x.index)),
            ("uuid"@, JsonV::Str(x.uuid)),
            ("pri"@, JsonV::Str(x.pri)),
            ("rep"@, JsonV::Str(x.rep)),
            ("docs_count"@, enc_opt_str(x.docs_count)),
            ("docs_deleted"@, enc_opt_str(x.docs_deleted)),
            ("store_size"@, JsonV::Str(x.store_size)),
            ("pri_store_size"@, enc_opt_str(x.pri_store_size)),
        ],
    )
}

/// Re-encodes one catalog row as its canonical document.
pub fn encode_index(x: &IndexInfo) -> (j: Json)
    ensures
        j@ == enc_index(x@),
{
    let mut es: Vec<(String, Json)> = Vec::new();
    es.push(("health".to_owned(), Json::Str(x.health.clone())));
    es.push(("status".to_owned(), Json::Str(x.status.clone())));
    es.push(("index".to_owned(), Json::Str(x.index.clone())));
    es.push(("uuid".to_owned(), Json::Str(x.uuid.clone())));
    es.push(("pri".to_owned(), Json::Str(x.pri.clone())));
    es.push(("rep".to_owned(), Json::Str(x.rep.clone())));
    es.push(("docs_count".to_owned(), encode_opt_str(&x.docs_count)));
    es.push(("docs_deleted".to_owned(), encode_opt_str(&x.docs_deleted)));
    es.push(("store_size".to_owned(), Json::Str(x.store_size.clone())));
    es.push(("pri_store_size".to_owned(), encode_opt_str(&x.pri_store_size)));
    proof {
        assert(entries_view(es@).len() == 10);
        assert(entries_view(es@) =~= enc_index(x@)->Obj_0);
    }
    let j = Json::Obj(es);
    proof {
        assert(j@ == enc_index(x@));
    }
    j
}

/// Decoding the canonical document of a catalog row gives the row back.
pub proof fn lemma_index_round_trip(x: IndexInfoV)
    ensures
        dec_index(enc_index(x)) == Some(x),
{
    reveal_strlit("health");
    reveal_strlit("status");
    reveal_strlit("index");
    reveal_strlit("uuid");
    reveal_strlit("pri");
    reveal_strlit("rep");
    reveal_strlit("docs_count");
    reveal_strlit("docs_deleted");
    reveal_strlit("store_size");
    reveal_strlit("pri_store_size");
    assert("health"@.len() == 6);
    assert("status"@.len() == 6);
    assert("index"@.len() == 5);
    assert("uuid"@.len() == 4);
    assert("pri"@.len() == 3);
    assert("rep"@.len() == 3);
    assert("docs_count"@.len() == 10);
    assert("docs_deleted"@.len() == 12);
    assert("store_size"@.len() == 10);
    assert("pri_store_size"@.len() == 14);
    assert("health"@[0] == 'h');
    assert("status"@[0] == 's');
    assert("pri"@[0] == 'p');
    assert("rep"@[0] == 'r');
    assert("docs_count"@[0] == 'd');
    assert("store_size"@[0] == 's');
    reveal_with_fuel(crate::json::seek, 12);
    let es = enc_index(x)->Obj_0;
    assert(es.len() == 10);
    assert(seek(es, "health"@) == Some(JsonV::Str(x.health)));
    assert(seek(es, "status"@) == Some(JsonV::Str(x.status)));
    assert(seek(es, "index"@) == Some(JsonV::Str(x.index)));
    assert(seek(es, "uuid"@) == Some(JsonV::Str(x.uuid)));
    assert(seek(es, "pri"@) == Some(JsonV::Str(x.pri)));
    assert(seek(es, "rep"@) == Some(JsonV::Str(x.rep)));
    assert(seek(es, "docs_count"@) == Some(enc_opt_str(x.docs_count)));
    assert(seek(es, "docs_deleted"@) == Some(enc_opt_str(x.docs_deleted)));
    assert(seek(es, "store_size"@) == Some(JsonV::Str(x.store_size)));
    assert(seek(es, "pri_store_size"@) == Some(enc_opt_str(x.pri_store_size)));
    assert(req_str(es, "health"@) == Some(x.health));
    assert(req_str(es, "status"@) == Some(x.status));
    assert(req_str(es, "index"@) == Some(x.index));
    assert(req_str(es, "uuid"@) == Some(x.uuid));
    assert(req_str(es, "pri"@) == Some(x.pri));
    assert(req_str(es, "rep"@) == Some(x.rep));
    assert(opt_str2(es, "docs_count"@, "docs.count"@) == Some(x.docs_count));
    assert(opt_str2(es, "docs_deleted"@, "docs.deleted"@) == Some(x.docs_deleted));
    assert(req_str2(es, "store_size"@, "store.size"@) == Some(x.store_size));
    assert(opt_str2(es, "pri_store_size"@, "pri.store.size"@) == Some(x.pri_store_size));
}

/// The views of a row list, in order.
pub open spec fn index_list_v(xs: Seq<IndexInfo>) -> Seq<IndexInfoV> {
    Seq::new(xs.len(), |i: int| if 0 <= i < xs.len() { xs[i]@ } else { arbitrary() })
}

/// What an index-catalog document denotes: an array of well-shaped rows.
pub open spec fn dec_index_list(v: JsonV) -> Option<Seq<IndexInfoV>> {
    match v {
        JsonV::Arr(a) => {
            if forall|i: int| 0 <= i < a.len() ==> dec_index(#[trigger] a[i]) is Some {
                Some(Seq::new(a.len(), |i: int| dec_index(a[i])->0))
            } else {
                None
            }
        },
        _ => None,
    }
}

/// Decodes an index-catalog document.
pub fn decode_index_list(v: &Json) -> (r: Result<Vec<IndexInfo>, DecodeError>)
    ensures
        r is Ok <==> dec_index_list(v@) is Some,
        r matches Ok(xs) ==> dec_index_list(v@) == Some(index_list_v(xs@)),
{
    let a = crate::decode::as_arr(v)?;
    let ghost ga = arr_view(a@);
    let mut out: Vec<IndexInfo> = Vec::new();
    let n = a.len();
    for i in 0..n
        invariant
            n == a.len(),
            ga == arr_view(a@),
            v@ == JsonV::Arr(ga),
            out@.len() == i,
            forall|j: int|
                0 <= j < i ==> dec_index(#[trigger] ga[j]) is Some && out@[j]@ == dec_index(
                    ga[j],
                )->0,
    {
        proof {
            assert(ga[i as int] == a@[i as int]@);
        }
        match decode_index(&a[i]) {
            Ok(x) => out.push(x),
            Err(e) => {
                proof {
                    assert(dec_index(ga[i as int]) is None);
                    assert(!(forall|j: int|
                        0 <= j < ga.len() ==> dec_index(#[trigger] ga[j]) is Some));
                }
                return Err(e.under_index(i));
            },
        }
    }
    proof {
        assert(forall|i: int| 0 <= i < ga.len() ==> dec_index(#[trigger] ga[i]) is Some);
        assert(index_list_v(out@) =~= Seq::new(ga.len(), |i: int| dec_index(ga[i])->0));
    }
    Ok(out)
}

/// The canonical document of a row list.
pub open spec fn enc_index_list(xs: Seq<IndexInfoV>) -> JsonV {
    JsonV::Arr(Seq::new(xs.len(), |i: int| if 0 <= i < xs.len() { enc_index(xs[i]) } else { JsonV::Null }))
}

/// Re-encodes a row list as its canonical document.
pub fn encode_index_list(xs: &Vec<IndexInfo>) -> (j: Json)
    ensures
        j@ == enc_index_list(index_list_v(xs@)),
{
    let mut out: Vec<Json> = Vec::new();
    let n = xs.len();
    for i in 0..n
        invariant
            n == xs.len(),
            out@.len() == i,
            forall|j: int| 0 <= j < i ==> #[trigger] out@[j]@ == enc_index(xs@[j]@),
    {
        out.push(encode_index(&xs[i]));
    }
    proof {
        let target = enc_index_list(index_list_v(xs@));
        assert(target is Arr);
        let ta = target->Arr_0;
        assert(ta.len() == n);
        assert(arr_view(out@).len() == n);
        assert forall|j: int| 0 <= j < n implies arr_view(out@)[j] == ta[j] by {
            assert(arr_view(out@)[j] == out@[j]@);
            assert(ta[j] == enc_index(index_list_v(xs@)[j]));
        }
        assert(arr_view(out@) =~= ta);
    }
    let j = Json::Arr(out);
    proof {
        assert(j@ == enc_index_list(index_list_v(xs@)));
    }
    j
}

/// Decoding the canonical document of a row list gives the list back.
pub proof fn lemma_index_list_round_trip(xs: Seq<IndexInfoV>)
    ensures
        dec_index_list(enc_index_list(xs)) == Some(xs),
{
    let a = enc_index_list(xs)->Arr_0;
    assert forall|i: int| 0 <= i < a.len() implies dec_index(#[trigger] a[i]) is Some by {
        lemma_index_round_trip(xs[i]);
    }
    assert forall|i: int| 0 <= i < a.len() implies dec_index(#[trigger] a[i])->0 == xs[i] by {
        lemma_index_round_trip(xs[i]);
    }
    assert(Seq::new(a.len(), |i: int| dec_index(a[i])->0) =~= xs);
}

} // verus!
