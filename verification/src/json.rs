//! A generic JSON tree and its mathematical view.
//!
//! Upstream documents are parsed into this tree once; all schema decoding is
//! then ordinary verified code over it. Object entries keep the order in which
//! the document listed them, and numbers keep their raw lexeme, never a
//! machine float, so values of arbitrary precision survive unchanged.

use vstd::prelude::*;

verus! {

broadcast use vstd::seq::group_seq_axioms, vstd::std_specs::vec::group_vec_axioms;

/// One JSON value. `Num` holds the raw number text of the document; `Obj`
/// holds the entries in document order.
pub enum Json {
    Null,
    Bool(bool),
    Num(String),
    Str(String),
    Arr(Vec<Json>),
    Obj(Vec<(String, Json)>),
}

/// The mathematical shape of a `Json` value, used by every contract.
pub enum JsonV {
    Null,
    Bool(bool),
    Num(Seq<char>),
    Str(Seq<char>),
    Arr(Seq<JsonV>),
    Obj(Seq<(Seq<char>, JsonV)>),
}

/// The views of an array's elements, in order.
pub open spec fn arr_view(a: Seq<Json>) -> Seq<JsonV>
    decreases a,
{
    Seq::new(a.len(), |i: int| if 0 <= i < a.len() { a[i]@ } else { JsonV::Null })
}

/// The views of an object's entries, in order.
pub open spec fn entries_view(es: Seq<(String, Json)>) -> Seq<(Seq<char>, JsonV)>
    decreases es,
{
    Seq::new(
        es.len(),
        |i: int|
            if 0 <= i < es.len() {
                (es[i].0@, es[i].1@)
            } else {
                (Seq::empty(), JsonV::Null)
            },
    )
}

impl View for Json {
    type V = JsonV;

    open spec fn view(&self) -> JsonV
        decreases self,
    {
        match self {
            Json::Null => JsonV::Null,
            Json::Bool(b) => JsonV::Bool(*b),
            Json::Num(s) => JsonV::Num(s@),
            Json::Str(s) => JsonV::Str(s@),
            Json::Arr(a) => JsonV::Arr(arr_view(a@)),
            Json::Obj(o) => JsonV::Obj(entries_view(o@)),
        }
    }
}

/// The value under the first entry named `k`, if any.
pub open spec fn seek(es: Seq<(Seq<char>, JsonV)>, k: Seq<char>) -> Option<JsonV>
    decreases es.len(),
{
    if es.len() == 0 {
        None
    } else if es[0].0 == k {
        Some(es[0].1)
    } else {
        seek(es.drop_first(), k)
    }
}

proof fn lemma_seek_skip(es: Seq<(Seq<char>, JsonV)>, k: Seq<char>, i: int)
    requires
        0 <= i <= es.len(),
        forall|j: int| 0 <= j < i ==> es[j].0 != k,
    ensures
        seek(es, k) == seek(es.skip(i), k),
    decreases i,
{
    if i > 0 {
        assert(es[0].0 != k);
        lemma_seek_skip(es.drop_first(), k, i - 1);
        assert(es.drop_first().skip(i - 1) =~= es.skip(i));
    } else {
        assert(es.skip(0) =~= es);
    }
}

/// Looks a key up among an object's entries; the result is exactly what
/// `seek` says of the entries' view.
pub fn obj_get<'a>(es: &'a Vec<(String, Json)>, key: &str) -> (r: Option<&'a Json>)
    ensures
        match r {
            Some(j) => seek(entries_view(es@), key@) == Some(j@),
            None => seek(entries_view(es@), key@) is None,
        },
{
    let ghost ges = entries_view(es@);
    proof {
        assert(ges.len() == es@.len());
    }
    let n = es.len();
    for i in 0..n
        invariant
            n == es.len(),
            ges == entries_view(es@),
            ges.len() == n,
            forall|j: int| 0 <= j < i ==> ges[j].0 != key@,
    {
        let e: &(String, Json) = &es[i];
        if str_eq(e.0.as_str(), key) {
            proof {
                assert(ges[i as int] == (es@[i as int].0@, es@[i as int].1@));
                lemma_seek_skip(ges, key@, i as int);
                assert(ges.skip(i as int)[0] == ges[i as int]);
            }
            return Some(&e.1);
        }
        proof {
            assert(ges[i as int] == (es@[i as int].0@, es@[i as int].1@));
        }
    }
    proof {
        lemma_seek_skip(ges, key@, n as int);
        assert(ges.skip(n as int) =~= Seq::<(Seq<char>, JsonV)>::empty());
    }
    None
}

/// Character-by-character string equality.
pub fn str_eq(a: &str, b: &str) -> (r: bool)
    ensures
        r <==> a@ == b@,
{
    let na = a.unicode_len();
    let nb = b.unicode_len();
    if na != nb {
        return false;
    }
    for i in 0..na
        invariant
            na == a@.len(),
            na == b@.len(),
            forall|j: int| 0 <= j < i ==> a@[j] == b@[j],
    {
        if a.get_char(i) != b.get_char(i) {
            return false;
        }
    }
    proof {
        assert(a@ =~= b@);
    }
    true
}

} // verus!
