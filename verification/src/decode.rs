//! Field extraction over the JSON tree, with path-tracked errors.
//!
//! Every helper's outcome is fixed by a spec function over the object's
//! entries, so a resource decoder's contract can say exactly on which
//! documents it succeeds and what it returns.

use vstd::prelude::*;

use crate::json::{entries_view, seek, obj_get, Json, JsonV};
use crate::num::{parse_int, u64_text};

verus! {

/// Where and why a document failed to decode. `path` names the failing
/// location: field names joined with `.`, array elements as `[i]`.
#[derive(Debug, Clone, PartialEq)]
pub struct DecodeError {
    pub path: String,
    pub message: String,
}

pub struct DecodeErrorV {
    pub path: Seq<char>,
    pub message: Seq<char>,
}

impl View for DecodeError {
    type V = DecodeErrorV;

    open spec fn view(&self) -> DecodeErrorV {
        DecodeErrorV { path: self.path@, message: self.message@ }
    }
}

impl DecodeError {
    /// An error at the field named `key`.
    pub fn at(key: &str, message: &str) -> (r: DecodeError)
        ensures
            r.path@ == key@,
            r.message@ == message@,
    {
        DecodeError { path: key.to_owned(), message: message.to_owned() }
    }

    /// The same error, under an enclosing field named `key`.
    pub fn under_key(self, key: &str) -> (r: DecodeError)
        ensures
            r.path@ == key@ + "."@ + self.path@,
            r.message@ == self.message@,
    {
        let mut p = key.to_owned();
        p.append(".");
        p.append(self.path.as_str());
        DecodeError { path: p, message: self.message }
    }

    /// The same error, under the array element at `i`.
    pub fn under_index(self, i: usize) -> (r: DecodeError)
        ensures
            r.message@ == self.message@,
    {
        let mut p = "[".to_owned();
        let d = u64_text(i as u64);
        p.append(d.as_str());
        p.append("].");
        p.append(self.path.as_str());
        DecodeError { path: p, message: self.message }
    }
}

/// The value under `k1`, or failing that under the alias `k2`.
pub open spec fn seek2(es: Seq<(Seq<char>, JsonV)>, k1: Seq<char>, k2: Seq<char>) -> Option<
    JsonV,
> {
    if seek(es, k1) is Some {
        seek(es, k1)
    } else {
        seek(es, k2)
    }
}

/// A required string field.
pub open spec fn req_str(es: Seq<(Seq<char>, JsonV)>, k: Seq<char>) -> Option<Seq<char>> {
    match seek(es, k) {
        Some(JsonV::Str(s)) => Some(s),
        _ => None,
    }
}

/// A required string field reachable under a name or its alias.
pub open spec fn req_str2(es: Seq<(Seq<char>, JsonV)>, k1: Seq<char>, k2: Seq<char>) -> Option<
    Seq<char>,
> {
    match seek2(es, k1, k2) {
        Some(JsonV::Str(s)) => Some(s),
        _ => None,
    }
}

/// A required boolean field.
pub open spec fn req_bool(es: Seq<(Seq<char>, JsonV)>, k: Seq<char>) -> Option<bool> {
    match seek(es, k) {
        Some(JsonV::Bool(b)) => Some(b),
        _ => None,
    }
}

/// A required integer field: a number lexeme denoting a value in `i32` range.
pub open spec fn req_i32(es: Seq<(Seq<char>, JsonV)>, k: Seq<char>) -> Option<int> {
    match seek(es, k) {
        Some(JsonV::Num(t)) => match parse_int(t) {
            Some(v) => if i32::MIN <= v <= i32::MAX {
                Some(v)
            } else {
                None
            },
            None => None,
        },
        _ => None,
    }
}

/// A required numeric field of arbitrary precision: its raw lexeme.
pub open spec fn req_num(es: Seq<(Seq<char>, JsonV)>, k: Seq<char>) -> Option<Seq<char>> {
    match seek(es, k) {
        Some(JsonV::Num(t)) => Some(t),
        _ => None,
    }
}

/// An optional string field: absent or null is an explicit `None`.
pub open spec fn opt_str(es: Seq<(Seq<char>, JsonV)>, k: Seq<char>) -> Option<
    Option<Seq<char>>,
> {
    match seek(es, k) {
        None => Some(None),
        Some(JsonV::Null) => Some(None),
        Some(JsonV::Str(s)) => Some(Some(s)),
        Some(_) => None,
    }
}

/// An optional string field reachable under a name or its alias.
pub open spec fn opt_str2(es: Seq<(Seq<char>, JsonV)>, k1: Seq<char>, k2: Seq<char>) -> Option<
    Option<Seq<char>>,
> {
    match seek2(es, k1, k2) {
        None => Some(None),
        Some(JsonV::Null) => Some(None),
        Some(JsonV::Str(s)) => Some(Some(s)),
        Some(_) => None,
    }
}

/// An optional integer field: absent or null is an explicit `None`.
pub open spec fn opt_i32(es: Seq<(Seq<char>, JsonV)>, k: Seq<char>) -> Option<Option<int>> {
    match seek(es, k) {
        None => Some(None),
        Some(JsonV::Null) => Some(None),
        Some(JsonV::Num(t)) => match parse_int(t) {
            Some(v) => if i32::MIN <= v <= i32::MAX {
                Some(Some(v))
            } else {
                None
            },
            None => None,
        },
        Some(_) => None,
    }
}

/// The entries of a document that must be an object.
pub fn as_obj(v: &Json) -> (r: Result<&Vec<(String, Json)>, DecodeError>)
    ensures
        match r {
            Ok(es) => v@ == JsonV::Obj(entries_view(es@)),
            Err(_) => !(v@ is Obj),
        },
{
    match v {
        Json::Obj(es) => Ok(es),
        _ => Err(DecodeError::at("", "expected an object")),
    }
}

/// The elements of a document that must be an array.
pub fn as_arr(v: &Json) -> (r: Result<&Vec<Json>, DecodeError>)
    ensures
        match r {
            Ok(a) => v@ == JsonV::Arr(crate::json::arr_view(a@)),
            Err(_) => !(v@ is Arr),
        },
{
    match v {
        Json::Arr(a) => Ok(a),
        _ => Err(DecodeError::at("", "expected an array")),
    }
}

/// Looks a key up under a name or its alias.
pub fn obj_get2<'a>(es: &'a Vec<(String, Json)>, k1: &str, k2: &str) -> (r: Option<&'a Json>)
    ensures
        match r {
            Some(j) => seek2(entries_view(es@), k1@, k2@) == Some(j@),
            None => seek2(entries_view(es@), k1@, k2@) is None,
        },
{
    match obj_get(es, k1) {
        Some(j) => Some(j),
        None => obj_get(es, k2),
    }
}

/// A required field holding a nested document.
pub fn get_field<'a>(es: &'a Vec<(String, Json)>, key: &str) -> (r: Result<
    &'a Json,
    DecodeError,
>)
    ensures
        match r {
            Ok(j) => seek(entries_view(es@), key@) == Some(j@),
            Err(e) => seek(entries_view(es@), key@) is None && e.path@ == key@,
        },
{
    match obj_get(es, key) {
        Some(j) => Ok(j),
        None => Err(DecodeError::at(key, "missing field")),
    }
}

/// A required field holding a nested document, under a name or its alias.
pub fn get_field2<'a>(es: &'a Vec<(String, Json)>, k1: &str, k2: &str) -> (r: Result<
    &'a Json,
    DecodeError,
>)
    ensures
        match r {
            Ok(j) => seek2(entries_view(es@), k1@, k2@) == Some(j@),
            Err(e) => seek2(entries_view(es@), k1@, k2@) is None && e.path@ == k1@,
        },
{
    match obj_get2(es, k1, k2) {
        Some(j) => Ok(j),
        None => Err(DecodeError::at(k1, "missing field")),
    }
}

/// A required string field.
pub fn get_req_str(es: &Vec<(String, Json)>, key: &str) -> (r: Result<String, DecodeError>)
    ensures
        match r {
            Ok(s) => req_str(entries_view(es@), key@) == Some(s@),
            Err(e) => req_str(entries_view(es@), key@) is None && e.path@ == key@,
        },
{
    match obj_get(es, key) {
        Some(Json::Str(s)) => Ok(s.clone()),
        Some(_) => Err(DecodeError::at(key, "expected a string")),
        None => Err(DecodeError::at(key, "missing field")),
    }
}

/// A required string field, under a name or its alias.
pub fn get_req_str2(es: &Vec<(String, Json)>, k1: &str, k2: &str) -> (r: Result<
    String,
    DecodeError,
>)
    ensures
        match r {
            Ok(s) => req_str2(entries_view(es@), k1@, k2@) == Some(s@),
            Err(e) => req_str2(entries_view(es@), k1@, k2@) is None && e.path@ == k1@,
        },
{
    match obj_get2(es, k1, k2) {
        Some(Json::Str(s)) => Ok(s.clone()),
        Some(_) => Err(DecodeError::at(k1, "expected a string")),
        None => Err(DecodeError::at(k1, "missing field")),
    }
}

/// A required boolean field.
pub fn get_req_bool(es: &Vec<(String, Json)>, key: &str) -> (r: Result<bool, DecodeError>)
    ensures
        match r {
            Ok(b) => req_bool(entries_view(es@), key@) == Some(b),
            Err(e) => req_bool(entries_view(es@), key@) is None && e.path@ == key@,
        },
{
    match obj_get(es, key) {
        Some(Json::Bool(b)) => Ok(*b),
        Some(_) => Err(DecodeError::at(key, "expected a boolean")),
        None => Err(DecodeError::at(key, "missing field")),
    }
}

/// A required integer field in `i32` range.
pub fn get_req_i32(es: &Vec<(String, Json)>, key: &str) -> (r: Result<i32, DecodeError>)
    ensures
        match r {
            Ok(v) => req_i32(entries_view(es@), key@) == Some(v as int),
            Err(e) => req_i32(entries_view(es@), key@) is None && e.path@ == key@,
        },
{
    match obj_get(es, key) {
        Some(Json::Num(t)) => match crate::num::parse_i32(t.as_str()) {
            Some(v) => Ok(v),
            None => Err(DecodeError::at(key, "expected a 32-bit integer")),
        },
        Some(_) => Err(DecodeError::at(key, "expected a number")),
        None => Err(DecodeError::at(key, "missing field")),
    }
}

/// A required numeric field of arbitrary precision: its raw lexeme.
pub fn get_req_num(es: &Vec<(String, Json)>, key: &str) -> (r: Result<String, DecodeError>)
    ensures
        match r {
            Ok(t) => req_num(entries_view(es@), key@) == Some(t@),
            Err(e) => req_num(entries_view(es@), key@) is None && e.path@ == key@,
        },
{
    match obj_get(es, key) {
        Some(Json::Num(t)) => Ok(t.clone()),
        Some(_) => Err(DecodeError::at(key, "expected a number")),
        None => Err(DecodeError::at(key, "missing field")),
    }
}

/// An optional string field: absent or null decodes to `None`.
pub fn get_opt_str(es: &Vec<(String, Json)>, key: &str) -> (r: Result<
    Option<String>,
    DecodeError,
>)
    ensures
        match r {
            Ok(s) => match s {
                Some(s) => opt_str(entries_view(es@), key@) == Some(Some(s@)),
                None => opt_str(entries_view(es@), key@) == Some(None::<Seq<char>>),
            },
            Err(e) => opt_str(entries_view(es@), key@) is None && e.path@ == key@,
        },
{
    match obj_get(es, key) {
        Some(Json::Str(s)) => Ok(Some(s.clone())),
        Some(Json::Null) => Ok(None),
        Some(_) => Err(DecodeError::at(key, "expected a string or null")),
        None => Ok(None),
    }
}

/// An optional string field, under a name or its alias.
pub fn get_opt_str2(es: &Vec<(String, Json)>, k1: &str, k2: &str) -> (r: Result<
    Option<String>,
    DecodeError,
>)
    ensures
        match r {
            Ok(s) => match s {
                Some(s) => opt_str2(entries_view(es@), k1@, k2@) == Some(Some(s@)),
                None => opt_str2(entries_view(es@), k1@, k2@) == Some(None::<Seq<char>>),
            },
            Err(e) => opt_str2(entries_view(es@), k1@, k2@) is None && e.path@ == k1@,
        },
{
    match obj_get2(es, k1, k2) {
        Some(Json::Str(s)) => Ok(Some(s.clone())),
        Some(Json::Null) => Ok(None),
        Some(_) => Err(DecodeError::at(k1, "expected a string or null")),
        None => Ok(None),
    }
}

/// An optional integer field in `i32` range: absent or null decodes to `None`.
pub fn get_opt_i32(es: &Vec<(String, Json)>, key: &str) -> (r: Result<
    Option<i32>,
    DecodeError,
>)
    ensures
        match r {
            Ok(v) => match v {
                Some(v) => opt_i32(entries_view(es@), key@) == Some(Some(v as int)),
                None => opt_i32(entries_view(es@), key@) == Some(None::<int>),
            },
            Err(e) => opt_i32(entries_view(es@), key@) is None && e.path@ == key@,
        },
{
    match obj_get(es, key) {
        Some(Json::Num(t)) => match crate::num::parse_i32(t.as_str()) {
            Some(v) => Ok(Some(v)),
            None => Err(DecodeError::at(key, "expected a 32-bit integer")),
        },
        Some(Json::Null) => Ok(None),
        Some(_) => Err(DecodeError::at(key, "expected a number or null")),
        None => Ok(None),
    }
}

} // verus!
