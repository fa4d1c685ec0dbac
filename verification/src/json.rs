//! The library's JSON model.
//!
//! Response bodies are parsed by serde_json behind a trusted boundary and
//! immediately converted into [`Json`], a tree of plain values that the
//! verified decoding logic can reason about. The mathematical model of a
//! tree is [`JsonV`]; every contract in the crate speaks of that view.

use vstd::prelude::*;
use crate::error::NextcloudApiError;

verus! {

broadcast use vstd::seq::group_seq_axioms, vstd::std_specs::vec::group_vec_axioms;

/// The specification-level value of a JSON tree.
///
/// Integer and unsigned integer nodes are unified into mathematical
/// integers. Object fields stand in the order the tree carries them;
/// for trees built by [`parse_json`] that is serde_json's map order
/// (sorted by key, duplicate keys collapsed), not the body's textual
/// order.
#[verifier::ext_equal]
pub enum JsonV {
    Null,
    Bool(bool),
    Int(int),
    Str(Seq<char>),
    Arr(Seq<JsonV>),
    Obj(Seq<(Seq<char>, JsonV)>),
}

/// A JSON tree of plain values.
///
/// Numbers that fit neither `i64` nor `u64` (in particular non-integer
/// numbers) are read as `Null`; the shapes this crate decodes carry
/// integers only.
#[derive(Debug)]
pub enum Json {
    Null,
    Bool(bool),
    Int(i64),
    UInt(u64),
    Str(String),
    Arr(Vec<Json>),
    Obj(Vec<(String, Json)>),
}

/// The view of an executable JSON tree.
pub open spec fn jview(j: Json) -> JsonV
    decreases j,
    via jview_dec
{
    match j {
        Json::Null => JsonV::Null,
        Json::Bool(b) => JsonV::Bool(b),
        Json::Int(i) => JsonV::Int(i as int),
        Json::UInt(u) => JsonV::Int(u as int),
        Json::Str(s) => JsonV::Str(s@),
        Json::Arr(v) => JsonV::Arr(jview_seq(v@)),
        Json::Obj(fields) => JsonV::Obj(jview_fields(fields@)),
    }
}

/// The views of a sequence of trees, in order.
pub open spec fn jview_seq(s: Seq<Json>) -> Seq<JsonV>
    decreases s,
    via jview_seq_dec
{
    if s.len() == 0 {
        Seq::empty()
    } else {
        seq![jview(s[0])] + jview_seq(s.skip(1))
    }
}

/// The views of an object's field list, in order.
pub open spec fn jview_fields(s: Seq<(String, Json)>) -> Seq<(Seq<char>, JsonV)>
    decreases s,
    via jview_fields_dec
{
    if s.len() == 0 {
        Seq::empty()
    } else {
        seq![(s[0].0@, jview(s[0].1))] + jview_fields(s.skip(1))
    }
}

#[via_fn]
proof fn jview_dec(j: Json) {
    match j {
        Json::Arr(v) => {
            assert(decreases_to!(j => v));
            assert(decreases_to!(v => v@));
        },
        Json::Obj(fields) => {
            assert(decreases_to!(j => fields));
            assert(decreases_to!(fields => fields@));
        },
        _ => {},
    }
}

#[via_fn]
proof fn jview_seq_dec(s: Seq<Json>) {
    if s.len() > 0 {
        assert(decreases_to!(s => s[0]));
        assert(s.skip(1) =~= s.subrange(1, s.len() as int));
        assert(decreases_to!(s => s.subrange(1, s.len() as int)));
    }
}

#[via_fn]
proof fn jview_fields_dec(s: Seq<(String, Json)>) {
    if s.len() > 0 {
        assert(decreases_to!(s => s[0]));
        assert(decreases_to!(s[0] => s[0].1));
        assert(s.skip(1) =~= s.subrange(1, s.len() as int));
        assert(decreases_to!(s => s.subrange(1, s.len() as int)));
    }
}

/// `jview_seq` maps the sequence elementwise.
pub broadcast proof fn lemma_jview_seq(s: Seq<Json>)
    ensures
        (#[trigger] jview_seq(s)).len() == s.len(),
        forall|i: int| 0 <= i < s.len() ==> jview_seq(s)[i] == jview(s[i]),
    decreases s.len(),
{
    if s.len() > 0 {
        lemma_jview_seq(s.skip(1));
    }
}

/// `jview_fields` maps the field list elementwise.
pub broadcast proof fn lemma_jview_fields(s: Seq<(String, Json)>)
    ensures
        (#[trigger] jview_fields(s)).len() == s.len(),
        forall|i: int| 0 <= i < s.len()
            ==> jview_fields(s)[i] == (s[i].0@, jview(s[i].1)),
    decreases s.len(),
{
    if s.len() > 0 {
        lemma_jview_fields(s.skip(1));
    }
}

impl View for Json {
    type V = JsonV;

    open spec fn view(&self) -> JsonV {
        jview(*self)
    }
}

/// Looks a key up in an object's field list: the first field with that
/// name wins, mirroring the executable scan.
pub open spec fn lookup_field(fields: Seq<(Seq<char>, JsonV)>, key: Seq<char>) -> Option<JsonV>
    decreases fields.len(),
{
    if fields.len() == 0 {
        None
    } else if fields[0].0 == key {
        Some(fields[0].1)
    } else {
        lookup_field(fields.skip(1), key)
    }
}

/// Field lookup on a tree: `None` unless the tree is an object with the key.
pub open spec fn jget(j: JsonV, key: Seq<char>) -> Option<JsonV> {
    match j {
        JsonV::Obj(fields) => lookup_field(fields, key),
        _ => None,
    }
}

/// The integer denoted by a tree, if it is a number node.
pub open spec fn jint(j: JsonV) -> Option<int> {
    match j {
        JsonV::Int(i) => Some(i),
        _ => None,
    }
}

/// The string denoted by a tree, if it is a string node.
pub open spec fn jstr(j: JsonV) -> Option<Seq<char>> {
    match j {
        JsonV::Str(s) => Some(s),
        _ => None,
    }
}

/// The boolean denoted by a tree, if it is a boolean node.
pub open spec fn jbool(j: JsonV) -> Option<bool> {
    match j {
        JsonV::Bool(b) => Some(b),
        _ => None,
    }
}

impl Json {
    /// Looks up a field of an object; `None` if `self` is not an object
    /// or has no field of that name.
    #[verifier::loop_isolation(false)]
    pub fn get<'a>(&'a self, key: &str) -> (r: Option<&'a Json>)
        ensures
            match r {
                Some(f) => jget(self@, key@) == Some(f@),
                None => jget(self@, key@) is None,
            },
    {
        broadcast use lemma_jview_fields;

        match self {
            Json::Obj(fields) => {
                let key_string: String = key.to_owned();
                let ghost vfields = jview_fields(fields@);
                proof {
                    assert(vfields.skip(0) =~= vfields);
                }
                let mut i: usize = 0;
                while i < fields.len()
                    invariant
                        i <= fields.len(),
                        jget(self@, key@) == lookup_field(vfields.skip(i as int), key@),
                    decreases fields.len() - i,
                {
                    proof {
                        assert(vfields.skip(i as int)[0] == vfields[i as int]);
                        assert(vfields.skip(i as int).skip(1) =~= vfields.skip(i as int + 1));
                    }
                    if fields[i].0 == key_string {
                        return Some(&fields[i].1);
                    }
                    i = i + 1;
                }
                proof {
                    assert(vfields.skip(fields.len() as int)
                        =~= Seq::<(Seq<char>, JsonV)>::empty());
                }
                None
            },
            _ => None,
        }
    }

    /// The number node's value as `i64`, if it is one and fits.
    pub fn as_i64(&self) -> (r: Option<i64>)
        ensures
            match r {
                Some(n) => jint(self@) == Some(n as int),
                None => jint(self@) is None
                    || !(i64::MIN <= jint(self@)->Some_0 <= i64::MAX),
            },
    {
        match self {
            Json::Int(i) => Some(*i),
            Json::UInt(u) => {
                if *u <= i64::MAX as u64 {
                    Some(*u as i64)
                } else {
                    None
                }
            },
            _ => None,
        }
    }

    /// The number node's value as `u64`, if it is one and is not negative.
    pub fn as_u64(&self) -> (r: Option<u64>)
        ensures
            match r {
                Some(n) => jint(self@) == Some(n as int),
                None => jint(self@) is None || jint(self@)->Some_0 < 0,
            },
    {
        match self {
            Json::Int(i) => {
                if *i >= 0 {
                    Some(*i as u64)
                } else {
                    None
                }
            },
            Json::UInt(u) => Some(*u),
            _ => None,
        }
    }

    /// The string node's text, if it is one.
    pub fn as_str<'a>(&'a self) -> (r: Option<&'a String>)
        ensures
            match r {
                Some(s) => jstr(self@) == Some(s@),
                None => jstr(self@) is None,
            },
    {
        match self {
            Json::Str(s) => Some(s),
            _ => None,
        }
    }

    /// The boolean node's value, if it is one.
    pub fn as_bool(&self) -> (r: Option<bool>)
        ensures
            match r {
                Some(b) => jbool(self@) == Some(b),
                None => jbool(self@) is None,
            },
    {
        match self {
            Json::Bool(b) => Some(*b),
            _ => None,
        }
    }

    /// The array node's elements, if it is one.
    pub fn as_array<'a>(&'a self) -> (r: Option<&'a Vec<Json>>)
        ensures
            match r {
                Some(v) => self@ is Arr && self@->Arr_0 == jview_seq(v@),
                None => !(self@ is Arr),
            },
    {
        match self {
            Json::Arr(v) => Some(v),
            _ => None,
        }
    }
}

impl Clone for Json {
    /// A deep copy with the same view.
    #[verifier::loop_isolation(false)]
    fn clone(&self) -> (res: Self)
        ensures
            res@ == self@,
        decreases *self,
    {
        broadcast use lemma_jview_seq, lemma_jview_fields;

        match self {
            Json::Null => Json::Null,
            Json::Bool(b) => Json::Bool(*b),
            Json::Int(i) => Json::Int(*i),
            Json::UInt(u) => Json::UInt(*u),
            Json::Str(s) => Json::Str(s.clone()),
            Json::Arr(v) => {
                let mut out: Vec<Json> = Vec::new();
                let mut i: usize = 0;
                while i < v.len()
                    invariant
                        i <= v.len(),
                        out@.len() == i,
                        forall|k: int| 0 <= k < i ==> out@[k]@ == jview(v@[k]),
                    decreases v.len() - i,
                {
                    proof {
                        assert(decreases_to!(*self => *v));
                        assert(decreases_to!(*v => v@));
                        assert(decreases_to!(v@ => v@[i as int]));
                    }
                    out.push(v[i].clone());
                    i = i + 1;
                }
                proof {
                    assert(jview_seq(out@) =~= jview_seq(v@));
                }
                Json::Arr(out)
            },
            Json::Obj(fields) => {
                let mut out: Vec<(String, Json)> = Vec::new();
                let mut i: usize = 0;
                while i < fields.len()
                    invariant
                        i <= fields.len(),
                        out@.len() == i,
                        forall|k: int| 0 <= k < i
                            ==> out@[k].0@ == fields@[k].0@ && out@[k].1@ == jview(fields@[k].1),
                    decreases fields.len() - i,
                {
                    proof {
                        assert(decreases_to!(*self => *fields));
                        assert(decreases_to!(*fields => fields@));
                        assert(decreases_to!(fields@ => fields@[i as int]));
                        assert(decreases_to!(fields@[i as int] => fields@[i as int].1));
                    }
                    let pair = &fields[i];
                    out.push((pair.0.clone(), pair.1.clone()));
                    i = i + 1;
                }
                proof {
                    assert(jview_fields(out@) =~= jview_fields(fields@));
                }
                Json::Obj(out)
            },
        }
    }
}

/// A value that can be decoded from a JSON tree.
///
/// `json_shape_ok` says on exactly which trees decoding succeeds, and
/// `matches_json` pins the decoded value to the tree it came from.
pub trait FromJson: Sized {
    spec fn json_shape_ok(j: JsonV) -> bool;

    spec fn matches_json(&self, j: JsonV) -> bool;

    fn from_json(j: &Json) -> (r: Result<Self, NextcloudApiError>)
        ensures
            r is Ok <==> Self::json_shape_ok(j@),
            r is Ok ==> r->Ok_0.matches_json(j@),
            r is Err ==> r->Err_0 is SerdeError,
    ;
}

impl FromJson for Json {
    /// Identity decoding: any tree is itself.
    open spec fn json_shape_ok(j: JsonV) -> bool {
        true
    }

    open spec fn matches_json(&self, j: JsonV) -> bool {
        self@ == j
    }

    fn from_json(j: &Json) -> (r: Result<Self, NextcloudApiError>) {
        Ok(j.clone())
    }
}

/// The text of a string field of an object.
pub open spec fn field_str(j: JsonV, k: Seq<char>) -> Option<Seq<char>> {
    match jget(j, k) {
        Some(f) => jstr(f),
        None => None,
    }
}

/// The value of a boolean field of an object.
pub open spec fn field_bool(j: JsonV, k: Seq<char>) -> Option<bool> {
    match jget(j, k) {
        Some(f) => jbool(f),
        None => None,
    }
}

/// The value of an integer field that fits `u32`.
pub open spec fn field_u32(j: JsonV, k: Seq<char>) -> Option<u32> {
    match jget(j, k) {
        Some(f) => match jint(f) {
            Some(i) => if 0 <= i <= u32::MAX { Some(i as u32) } else { None },
            None => None,
        },
        None => None,
    }
}

/// The value of an integer field that fits `u64`.
pub open spec fn field_u64(j: JsonV, k: Seq<char>) -> Option<u64> {
    match jget(j, k) {
        Some(f) => match jint(f) {
            Some(i) => if 0 <= i <= u64::MAX { Some(i as u64) } else { None },
            None => None,
        },
        None => None,
    }
}

/// The value of an integer field that fits `usize`.
pub open spec fn field_usize(j: JsonV, k: Seq<char>) -> Option<usize> {
    match jget(j, k) {
        Some(f) => match jint(f) {
            Some(i) => if 0 <= i <= usize::MAX { Some(i as usize) } else { None },
            None => None,
        },
        None => None,
    }
}

/// The value of an integer field that fits `i64`.
pub open spec fn field_i64(j: JsonV, k: Seq<char>) -> Option<i64> {
    match jget(j, k) {
        Some(f) => match jint(f) {
            Some(i) => if i64::MIN <= i <= i64::MAX { Some(i as i64) } else { None },
            None => None,
        },
        None => None,
    }
}

impl Json {
    /// An owned copy of a string field.
    pub fn get_string(&self, k: &str) -> (r: Option<String>)
        ensures
            match r {
                Some(s) => field_str(self@, k@) == Some(s@),
                None => field_str(self@, k@) is None,
            },
    {
        match self.get(k) {
            Some(f) => match f.as_str() {
                Some(s) => Some(s.clone()),
                None => None,
            },
            None => None,
        }
    }

    /// A boolean field's value.
    pub fn get_bool(&self, k: &str) -> (r: Option<bool>)
        ensures
            match r {
                Some(b) => field_bool(self@, k@) == Some(b),
                None => field_bool(self@, k@) is None,
            },
    {
        match self.get(k) {
            Some(f) => f.as_bool(),
            None => None,
        }
    }

    /// An integer field's value as `u32`.
    pub fn get_u32(&self, k: &str) -> (r: Option<u32>)
        ensures
            match r {
                Some(n) => field_u32(self@, k@) == Some(n),
                None => field_u32(self@, k@) is None,
            },
    {
        match self.get(k) {
            Some(f) => match f.as_u64() {
                Some(n) => if n <= u32::MAX as u64 {
                    Some(n as u32)
                } else {
                    None
                },
                None => None,
            },
            None => None,
        }
    }

    /// An integer field's value as `u64`.
    pub fn get_u64(&self, k: &str) -> (r: Option<u64>)
        ensures
            match r {
                Some(n) => field_u64(self@, k@) == Some(n),
                None => field_u64(self@, k@) is None,
            },
    {
        match self.get(k) {
            Some(f) => f.as_u64(),
            None => None,
        }
    }

    /// An integer field's value as `usize`.
    pub fn get_usize(&self, k: &str) -> (r: Option<usize>)
        ensures
            match r {
                Some(n) => field_usize(self@, k@) == Some(n),
                None => field_usize(self@, k@) is None,
            },
    {
        match self.get(k) {
            Some(f) => match f.as_u64() {
                Some(n) => if n <= usize::MAX as u64 {
                    Some(n as usize)
                } else {
                    None
                },
                None => None,
            },
            None => None,
        }
    }

    /// An integer field's value as `i64`.
    pub fn get_i64(&self, k: &str) -> (r: Option<i64>)
        ensures
            match r {
                Some(n) => field_i64(self@, k@) == Some(n),
                None => field_i64(self@, k@) is None,
            },
    {
        match self.get(k) {
            Some(f) => f.as_i64(),
            None => None,
        }
    }
}

#[verifier::external_type_specification]
#[verifier::external_body]
pub struct ExValue(serde_json::Value);

/// What parsing a body text yields: `None` where the text is not JSON.
pub uninterp spec fn json_parse(s: Seq<char>) -> Option<JsonV>;

/// Converts a serde_json tree into the library's tree, variant by
/// variant. Numbers that fit neither `i64` nor `u64` become `Null`.
/// Called only from within `parse_json`'s trusted body.
#[verifier::external_body]
fn value_to_json(v: serde_json::Value) -> Json {
    match v {
        serde_json::Value::Null => Json::Null,
        serde_json::Value::Bool(b) => Json::Bool(b),
        serde_json::Value::Number(n) => n.as_i64().map(Json::Int)
            .or_else(|| n.as_u64().map(Json::UInt)).unwrap_or(Json::Null),
        serde_json::Value::String(s) => Json::Str(s),
        serde_json::Value::Array(a) => Json::Arr(a.into_iter().map(value_to_json).collect()),
        serde_json::Value::Object(o) => Json::Obj(
            o.into_iter().map(|(k, w)| (k, value_to_json(w))).collect(),
        ),
    }
}

/// Relies on `serde_json::from_str::<serde_json::Value>`: whether a text
/// is valid JSON, and which tree it denotes, depend on the text alone.
/// The error text is serde_json's own description.
#[verifier::external_body]
pub fn parse_json(s: &str) -> (r: Result<Json, String>)
    ensures
        r is Ok <==> json_parse(s@) is Some,
        r is Ok ==> json_parse(s@) == Some(r->Ok_0@),
{
    serde_json::from_str::<serde_json::Value>(s)
        .map(value_to_json)
        .map_err(|e| e.to_string())
}

/// What serialising a tree yields; a function of the view alone.
pub uninterp spec fn json_dump(j: JsonV) -> Seq<char>;

/// Converts the library's tree back into a serde_json tree, variant by
/// variant. Called only from within `dump_json`'s trusted body.
#[verifier::external_body]
fn json_to_value(j: &Json) -> serde_json::Value {
    match j {
        Json::Null => serde_json::Value::Null,
        Json::Bool(b) => serde_json::Value::Bool(*b),
        Json::Int(i) => serde_json::Value::from(*i),
        Json::UInt(u) => serde_json::Value::from(*u),
        Json::Str(s) => serde_json::Value::String(s.clone()),
        Json::Arr(v) => serde_json::Value::Array(v.iter().map(json_to_value).collect()),
        Json::Obj(fields) => serde_json::Value::Object(
            fields.iter().map(|p| (p.0.clone(), json_to_value(&p.1))).collect(),
        ),
    }
}

/// Relies on `serde_json::to_string` applied to the tree built by
/// `json_to_value`: the text depends on the tree alone. Trees with equal
/// views convert to the same serde_json tree, so the text is a function
/// of the view. On such a tree — string keys only, integer numbers only —
/// serialisation cannot fail, so the call always returns the text.
#[verifier::external_body]
pub fn dump_json(j: &Json) -> (r: String)
    ensures
        r@ == json_dump(j@),
{
    serde_json::to_string(&json_to_value(j)).expect("an integer-and-string tree serialises")
}

} // verus!
