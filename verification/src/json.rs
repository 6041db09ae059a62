//! A self-contained JSON value model.
//!
//! Every wire format this library speaks is a JSON-lines protocol, so the
//! value model is the foundation of all three codecs. Numbers are kept
//! exact: integers as `i64`, anything with a fraction or exponent as its
//! original decimal text. Objects keep their fields in order of appearance.

use vstd::prelude::*;

verus! {

broadcast use {
    vstd::seq::axiom_seq_index_decreases,
    vstd::std_specs::vec::axiom_vec_index_decreases,
    vstd::std_specs::vec::axiom_vec_decreases_to_view,
};

/// A JSON number: an integer, or the raw text of a decimal/exponent literal.
#[derive(Debug)]
pub enum JsonNum {
    Int(i64),
    Dec(String),
}

/// A JSON value.
#[derive(Debug)]
pub enum Json {
    Null,
    Bool(bool),
    Num(JsonNum),
    Str(String),
    Arr(Vec<Json>),
    Obj(Vec<(String, Json)>),
}

/// Mathematical model of a JSON number.
#[verifier::ext_equal]
pub enum JsonNumV {
    Int(int),
    Dec(Seq<char>),
}

/// Mathematical model of a JSON value: strings as character sequences,
/// objects as ordered field sequences.
#[verifier::ext_equal]
pub enum JsonV {
    Null,
    Bool(bool),
    Num(JsonNumV),
    Str(Seq<char>),
    Arr(Seq<JsonV>),
    Obj(Seq<(Seq<char>, JsonV)>),
}

impl JsonNum {
    pub open spec fn jv(self) -> JsonNumV {
        match self {
            JsonNum::Int(i) => JsonNumV::Int(i as int),
            JsonNum::Dec(s) => JsonNumV::Dec(s@),
        }
    }
}

impl Json {
    /// The mathematical value of this JSON tree.
    pub open spec fn jv(self) -> JsonV
        decreases self,
        via Self::jv_decreases
    {
        match self {
            Json::Null => JsonV::Null,
            Json::Bool(b) => JsonV::Bool(b),
            Json::Num(n) => JsonV::Num(n.jv()),
            Json::Str(s) => JsonV::Str(s@),
            Json::Arr(items) => JsonV::Arr(
                Seq::new(
                    items@.len(),
                    |i: int|
                        if 0 <= i < items@.len() {
                            items@[i].jv()
                        } else {
                            JsonV::Null
                        },
                ),
            ),
            Json::Obj(fields) => JsonV::Obj(
                Seq::new(
                    fields@.len(),
                    |i: int|
                        if 0 <= i < fields@.len() {
                            (fields@[i].0@, fields@[i].1.jv())
                        } else {
                            (Seq::empty(), JsonV::Null)
                        },
                ),
            ),
        }
    }

    #[via_fn]
    proof fn jv_decreases(self) {
        match self {
            Json::Arr(items) => {
                assert forall|i: int| 0 <= i < items@.len() implies decreases_to!(self
                    => items@[i]) by {
                    assert(decreases_to!(self => items));
                    assert(decreases_to!(items => items@[i]));
                }
            },
            Json::Obj(fields) => {
                assert forall|i: int| 0 <= i < fields@.len() implies decreases_to!(self
                    => fields@[i].1) by {
                    assert(decreases_to!(self => fields));
                    assert(decreases_to!(fields => fields@[i]));
                    assert(decreases_to!(fields@[i] => fields@[i].1));
                }
            },
            _ => {},
        }
    }
}

/// First binding of key `k` among the fields of a JSON object, if any.
pub open spec fn jv_lookup(fields: Seq<(Seq<char>, JsonV)>, k: Seq<char>) -> Option<JsonV>
    decreases fields.len(),
{
    if fields.len() == 0 {
        None
    } else if fields[0].0 == k {
        Some(fields[0].1)
    } else {
        jv_lookup(fields.drop_first(), k)
    }
}

/// Looking a key up in a JSON value: `None` unless the value is an object
/// holding that key.
pub open spec fn jv_get(v: JsonV, k: Seq<char>) -> Option<JsonV> {
    match v {
        JsonV::Obj(fields) => jv_lookup(fields, k),
        _ => None,
    }
}

impl Clone for JsonNum {
    fn clone(&self) -> (r: Self)
        ensures
            r.jv() == self.jv(),
    {
        match self {
            JsonNum::Int(i) => JsonNum::Int(*i),
            JsonNum::Dec(s) => JsonNum::Dec(s.clone()),
        }
    }
}

impl Clone for Json {
    #[verifier::loop_isolation(false)]
    fn clone(&self) -> (r: Self)
        ensures
            r.jv() == self.jv(),
        decreases *self,
    {
        match self {
            Json::Null => Json::Null,
            Json::Bool(b) => Json::Bool(*b),
            Json::Num(n) => Json::Num(n.clone()),
            Json::Str(s) => Json::Str(s.clone()),
            Json::Arr(items) => {
                let mut out: Vec<Json> = Vec::new();
                let n = items.len();
                let mut i: usize = 0;
                while i < n
                    invariant
                        i <= n,
                        n == items@.len(),
                        out@.len() == i,
                        forall|j: int| 0 <= j < i ==> out@[j].jv() == items@[j].jv(),
                    decreases n - i,
                {
                    proof {
                        assert(decreases_to!(*self => *items));
                        assert(decreases_to!(*items => items@[i as int]));
                    }
                    out.push(items[i].clone());
                    i += 1;
                }
                proof {
                    let sa = Json::Arr(out).jv()->Arr_0;
                    let sb = Json::Arr(*items).jv()->Arr_0;
                    assert(sa.len() == sb.len());
                    assert forall|j: int| 0 <= j < sa.len() implies sa[j] == sb[j] by {
                        assert(sa[j] == out@[j].jv());
                        assert(sb[j] == items@[j].jv());
                    }
                    assert(sa =~= sb);
                    assert(Json::Arr(out).jv() == Json::Arr(*items).jv());
                }
                Json::Arr(out)
            },
            Json::Obj(fields) => {
                let mut out: Vec<(String, Json)> = Vec::new();
                let n = fields.len();
                let mut i: usize = 0;
                while i < n
                    invariant
                        i <= n,
                        n == fields@.len(),
                        out@.len() == i,
                        forall|j: int| 0 <= j < i
                            ==> out@[j].0@ == fields@[j].0@ && out@[j].1.jv() == fields@[j].1.jv(),
                    decreases n - i,
                {
                    proof {
                        assert(decreases_to!(*self => *fields));
                        assert(decreases_to!(*fields => fields@[i as int]));
                        assert(decreases_to!(fields@[i as int] => fields@[i as int].1));
                    }
                    let k = fields[i].0.clone();
                    let v = fields[i].1.clone();
                    out.push((k, v));
                    i += 1;
                }
                proof {
                    let sa = Json::Obj(out).jv()->Obj_0;
                    let sb = Json::Obj(*fields).jv()->Obj_0;
                    assert(sa.len() == sb.len());
                    assert forall|j: int| 0 <= j < sa.len() implies sa[j] == sb[j] by {
                        assert(sa[j] == (out@[j].0@, out@[j].1.jv()));
                        assert(sb[j] == (fields@[j].0@, fields@[j].1.jv()));
                    }
                    assert(sa =~= sb);
                    assert(Json::Obj(out).jv() == Json::Obj(*fields).jv());
                }
                Json::Obj(out)
            },
        }
    }
}

/// The field-wise view of an object's field vector.
pub open spec fn obj_fields_v(s: Seq<(String, Json)>) -> Seq<(Seq<char>, JsonV)> {
    s.map_values(|f: (String, Json)| (f.0@, f.1.jv()))
}

/// Pushing a field extends the field-wise view by that field's view.
pub broadcast proof fn lemma_obj_fields_push(s: Seq<(String, Json)>, kv: (String, Json))
    ensures
        (#[trigger] obj_fields_v(s.push(kv))) == obj_fields_v(s).push((kv.0@, kv.1.jv())),
{
    assert(obj_fields_v(s.push(kv)) =~= obj_fields_v(s).push((kv.0@, kv.1.jv())));
}

/// The field-wise view of no fields is empty.
pub broadcast proof fn lemma_obj_fields_empty(s: Seq<(String, Json)>)
    requires
        s.len() == 0,
    ensures
        (#[trigger] obj_fields_v(s)).len() == 0,
{
    assert(obj_fields_v(s) =~= Seq::<(Seq<char>, JsonV)>::empty());
}

/// An object's view is the field-wise view of its fields.
pub proof fn lemma_obj_fields(fields: Vec<(String, Json)>)
    ensures
        Json::Obj(fields).jv() == JsonV::Obj(obj_fields_v(fields@)),
{
    assert(Json::Obj(fields).jv()->Obj_0 =~= obj_fields_v(fields@));
    assert(Json::Obj(fields).jv() =~= JsonV::Obj(obj_fields_v(fields@)));
}

/// The view of an array value is the element-wise view of its items.
pub proof fn lemma_arr_view(items: Vec<Json>)
    ensures
        Json::Arr(items).jv() == JsonV::Arr(items@.map_values(|j: Json| j.jv())),
{
    assert(Json::Arr(items).jv()->Arr_0 =~= items@.map_values(|j: Json| j.jv()));
    assert(Json::Arr(items).jv() =~= JsonV::Arr(items@.map_values(|j: Json| j.jv())));
}

/// The view of an object value is the field-wise view of its fields.
pub proof fn lemma_obj_view(fields: Vec<(String, Json)>)
    ensures
        Json::Obj(fields).jv() == JsonV::Obj(
            fields@.map_values(|f: (String, Json)| (f.0@, f.1.jv())),
        ),
{
    assert(Json::Obj(fields).jv()->Obj_0 =~= fields@.map_values(
        |f: (String, Json)| (f.0@, f.1.jv()),
    ));
    assert(Json::Obj(fields).jv() =~= JsonV::Obj(
        fields@.map_values(|f: (String, Json)| (f.0@, f.1.jv())),
    ));
}

/// A lookup whose first field carries the key finds it there.
pub proof fn lemma_lookup_head(fields: Seq<(Seq<char>, JsonV)>, k: Seq<char>)
    requires
        fields.len() > 0,
        fields[0].0 == k,
    ensures
        jv_lookup(fields, k) == Some(fields[0].1),
{
}

/// A lookup whose first field does not carry the key continues past it.
pub proof fn lemma_lookup_tail(fields: Seq<(Seq<char>, JsonV)>, k: Seq<char>)
    requires
        fields.len() > 0,
        fields[0].0 != k,
    ensures
        jv_lookup(fields, k) == jv_lookup(fields.drop_first(), k),
{
}

/// A key that is absent from the first `i` fields is found, if at all, past
/// them: looking it up in the whole field list and in the list with those
/// fields dropped gives the same answer.
proof fn lemma_jv_lookup_skip(fields: Seq<(Seq<char>, JsonV)>, k: Seq<char>, i: int)
    requires
        0 <= i <= fields.len(),
        forall|j: int| 0 <= j < i ==> fields[j].0 != k,
    ensures
        jv_lookup(fields, k) == jv_lookup(fields.skip(i), k),
    decreases i,
{
    if i > 0 {
        lemma_jv_lookup_skip(fields.drop_first(), k, i - 1);
        assert(fields.drop_first().skip(i - 1) =~= fields.skip(i));
    } else {
        assert(fields.skip(0) =~= fields);
    }
}

/// What a `Str` value holds, if the value is one.
pub open spec fn jv_as_str(v: JsonV) -> Option<Seq<char>> {
    match v {
        JsonV::Str(s) => Some(s),
        _ => None,
    }
}

/// Key `k` of object `v`, as a string.
pub open spec fn jv_get_str(v: JsonV, k: Seq<char>) -> Option<Seq<char>> {
    match jv_get(v, k) {
        Some(f) => jv_as_str(f),
        None => None,
    }
}

/// Key `k` of object `v`, as an integer.
pub open spec fn jv_get_int(v: JsonV, k: Seq<char>) -> Option<int> {
    match jv_get(v, k) {
        Some(JsonV::Num(JsonNumV::Int(i))) => Some(i),
        _ => None,
    }
}

/// Key `k` of object `v`, as a non-negative integer.
pub open spec fn jv_get_u64(v: JsonV, k: Seq<char>) -> Option<int> {
    match jv_get_int(v, k) {
        Some(i) => if i >= 0 {
            Some(i)
        } else {
            None
        },
        None => None,
    }
}

/// Key `k` of object `v`, as a boolean.
pub open spec fn jv_get_bool(v: JsonV, k: Seq<char>) -> Option<bool> {
    match jv_get(v, k) {
        Some(JsonV::Bool(b)) => Some(b),
        _ => None,
    }
}

impl Json {
    /// Field `key` of this value, present only on objects that hold the key.
    pub fn get<'a>(&'a self, key: &str) -> (r: Option<&'a Json>)
        ensures
            match r {
                Some(v) => jv_get(self.jv(), key@) == Some(v.jv()),
                None => jv_get(self.jv(), key@) is None,
            },
    {
        match self {
            Json::Obj(fields) => {
                let ghost fv = self.jv()->Obj_0;
                let n = fields.len();
                let mut i: usize = 0;
                #[verifier::loop_isolation(false)]
                while i < n
                    invariant
                        i <= n,
                        forall|j: int| 0 <= j < i ==> fv[j].0 != key@,
                    decreases n - i,
                {
                    if str_eq(fields[i].0.as_str(), key) {
                        proof {
                            lemma_jv_lookup_skip(fv, key@, i as int);
                            assert(fv.skip(i as int)[0] == fv[i as int]);
                        }
                        return Some(&fields[i].1);
                    }
                    i += 1;
                }
                proof {
                    lemma_jv_lookup_skip(fv, key@, n as int);
                    assert(fv.skip(n as int).len() == 0);
                }
                None
            },
            _ => None,
        }
    }

    /// The first of `key` and `alt_key` that the object holds, as the
    /// original readers do with `or_else` on two spellings of a field.
    pub fn get_or<'a>(&'a self, key: &str, alt_key: &str) -> (r: Option<&'a Json>)
        ensures
            match r {
                Some(v) => jv_get_or(self.jv(), key@, alt_key@) == Some(v.jv()),
                None => jv_get_or(self.jv(), key@, alt_key@) is None,
            },
    {
        match self.get(key) {
            Some(v) => Some(v),
            None => self.get(alt_key),
        }
    }

    /// The held string, if this is a string value.
    pub fn as_str(&self) -> (r: Option<&String>)
        ensures
            match r {
                Some(s) => jv_as_str(self.jv()) == Some(s@),
                None => jv_as_str(self.jv()) is None,
            },
    {
        match self {
            Json::Str(s) => Some(s),
            _ => None,
        }
    }

    /// The held integer, if this is an integer number.
    pub fn as_i64(&self) -> (r: Option<i64>)
        ensures
            match r {
                Some(i) => self.jv() == JsonV::Num(JsonNumV::Int(i as int)),
                None => forall|i: int| self.jv() != JsonV::Num(JsonNumV::Int(i)),
            },
    {
        match self {
            Json::Num(JsonNum::Int(i)) => Some(*i),
            _ => None,
        }
    }

    /// The held integer as a `u64`, if this is a non-negative integer.
    pub fn as_u64(&self) -> (r: Option<u64>)
        ensures
            match r {
                Some(u) => self.jv() == JsonV::Num(JsonNumV::Int(u as int)),
                None => forall|i: int| i >= 0 ==> self.jv() != JsonV::Num(JsonNumV::Int(i)),
            },
    {
        match self {
            Json::Num(JsonNum::Int(i)) => if *i >= 0 {
                Some(*i as u64)
            } else {
                None
            },
            _ => None,
        }
    }

    /// The held boolean, if this is a boolean value.
    pub fn as_bool(&self) -> (r: Option<bool>)
        ensures
            match r {
                Some(b) => self.jv() == JsonV::Bool(b),
                None => forall|b: bool| self.jv() != JsonV::Bool(b),
            },
    {
        match self {
            Json::Bool(b) => Some(*b),
            _ => None,
        }
    }

    /// The held elements, if this is an array.
    pub fn as_array(&self) -> (r: Option<&Vec<Json>>)
        ensures
            match r {
                Some(items) => self.jv() matches JsonV::Arr(s) && s.len() == items@.len()
                    && (forall|i: int| 0 <= i < s.len() ==> s[i] == items@[i].jv()),
                None => !(self.jv() is Arr),
            },
    {
        match self {
            Json::Arr(items) => Some(items),
            _ => None,
        }
    }

    /// The held fields, if this is an object.
    pub fn as_object(&self) -> (r: Option<&Vec<(String, Json)>>)
        ensures
            match r {
                Some(fields) => self.jv() matches JsonV::Obj(s) && s.len() == fields@.len()
                    && (forall|i: int|
                        0 <= i < s.len() ==> s[i] == (fields@[i].0@, fields@[i].1.jv())),
                None => !(self.jv() is Obj),
            },
    {
        match self {
            Json::Obj(fields) => Some(fields),
            _ => None,
        }
    }

    /// Field `key`, as a string.
    pub fn get_str(&self, key: &str) -> (r: Option<&String>)
        ensures
            match r {
                Some(s) => jv_get_str(self.jv(), key@) == Some(s@),
                None => jv_get_str(self.jv(), key@) is None,
            },
    {
        match self.get(key) {
            Some(v) => v.as_str(),
            None => None,
        }
    }

    /// Field `key`, as a non-negative integer.
    pub fn get_u64(&self, key: &str) -> (r: Option<u64>)
        ensures
            match r {
                Some(u) => jv_get_u64(self.jv(), key@) == Some(u as int),
                None => jv_get_u64(self.jv(), key@) is None,
            },
    {
        match self.get(key) {
            Some(v) => v.as_u64(),
            None => None,
        }
    }

    /// Field `key`, as a boolean.
    pub fn get_bool(&self, key: &str) -> (r: Option<bool>)
        ensures
            match r {
                Some(b) => jv_get_bool(self.jv(), key@) == Some(b),
                None => jv_get_bool(self.jv(), key@) is None,
            },
    {
        match self.get(key) {
            Some(v) => v.as_bool(),
            None => None,
        }
    }

    /// A fresh string value.
    pub fn str_of(s: &str) -> (r: Json)
        ensures
            r.jv() == JsonV::Str(s@),
    {
        Json::Str(String::from_str(s))
    }
}

/// The first of two keys that object `v` holds.
pub open spec fn jv_get_or(v: JsonV, k: Seq<char>, alt: Seq<char>) -> Option<JsonV> {
    match jv_get(v, k) {
        Some(f) => Some(f),
        None => jv_get(v, alt),
    }
}

/// Character-wise string equality, usable where no specification of `str`'s
/// own `==` is available.
pub fn str_eq(a: &str, b: &str) -> (r: bool)
    ensures
        r == (a@ == b@),
{
    let a_len = a.unicode_len();
    let b_len = b.unicode_len();
    if a_len != b_len {
        assert(a@ != b@) by {
            assert(a@.len() != b@.len());
        }
        return false;
    }
    let mut i: usize = 0;
    while i < a_len
        invariant
            i <= a_len,
            a_len == a@.len(),
            a_len == b@.len(),
            forall|j: int| 0 <= j < i ==> a@[j] == b@[j],
        decreases a_len - i,
    {
        if a.get_char(i) != b.get_char(i) {
            return false;
        }
        i += 1;
    }
    proof {
        assert(a@ =~= b@);
    }
    true
}

} // verus!
