//! A JSON value made of plain values, as the provider protocols read and write it.

use vstd::prelude::*;
use vstd::string::StringExecFns;
use serde_json::Value;

verus! {

/// A JSON value.
///
/// Numbers are held as serde_json holds them: a non-negative integer, a
/// negative integer, or another number kept as its decimal text.
pub enum Json {
    Null,
    Bool(bool),
    UInt(u64),
    NegInt(i64),
    Float(String),
    Str(String),
    Arr(Vec<Json>),
    Obj(Vec<(String, Json)>),
}

/// The mathematical model of a [`Json`] value.
pub enum JsonV {
    Null,
    Bool(bool),
    UInt(u64),
    NegInt(i64),
    Float(Seq<char>),
    Str(Seq<char>),
    Arr(Seq<JsonV>),
    Obj(Seq<(Seq<char>, JsonV)>),
}

/// The model of a value.
pub open spec fn json_view(j: Json) -> JsonV
    decreases j,
{
    match j {
        Json::Null => JsonV::Null,
        Json::Bool(b) => JsonV::Bool(b),
        Json::UInt(n) => JsonV::UInt(n),
        Json::NegInt(n) => JsonV::NegInt(n),
        Json::Float(t) => JsonV::Float(t@),
        Json::Str(t) => JsonV::Str(t@),
        Json::Arr(items) => JsonV::Arr(items_view(items@)),
        Json::Obj(fields) => JsonV::Obj(fields_view(fields@)),
    }
}

/// The models of a sequence of values.
pub open spec fn items_view(s: Seq<Json>) -> Seq<JsonV>
    decreases s,
{
    if s.len() == 0 {
        Seq::empty()
    } else {
        items_view(s.drop_last()).push(json_view(s.last()))
    }
}

/// The models of a sequence of object fields.
pub open spec fn fields_view(s: Seq<(String, Json)>) -> Seq<(Seq<char>, JsonV)>
    decreases s,
{
    if s.len() == 0 {
        Seq::empty()
    } else {
        fields_view(s.drop_last()).push((s.last().0@, json_view(s.last().1)))
    }
}

impl View for Json {
    type V = JsonV;

    open spec fn view(&self) -> JsonV {
        json_view(*self)
    }
}


/// The model of each value of a sequence, one for one.
pub proof fn lemma_items_view(s: Seq<Json>)
    ensures
        items_view(s).len() == s.len(),
        forall|i: int| 0 <= i < s.len() ==> #[trigger] items_view(s)[i] == s[i]@,
    decreases s.len(),
{
    if s.len() > 0 {
        lemma_items_view(s.drop_last());
    }
}

/// The model of each field of a sequence, one for one.
pub proof fn lemma_fields_view(s: Seq<(String, Json)>)
    ensures
        fields_view(s).len() == s.len(),
        forall|i: int|
            0 <= i < s.len() ==> #[trigger] fields_view(s)[i] == (s[i].0@, s[i].1@),
    decreases s.len(),
{
    if s.len() > 0 {
        lemma_fields_view(s.drop_last());
    }
}

/// The value of the first field named `key`, if any.
pub open spec fn lookup(fs: Seq<(Seq<char>, JsonV)>, key: Seq<char>) -> Option<JsonV>
    decreases fs.len(),
{
    if fs.len() == 0 {
        None
    } else if fs[0].0 == key {
        Some(fs[0].1)
    } else {
        lookup(fs.drop_first(), key)
    }
}

/// `v[key]`: the field's value when `v` is an object that has it, else `null`.
pub open spec fn field(v: JsonV, key: Seq<char>) -> JsonV {
    match v {
        JsonV::Obj(fs) => match lookup(fs, key) {
            Some(x) => x,
            None => JsonV::Null,
        },
        _ => JsonV::Null,
    }
}

/// `v.as_str()`.
pub open spec fn as_str(v: JsonV) -> Option<Seq<char>> {
    match v {
        JsonV::Str(t) => Some(t),
        _ => None,
    }
}

/// `v.as_u64()`: only a non-negative integer has one.
pub open spec fn as_u64(v: JsonV) -> Option<u64> {
    match v {
        JsonV::UInt(n) => Some(n),
        _ => None,
    }
}

/// `v.as_array()`.
pub open spec fn as_array(v: JsonV) -> Option<Seq<JsonV>> {
    match v {
        JsonV::Arr(items) => Some(items),
        _ => None,
    }
}

/// `v.get(key)` on an object: `Some` only when the field is present.
pub open spec fn get(v: JsonV, key: Seq<char>) -> Option<JsonV> {
    match v {
        JsonV::Obj(fs) => lookup(fs, key),
        _ => None,
    }
}

/// The compact JSON text that serde_json writes for a value.
pub uninterp spec fn json_text(v: JsonV) -> Seq<char>;

/// The field `key` of `j`, when `j` is an object that has it.
pub fn get_field<'a>(j: &'a Json, key: &str) -> (r: Option<&'a Json>)
    ensures
        r matches Some(x) ==> get(j@, key@) == Some(x@),
        r is None ==> get(j@, key@) is None,
{
    match j {
        Json::Obj(fields) => {
            proof {
                lemma_fields_view(fields@);
            }
            let ghost fs = fields_view(fields@);
            let mut i: usize = 0;
            assert(fs.subrange(0, fs.len() as int) =~= fs);
            while i < fields.len()
                invariant
                    i <= fields@.len(),
                    fs == fields_view(fields@),
                    fs.len() == fields@.len(),
                    forall|k: int|
                        0 <= k < fields@.len() ==> #[trigger] fs[k] == (
                        fields@[k].0@,
                        fields@[k].1@,
                    ),
                    lookup(fs, key@) == lookup(fs.subrange(i as int, fs.len() as int), key@),
                    *j == Json::Obj(*fields),
                decreases fields@.len() - i,
            {
                let ghost rest = fs.subrange(i as int, fs.len() as int);
                assert(rest[0] == fs[i as int]);
                if crate::text::str_eq(fields[i].0.as_str(), key) {
                    assert(rest[0].0 == key@);
                    assert(lookup(rest, key@) == Some(fields@[i as int].1@));
                    return Some(&fields[i].1);
                }
                assert(rest.drop_first() =~= fs.subrange(i + 1, fs.len() as int));
                i = i + 1;
            }
            assert(fs.subrange(0, fs.len() as int) =~= fs);
            None
        },
        _ => None,
    }
}

/// `j[key]` as an optional reference: `None` stands for `null`.
pub fn index<'a>(j: Option<&'a Json>, key: &str) -> (r: Option<&'a Json>)
    ensures
        r matches Some(x) ==> x@ == field(opt_view(j), key@),
        r is None ==> field(opt_view(j), key@) == JsonV::Null,
        opt_view(r) == field(opt_view(j), key@),
{
    match j {
        Some(v) => get_field(v, key),
        None => None,
    }
}

/// The model of an optional reference, `null` for `None`.
pub open spec fn opt_view(j: Option<&Json>) -> JsonV {
    match j {
        Some(v) => v@,
        None => JsonV::Null,
    }
}

/// `v.as_str()` on an optional reference.
pub fn str_of<'a>(j: Option<&'a Json>) -> (r: Option<&'a String>)
    ensures
        r matches Some(t) ==> as_str(opt_view(j)) == Some(t@),
        r is None ==> as_str(opt_view(j)) is None,
{
    match j {
        Some(Json::Str(t)) => Some(t),
        _ => None,
    }
}

/// `v.as_u64()` on an optional reference.
pub fn u64_of(j: Option<&Json>) -> (r: Option<u64>)
    ensures
        r == as_u64(opt_view(j)),
{
    match j {
        Some(Json::UInt(n)) => Some(*n),
        _ => None,
    }
}

/// `v.as_array()` on an optional reference.
pub fn array_of<'a>(j: Option<&'a Json>) -> (r: Option<&'a Vec<Json>>)
    ensures
        r matches Some(items) ==> as_array(opt_view(j)) == Some(items_view(items@)),
        r is None ==> as_array(opt_view(j)) is None,
{
    match j {
        Some(Json::Arr(items)) => Some(items),
        _ => None,
    }
}

/// A copy of a value.
pub fn clone_json(j: &Json) -> (r: Json)
    ensures
        r@ == j@,
    decreases j,
{
    match j {
        Json::Null => Json::Null,
        Json::Bool(b) => Json::Bool(*b),
        Json::UInt(n) => Json::UInt(*n),
        Json::NegInt(n) => Json::NegInt(*n),
        Json::Float(t) => Json::Float(t.clone()),
        Json::Str(t) => Json::Str(t.clone()),
        Json::Arr(items) => {
            let mut out: Vec<Json> = Vec::new();
            let mut i: usize = 0;
            while i < items.len()
                invariant
                    i <= items@.len(),
                    items_view(out@) == items_view(items@.subrange(0, i as int)),
                    *j == Json::Arr(*items),
                decreases items@.len() - i,
            {
                proof {
                    assert(decreases_to!(*j => (*j)->Arr_0));
                    assert(decreases_to!(*items => items@));
                    assert(decreases_to!(items@ => items@[i as int]));
                    assert(decreases_to!(*j => items@[i as int]));
                }
                let c = clone_json(&items[i]);
                let ghost prev = out@;
                out.push(c);
                proof {
                    assert(out@.drop_last() =~= prev);
                    let sub = items@.subrange(0, i + 1);
                    assert(sub.drop_last() =~= items@.subrange(0, i as int));
                }
                i = i + 1;
            }
            assert(items@.subrange(0, items@.len() as int) =~= items@);
            Json::Arr(out)
        },
        Json::Obj(fields) => {
            let mut out: Vec<(String, Json)> = Vec::new();
            let mut i: usize = 0;
            while i < fields.len()
                invariant
                    i <= fields@.len(),
                    fields_view(out@) == fields_view(fields@.subrange(0, i as int)),
                    *j == Json::Obj(*fields),
                decreases fields@.len() - i,
            {
                proof {
                    assert(decreases_to!(*j => (*j)->Obj_0));
                    assert(decreases_to!(*fields => fields@));
                    assert(decreases_to!(fields@ => fields@[i as int]));
                    assert(decreases_to!(fields@[i as int] => fields@[i as int].1));
                    assert(decreases_to!(*j => fields@[i as int].1));
                }
                let k = fields[i].0.clone();
                let c = clone_json(&fields[i].1);
                let ghost prev = out@;
                out.push((k, c));
                proof {
                    assert(out@.drop_last() =~= prev);
                    let sub = fields@.subrange(0, i + 1);
                    assert(sub.drop_last() =~= fields@.subrange(0, i as int));
                }
                i = i + 1;
            }
            assert(fields@.subrange(0, fields@.len() as int) =~= fields@);
            Json::Obj(out)
        },
    }
}

/// Appending a value appends its model.
pub proof fn lemma_items_view_push(s: Seq<Json>, x: Json)
    ensures
        items_view(s.push(x)) == items_view(s).push(x@),
{
    assert(s.push(x).drop_last() =~= s);
}

/// Appending a field appends its model.
pub proof fn lemma_fields_view_push(s: Seq<(String, Json)>, x: (String, Json))
    ensures
        fields_view(s.push(x)) == fields_view(s).push((x.0@, x.1@)),
{
    assert(s.push(x).drop_last() =~= s);
}

/// A string value.
pub fn jstr(s: &str) -> (r: Json)
    ensures
        r@ == JsonV::Str(s@),
{
    Json::Str(String::from_str(s))
}

/// An array of one value.
pub fn arr1(a: Json) -> (r: Json)
    ensures
        r@ == JsonV::Arr(seq![a@]),
{
    let ghost av = a@;
    let mut v: Vec<Json> = Vec::new();
    v.push(a);
    proof {
        lemma_items_view_push(Seq::empty(), v@[0]);
        assert(v@ =~= Seq::<Json>::empty().push(v@[0]));
    }
    Json::Arr(v)
}

/// Appends a field to an object under construction.
pub fn push_field(fields: &mut Vec<(String, Json)>, key: &str, value: Json)
    ensures
        fields_view(final(fields)@) == fields_view(old(fields)@).push((key@, value@)),
{
    let k = String::from_str(key);
    let ghost kv = (k, value);
    fields.push((k, value));
    proof {
        lemma_fields_view_push(old(fields)@, kv);
    }
}

/// An object of one field.
pub fn obj1(k1: &str, v1: Json) -> (r: Json)
    ensures
        r@ == JsonV::Obj(seq![(k1@, v1@)]),
{
    let mut f: Vec<(String, Json)> = Vec::new();
    push_field(&mut f, k1, v1);
    let r = Json::Obj(f);
    assert(r@->Obj_0 =~= seq![(k1@, v1@)]);
    r
}

/// An object of two fields.
pub fn obj2(k1: &str, v1: Json, k2: &str, v2: Json) -> (r: Json)
    ensures
        r@ == JsonV::Obj(seq![(k1@, v1@), (k2@, v2@)]),
{
    let mut f: Vec<(String, Json)> = Vec::new();
    push_field(&mut f, k1, v1);
    push_field(&mut f, k2, v2);
    let r = Json::Obj(f);
    assert(r@->Obj_0 =~= seq![(k1@, v1@), (k2@, v2@)]);
    r
}

/// An object of three fields.
pub fn obj3(k1: &str, v1: Json, k2: &str, v2: Json, k3: &str, v3: Json) -> (r: Json)
    ensures
        r@ == JsonV::Obj(seq![(k1@, v1@), (k2@, v2@), (k3@, v3@)]),
{
    let mut f: Vec<(String, Json)> = Vec::new();
    push_field(&mut f, k1, v1);
    push_field(&mut f, k2, v2);
    push_field(&mut f, k3, v3);
    let r = Json::Obj(f);
    assert(r@->Obj_0 =~= seq![(k1@, v1@), (k2@, v2@), (k3@, v3@)]);
    r
}

/// The string held by an optional string value, or `default`.
pub open spec fn str_or(o: Option<Seq<char>>, default: Seq<char>) -> Seq<char> {
    match o {
        Some(s) => s,
        None => default,
    }
}

/// A copy of the string a value holds, or of `default` when it holds none
/// (`v.as_str().unwrap_or(default)`).
pub fn str_or_default(j: Option<&Json>, default: &str) -> (r: String)
    ensures
        r@ == str_or(as_str(opt_view(j)), default@),
{
    match str_of(j) {
        Some(t) => t.clone(),
        None => String::from_str(default),
    }
}

/// The compact text of a value, `null` standing for `None`.
pub fn text_of_opt(j: Option<&Json>) -> (r: String)
    ensures
        r@ == json_text(opt_view(j)),
{
    match j {
        Some(v) => to_text(v),
        None => {
            let null = Json::Null;
            to_text(&null)
        },
    }
}

/// serde_json's `Value`, declared as an opaque type: it is only built and rendered.
#[verifier::external_type_specification]
#[verifier::external_body]
pub struct ExSerdeValue(serde_json::Value);

/// Builds the serde_json `Value` of the same shape, field by field (a
/// `Float` through serde_json's `Number` parser).  Nothing is claimed of the
/// result: it is only handed to serde_json for rendering.
#[verifier::external_body]
fn to_serde(j: &Json) -> Value {
    match j {
        Json::Null => Value::Null,
        Json::Bool(b) => Value::Bool(*b),
        Json::UInt(n) => Value::from(*n),
        Json::NegInt(n) => Value::from(*n),
        Json::Float(t) => t.parse::<serde_json::Number>().map(Value::Number).unwrap_or(Value::Null),
        Json::Str(t) => Value::String(t.clone()),
        Json::Arr(items) => Value::Array(items.iter().map(to_serde).collect()),
        Json::Obj(fields) => Value::Object(fields.iter().map(|(k, v)| (k.clone(), to_serde(v))).collect()),
    }
}

/// Renders a value with serde_json's `Value::to_string`.  The contract claims
/// only that the text is a function of the value's model (named
/// [`json_text`]); serde_json's writing rules (sorted keys, escapes, number
/// forms) are left unstated.
#[verifier::external_body]
fn render(j: &Json) -> (r: String)
    ensures
        r@ == json_text(j@),
{
    to_serde(j).to_string()
}

/// The compact JSON text of a value.
pub fn to_text(j: &Json) -> (r: String)
    ensures
        r@ == json_text(j@),
{
    render(j)
}

} // verus!
