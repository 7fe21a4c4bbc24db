//! A JSON document tree and its mathematical model.
//!
//! Provider requests and completions are JSON. The executable type
//! [`JsonValue`] keeps numbers as their decimal text so that a document can be
//! carried through unchanged; its view is the spec-level tree [`JsonVal`].

use vstd::prelude::*;

verus! {

/// Mathematical model of a JSON document.
#[verifier::ext_equal]
pub enum JsonVal {
    Null,
    Bool(bool),
    Num(Seq<char>),
    Str(Seq<char>),
    Arr(Seq<JsonVal>),
    Obj(Seq<(Seq<char>, JsonVal)>),
}

/// A JSON document, with numbers kept as their decimal text.
#[derive(Debug, PartialEq)]
pub enum JsonValue {
    Null,
    Bool(bool),
    Num(String),
    Str(String),
    Arr(Vec<JsonValue>),
    Obj(Vec<(String, JsonValue)>),
}

pub open spec fn json_view(v: JsonValue) -> JsonVal
    decreases v,
{
    match v {
        JsonValue::Null => JsonVal::Null,
        JsonValue::Bool(b) => JsonVal::Bool(b),
        JsonValue::Num(n) => JsonVal::Num(n@),
        JsonValue::Str(s) => JsonVal::Str(s@),
        JsonValue::Arr(items) => JsonVal::Arr(json_view_arr(items@)),
        JsonValue::Obj(fields) => JsonVal::Obj(json_view_obj(fields@)),
    }
}

pub open spec fn json_view_arr(items: Seq<JsonValue>) -> Seq<JsonVal>
    decreases items,
{
    if items.len() == 0 {
        Seq::empty()
    } else {
        seq![json_view(items[0])] + json_view_arr(items.drop_first())
    }
}

pub open spec fn json_view_obj(fields: Seq<(String, JsonValue)>) -> Seq<(Seq<char>, JsonVal)>
    decreases fields,
{
    if fields.len() == 0 {
        Seq::empty()
    } else {
        seq![(fields[0].0@, json_view(fields[0].1))] + json_view_obj(fields.drop_first())
    }
}

impl View for JsonValue {
    type V = JsonVal;

    open spec fn view(&self) -> JsonVal {
        json_view(*self)
    }
}

/// The value of the first field named `key`, if any.
pub open spec fn lookup_fields(fields: Seq<(Seq<char>, JsonVal)>, key: Seq<char>) -> Option<
    JsonVal,
>
    decreases fields.len(),
{
    if fields.len() == 0 {
        None
    } else if fields[0].0 == key {
        Some(fields[0].1)
    } else {
        lookup_fields(fields.drop_first(), key)
    }
}

/// Field lookup: `Some` only on an object that has the field.
pub open spec fn obj_get(v: JsonVal, key: Seq<char>) -> Option<JsonVal> {
    match v {
        JsonVal::Obj(fields) => lookup_fields(fields, key),
        _ => None,
    }
}

/// Element lookup: `Some` only on an array long enough.
pub open spec fn arr_get(v: JsonVal, i: int) -> Option<JsonVal> {
    match v {
        JsonVal::Arr(items) => if 0 <= i < items.len() {
            Some(items[i])
        } else {
            None
        },
        _ => None,
    }
}

/// The text of a string value, `None` for every other kind of value.
pub open spec fn str_of(v: Option<JsonVal>) -> Option<Seq<char>> {
    match v {
        Some(JsonVal::Str(s)) => Some(s),
        _ => None,
    }
}

impl JsonValue {
    /// The value of the first field named `key`, where this value is an
    /// object that has such a field.
    pub fn get<'a>(&'a self, key: &str) -> (r: Option<&'a JsonValue>)
        ensures
            match r {
                Some(f) => obj_get(self@, key@) == Some(f@),
                None => obj_get(self@, key@) is None,
            },
    {
        match self {
            JsonValue::Obj(fields) => {
                proof {
                    lemma_json_view_obj(fields@);
                }
                let ghost vfields = json_view_obj(fields@);
                let n = fields.len();
                proof {
                    assert(vfields.subrange(0, n as int) =~= vfields);
                }
                let mut i: usize = 0;
                while i < n
                    invariant
                        i <= n,
                        n == fields@.len(),
                        vfields == json_view_obj(fields@),
                        vfields.len() == n,
                        forall|k: int|
                            0 <= k < n ==> vfields[k] == (fields@[k].0@, json_view(fields@[k].1)),
                        self@ == JsonVal::Obj(vfields),
                        lookup_fields(vfields.subrange(i as int, n as int), key@)
                            == lookup_fields(vfields, key@),
                    decreases n - i,
                {
                    if crate::text::str_eq(fields[i].0.as_str(), key) {
                        proof {
                            assert(vfields.subrange(i as int, n as int)[0] == vfields[i as int]);
                        }
                        return Some(&fields[i].1);
                    }
                    proof {
                        assert(vfields.subrange(i as int, n as int).drop_first() =~= vfields
                            .subrange(i + 1, n as int));
                    }
                    i = i + 1;
                }
                proof {
                    assert(vfields.subrange(n as int, n as int) =~= Seq::<
                        (Seq<char>, JsonVal),
                    >::empty());
                }
                None
            },
            _ => None,
        }
    }

    /// The `i`th element, where this value is an array of more than `i`
    /// elements.
    pub fn at<'a>(&'a self, i: usize) -> (r: Option<&'a JsonValue>)
        ensures
            match r {
                Some(e) => arr_get(self@, i as int) == Some(e@),
                None => arr_get(self@, i as int) is None,
            },
    {
        match self {
            JsonValue::Arr(items) => {
                proof {
                    lemma_json_view_arr(items@);
                }
                if i < items.len() {
                    Some(&items[i])
                } else {
                    None
                }
            },
            _ => None,
        }
    }

    /// The text of this value, where it is a string.
    pub fn as_str<'a>(&'a self) -> (r: Option<&'a str>)
        ensures
            match r {
                Some(s) => self@ is Str && self@->Str_0 == s@,
                None => !(self@ is Str),
            },
    {
        match self {
            JsonValue::Str(s) => Some(s.as_str()),
            _ => None,
        }
    }
}

/// What `serde_json::from_str::<serde_json::Value>` yields on a given text:
/// `None` exactly where the text is not valid JSON, else the parsed document,
/// objects in the key order serde_json's map iterates, numbers as their
/// canonical decimal text.
pub uninterp spec fn json_parse(s: Seq<char>) -> Option<JsonVal>;

#[verifier::external_type_specification]
#[verifier::external_body]
pub struct ExValue(serde_json::Value);

/// Turns each `serde_json::Value` variant into the matching `JsonValue`
/// variant, field for field; relies on `serde_json::Number::to_string` for
/// the decimal text of a number.
#[verifier::external_body]
fn convert_value(v: serde_json::Value) -> JsonValue {
    match v {
        serde_json::Value::Null => JsonValue::Null,
        serde_json::Value::Bool(b) => JsonValue::Bool(b),
        serde_json::Value::Number(n) => JsonValue::Num(n.to_string()),
        serde_json::Value::String(s) => JsonValue::Str(s),
        serde_json::Value::Array(items) => JsonValue::Arr(
            items.into_iter().map(convert_value).collect(),
        ),
        serde_json::Value::Object(fields) => JsonValue::Obj(
            fields.into_iter().map(|(k, f)| (k, convert_value(f))).collect(),
        ),
    }
}

/// Relies on `serde_json::from_str::<serde_json::Value>`: parses the text as
/// one JSON document, failing exactly when the text is not valid JSON.
#[verifier::external_body]
pub(crate) fn parse_json(s: &str) -> (r: Option<JsonValue>)
    ensures
        match r {
            Some(v) => json_parse(s@) == Some(v@),
            None => json_parse(s@) is None,
        },
{
    match serde_json::from_str::<serde_json::Value>(s) {
        Ok(v) => Some(convert_value(v)),
        Err(_) => None,
    }
}

pub broadcast proof fn lemma_json_view_arr(items: Seq<JsonValue>)
    ensures
        (#[trigger] json_view_arr(items)).len() == items.len(),
        forall|i: int|
            0 <= i < items.len() ==> json_view_arr(items)[i] == json_view(items[i]),
    decreases items.len(),
{
    if items.len() > 0 {
        lemma_json_view_arr(items.drop_first());
    }
}

pub proof fn lemma_json_view_arr_push(items: Seq<JsonValue>, x: JsonValue)
    ensures
        json_view_arr(items.push(x)) == json_view_arr(items) + seq![json_view(x)],
    decreases items.len(),
{
    if items.len() == 0 {
        assert(items.push(x).drop_first() =~= Seq::<JsonValue>::empty());
        assert(items.push(x)[0] == x);
        assert(json_view_arr(items.push(x)) == seq![json_view(x)] + json_view_arr(
            items.push(x).drop_first(),
        ));
        assert(json_view_arr(items.push(x)) =~= json_view_arr(items) + seq![json_view(x)]);
    } else {
        lemma_json_view_arr_push(items.drop_first(), x);
        assert(items.push(x).drop_first() =~= items.drop_first().push(x));
        assert(items.push(x)[0] == items[0]);
        assert(json_view_arr(items.push(x)) == seq![json_view(items[0])] + json_view_arr(
            items.drop_first().push(x),
        ));
        assert(json_view_arr(items) == seq![json_view(items[0])] + json_view_arr(
            items.drop_first(),
        ));
        assert(json_view_arr(items.push(x)) =~= json_view_arr(items) + seq![json_view(x)]);
    }
}

pub broadcast proof fn lemma_json_view_obj(fields: Seq<(String, JsonValue)>)
    ensures
        (#[trigger] json_view_obj(fields)).len() == fields.len(),
        forall|i: int|
            0 <= i < fields.len() ==> json_view_obj(fields)[i] == (
                fields[i].0@,
                json_view(fields[i].1),
            ),
    decreases fields.len(),
{
    if fields.len() > 0 {
        lemma_json_view_obj(fields.drop_first());
    }
}

} // verus!
