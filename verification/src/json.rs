//! A JSON value as plain data, with the text form left to `serde_json`.

use vstd::prelude::*;
use crate::assoc::{
    find_key, key_index, keyed, lemma_key_index, lemma_key_index_by_keys, lookup, put_entry,
    with_entry,
};

verus! {

/// `serde_json::Number`, carried as it is: nothing in this crate looks inside.
#[verifier::external_type_specification]
#[verifier::external_body]
pub struct ExNumber(serde_json::Number);

/// `serde_json::Value`, met only on the way into and out of `serde_json`.
#[verifier::external_type_specification]
#[verifier::external_body]
pub struct ExValue(serde_json::Value);

/// `serde_json::Error`, which says why a text is no JSON.
#[verifier::external_type_specification]
#[verifier::external_body]
pub struct ExError(serde_json::Error);

/// A JSON value.
///
/// An object is a list of fields in order. A key may stand in it more than
/// once; the last field with a key is the one that counts.
#[derive(Debug)]
pub enum Json {
    Null,
    Bool(bool),
    Number(serde_json::Number),
    Text(String),
    Array(Vec<Json>),
    Object(Vec<(String, Json)>),
}

/// The mathematical value of a [`Json`].
pub ghost enum JsonView {
    Null,
    Bool(bool),
    Number(serde_json::Number),
    Text(Seq<char>),
    Array(Seq<JsonView>),
    Object(Seq<(Seq<char>, JsonView)>),
}

/// The fields of an object, as the contracts see them.
pub type FieldsView = Seq<(Seq<char>, JsonView)>;

impl View for Json {
    type V = JsonView;

    open spec fn view(&self) -> JsonView
        decreases self,
    {
        match self {
            Json::Null => JsonView::Null,
            Json::Bool(b) => JsonView::Bool(*b),
            Json::Number(n) => JsonView::Number(*n),
            Json::Text(s) => JsonView::Text(s@),
            Json::Array(items) => JsonView::Array(items_view(*items)),
            Json::Object(fields) => JsonView::Object(fields_view(*fields)),
        }
    }
}

/// The view of a list of values: each value by its own view.
pub open spec fn items_view(items: Vec<Json>) -> Seq<JsonView>
    decreases items,
{
    Seq::new(
        items.len() as nat,
        |i: int|
            if 0 <= i < items.len() {
                items[i]@
            } else {
                JsonView::Null
            },
    )
}

/// `items_view` keeps the length and views each value at its place.
pub proof fn lemma_items_view(items: Vec<Json>)
    ensures
        items_view(items).len() == items.len(),
        forall|i: int| 0 <= i < items.len() ==> (#[trigger] items_view(items)[i]) == items[i]@,
{
}

/// The view of a list of fields: each key and each value by its own view.
pub open spec fn fields_view(fields: Vec<(String, Json)>) -> FieldsView
    decreases fields,
{
    Seq::new(
        fields.len() as nat,
        |i: int|
            if 0 <= i < fields.len() {
                (fields[i].0@, fields[i].1@)
            } else {
                (Seq::empty(), JsonView::Null)
            },
    )
}

/// `fields_view` keeps the length and views each field at its place.
pub proof fn lemma_fields_view(fields: Vec<(String, Json)>)
    ensures
        fields_view(fields).len() == fields.len(),
        forall|i: int|
            0 <= i < fields.len() ==> (#[trigger] fields_view(fields)[i]) == (
                fields[i].0@,
                fields[i].1@,
            ),
{
}

impl JsonView {
    /// The value under `key`, where this is an object that has the key.
    pub open spec fn get(self, key: Seq<char>) -> Option<JsonView> {
        match self {
            JsonView::Object(fields) => lookup(fields, key),
            _ => None,
        }
    }

    /// Whether this is an object with a field `key`.
    pub open spec fn has(self, key: Seq<char>) -> bool {
        self.get(key) is Some
    }

    /// The field `key` of a record with `count` fields, of which it is the
    /// one at place `place`: the value under the key where this is an object,
    /// and the item at that place where this is an array of `count` items.
    pub open spec fn field(self, key: Seq<char>, place: int, count: int) -> Option<JsonView> {
        match self {
            JsonView::Object(fields) => lookup(fields, key),
            JsonView::Array(items) => if items.len() == count && 0 <= place < count {
                Some(items[place])
            } else {
                None
            },
            _ => None,
        }
    }

    /// The text, where this is a JSON string.
    pub open spec fn text(self) -> Option<Seq<char>> {
        match self {
            JsonView::Text(s) => Some(s),
            _ => None,
        }
    }
}

/// What `serde_json::from_str` makes of a text: the value that it reads, or
/// nothing where it refuses the text.
pub uninterp spec fn json_parse(text: Seq<char>) -> Option<JsonView>;

/// The compact text that `serde_json` writes for a value.
pub uninterp spec fn json_text(value: JsonView) -> Seq<char>;

/// Turns a `serde_json::Value` into a [`Json`], variant by variant. Nothing
/// is claimed of the result.
#[verifier::external_body]
fn json_from_value(value: serde_json::Value) -> Json {
    match value {
        serde_json::Value::Null => Json::Null,
        serde_json::Value::Bool(b) => Json::Bool(b),
        serde_json::Value::Number(n) => Json::Number(n),
        serde_json::Value::String(s) => Json::Text(s),
        serde_json::Value::Array(items) => Json::Array(
            items.into_iter().map(json_from_value).collect(),
        ),
        serde_json::Value::Object(fields) => Json::Object(
            fields.into_iter().map(|(k, v)| (k, json_from_value(v))).collect(),
        ),
    }
}

/// Turns a [`Json`] into a `serde_json::Value`, variant by variant. The
/// fields of an object go into the map by `serde_json::Map::insert`, in
/// order, so the last one with a key stays. Nothing is claimed of the result.
#[verifier::external_body]
fn value_from_json(json: &Json) -> serde_json::Value {
    match json {
        Json::Null => serde_json::Value::Null,
        Json::Bool(b) => serde_json::Value::Bool(*b),
        Json::Number(n) => serde_json::Value::Number(n.clone()),
        Json::Text(s) => serde_json::Value::String(s.clone()),
        Json::Array(a) => serde_json::Value::Array(a.iter().map(value_from_json).collect()),
        Json::Object(fields) => {
            let mut map = serde_json::Map::new();
            for field in fields {
                map.insert(field.0.clone(), value_from_json(&field.1));
            }
            serde_json::Value::Object(map)
        },
    }
}

/// Calls `serde_json::from_str` for a `serde_json::Value` and hands the value
/// on as a [`Json`]. The contract gives the outcome its name, `json_parse`: it
/// claims that the outcome depends on the text alone, and says no more of it.
#[verifier::external_body]
fn read_json(text: &str) -> (r: Result<Json, serde_json::Error>)
    ensures
        match r {
            Ok(json) => json_parse(text@) == Some(json@),
            Err(_) => json_parse(text@) is None,
        },
{
    match serde_json::from_str::<serde_json::Value>(text) {
        Ok(value) => Ok(json_from_value(value)),
        Err(e) => Err(e),
    }
}

/// Calls `to_string` on the `serde_json::Value` of a [`Json`], which writes
/// compact JSON. The contract gives that text its name, `json_text`: it claims
/// that the text depends on the value alone, and says no more of it.
#[verifier::external_body]
fn write_json(json: &Json) -> (r: String)
    ensures
        r@ == json_text(json@),
{
    value_from_json(json).to_string()
}

/// `serde_json::Number::clone`: the copy is the same number.
pub assume_specification[ <serde_json::Number as Clone>::clone ](n: &serde_json::Number) -> (r:
    serde_json::Number)
    ensures
        r == *n,
;

/// The reason why a text could not be read as JSON.
#[derive(Debug, Clone, Copy, PartialEq, Eq)]
pub enum JsonError {
    /// The text is not a JSON document.
    Syntax,
}

impl Clone for Json {
    #[verifier::loop_isolation(false)]
    fn clone(&self) -> (r: Json)
        ensures
            r@ == self@,
        decreases self,
    {
        match self {
            Json::Null => Json::Null,
            Json::Bool(b) => Json::Bool(*b),
            Json::Number(n) => Json::Number(n.clone()),
            Json::Text(s) => Json::Text(s.clone()),
            Json::Array(items) => {
                let mut out: Vec<Json> = Vec::new();
                let mut i: usize = 0;
                while i < items.len()
                    invariant
                        i <= items.len(),
                        out.len() == i,
                        forall|k: int| 0 <= k < i ==> out[k]@ == items[k]@,
                    decreases items.len() - i,
                {
                    out.push(items[i].clone());
                    i += 1;
                }
                assert(items_view(out) =~= items_view(*items));
                Json::Array(out)
            },
            Json::Object(fields) => {
                let mut out: Vec<(String, Json)> = Vec::new();
                let mut i: usize = 0;
                while i < fields.len()
                    invariant
                        i <= fields.len(),
                        out.len() == i,
                        forall|k: int|
                            0 <= k < i ==> out[k].0@ == fields[k].0@ && out[k].1@ == fields[k].1@,
                    decreases fields.len() - i,
                {
                    out.push((fields[i].0.clone(), fields[i].1.clone()));
                    i += 1;
                }
                assert(fields_view(out) =~= fields_view(*fields));
                Json::Object(out)
            },
        }
    }
}

impl Json {
    /// Reads a JSON text with `serde_json`.
    pub fn parse(text: &str) -> (r: Result<Json, JsonError>)
        ensures
            match r {
                Ok(json) => json_parse(text@) == Some(json@),
                Err(e) => json_parse(text@) is None && e == JsonError::Syntax,
            },
    {
        match read_json(text) {
            Ok(json) => Ok(json),
            Err(_) => Err(JsonError::Syntax),
        }
    }

    /// The compact JSON text of this value, as `serde_json` writes it.
    pub fn to_text(&self) -> (r: String)
        ensures
            r@ == json_text(self@),
    {
        write_json(self)
    }

    /// Whether this is an object.
    pub fn is_object(&self) -> (r: bool)
        ensures
            r == (self@ is Object),
    {
        match self {
            Json::Object(_) => true,
            _ => false,
        }
    }

    /// The text of a JSON string; nothing for any other value.
    pub fn as_text(&self) -> (r: Option<&String>)
        ensures
            match r {
                Some(s) => self@.text() == Some(s@),
                None => self@.text() is None,
            },
    {
        match self {
            Json::Text(s) => Some(s),
            _ => None,
        }
    }

    /// The value under `key`, where this is an object that has the key.
    pub fn get(&self, key: &str) -> (r: Option<&Json>)
        ensures
            match r {
                Some(json) => self@.get(key@) == Some(json@),
                None => self@.get(key@) is None,
            },
    {
        match self {
            Json::Object(fields) => {
                proof {
                    lemma_fields_index(*fields, key@);
                }
                match find_key(fields, key) {
                    Some(i) => Some(&fields[i].1),
                    None => None,
                }
            },
            _ => None,
        }
    }

    /// The field `key` of a record with `count` fields, of which it is the
    /// one at place `place`: read by its key from an object, and by its place
    /// from an array of `count` items.
    pub fn field(&self, key: &str, place: usize, count: usize) -> (r: Option<&Json>)
        ensures
            match r {
                Some(json) => self@.field(key@, place as int, count as int) == Some(json@),
                None => self@.field(key@, place as int, count as int) is None,
            },
    {
        match self {
            Json::Array(items) => {
                proof {
                    lemma_items_view(*items);
                }
                if items.len() == count && place < count {
                    Some(&items[place])
                } else {
                    None
                }
            },
            _ => self.get(key),
        }
    }

    /// Whether this is an object with a field `key`.
    pub fn has(&self, key: &str) -> (r: bool)
        ensures
            r == self@.has(key@),
    {
        self.get(key).is_some()
    }
}

/// A list of fields, seen by its keys alone and seen whole, finds every key
/// at the same place.
pub proof fn lemma_fields_index(fields: Vec<(String, Json)>, key: Seq<char>)
    ensures
        key_index(fields_view(fields), key) == key_index(keyed(fields), key),
{
    lemma_key_index_by_keys(fields_view(fields), keyed(fields), key);
}

/// Puts `value` under `key`: in place of the value that the key had, or as
/// a new last field.
pub fn set_field(fields: &mut Vec<(String, Json)>, key: &str, value: Json)
    ensures
        fields_view(*final(fields)) == with_entry(fields_view(*old(fields)), key@, value@),
{
    proof {
        lemma_fields_index(*fields, key@);
    }
    put_entry(fields, key, value);
    proof {
        let before = fields_view(*old(fields));
        let after = with_entry(before, key@, value@);
        let raw_before = keyed(*old(fields));
        let raw_after = keyed(*fields);
        lemma_key_index(before, key@);
        lemma_key_index(raw_before, key@);
        assert(raw_after == with_entry(raw_before, key@, value));
        assert(raw_after.len() == after.len());
        assert forall|j: int| 0 <= j < after.len() implies fields_view(*fields)[j] == after[j] by {
            assert(fields_view(*fields)[j] == (raw_after[j].0, raw_after[j].1@));
            if j < before.len() {
                assert(before[j] == (raw_before[j].0, raw_before[j].1@));
            }
        }
        assert(fields_view(*fields) =~= after);
    }
}

} // verus!
