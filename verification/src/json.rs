//! JSON values of `serde_json`, and the model that contracts speak of.
//!
//! A `serde_json::Value` stays the value that `serde_json` made. What it holds
//! is given by [`value_model`], and each operation on it that this library uses
//! is declared here with what it does to the model.

use vstd::prelude::*;

verus! {

/// A JSON number as `serde_json` tells numbers apart.
pub enum NumberModel {
    /// An integer that is not negative.
    Unsigned(u64),
    /// A negative integer.
    Negative(i64),
    /// Any other finite number, by the bits of its double.
    Float(u64),
}

/// A JSON value.
pub enum JsonModel {
    Null,
    Bool(bool),
    Number(NumberModel),
    Text(Seq<char>),
    List(Seq<JsonModel>),
    Record(Map<Seq<char>, JsonModel>),
}

/// No entries.
pub open spec fn no_entries() -> Map<Seq<char>, JsonModel> {
    Map::empty()
}

/// The entries of a record; none for any other value.
pub open spec fn entries(value: JsonModel) -> Map<Seq<char>, JsonModel> {
    match value {
        JsonModel::Record(map) => map,
        _ => no_entries(),
    }
}

/// The entry of a record under `key`.
pub open spec fn member(value: JsonModel, key: Seq<char>) -> Option<JsonModel> {
    if entries(value).contains_key(key) {
        Some(entries(value)[key])
    } else {
        None
    }
}

/// The text that an optional value is, if it is one.
pub open spec fn text_of(value: Option<JsonModel>) -> Option<Seq<char>> {
    match value {
        Some(JsonModel::Text(text)) => Some(text),
        _ => None,
    }
}

/// The integer that an optional value is, if it is one and not negative.
pub open spec fn unsigned_of(value: Option<JsonModel>) -> Option<u64> {
    match value {
        Some(JsonModel::Number(NumberModel::Unsigned(n))) => Some(n),
        _ => None,
    }
}

/// The value that is reached from `value` by entering the named records in turn.
pub open spec fn walk(value: JsonModel, path: Seq<Seq<char>>) -> Option<JsonModel>
    decreases path.len(),
{
    if path.len() == 0 {
        Some(value)
    } else {
        match member(value, path[0]) {
            Some(next) => walk(next, path.drop_first()),
            None => None,
        }
    }
}

/// A JSON Pointer that names the entries of `path` in turn.
pub open spec fn pointer_text(path: Seq<Seq<char>>) -> Seq<char>
    decreases path.len(),
{
    if path.len() == 0 {
        seq![]
    } else {
        seq!['/'] + path[0] + pointer_text(path.drop_first())
    }
}

/// A name that a JSON Pointer spells as it is and that is no array index.
pub open spec fn plain_name(name: Seq<char>) -> bool {
    &&& name.len() > 0
    &&& !('0' <= name[0] <= '9')
    &&& !name.contains('/')
    &&& !name.contains('~')
}

/// What the value behind an optional reference is.
pub open spec fn optional_model(value: Option<&serde_json::Value>) -> Option<JsonModel> {
    match value {
        Some(value) => Some(value_model(*value)),
        None => None,
    }
}

/// `serde_json::Value`, whose contents are [`value_model`].
#[verifier::external_type_specification]
#[verifier::external_body]
pub struct ExValue(serde_json::Value);

/// `serde_json::Map`, whose contents are [`map_model`].
#[verifier::external_type_specification]
#[verifier::external_body]
#[verifier::reject_recursive_types(K)]
#[verifier::reject_recursive_types(V)]
pub struct ExMap<K, V>(serde_json::Map<K, V>);

/// `serde_json::Error`.
#[verifier::external_type_specification]
#[verifier::external_body]
pub struct ExError(serde_json::Error);

/// What a `serde_json::Value` holds.
pub uninterp spec fn value_model(value: serde_json::Value) -> JsonModel;

/// What a `serde_json::Map` holds.
pub uninterp spec fn map_model(
    map: serde_json::Map<String, serde_json::Value>,
) -> Map<Seq<char>, JsonModel>;

/// What `serde_json::from_str` reads from a text; nothing where it reports an error.
pub uninterp spec fn parsed_json(text: Seq<char>) -> Option<JsonModel>;

/// What `serde_json::to_string` writes for a value.
pub uninterp spec fn json_text(value: JsonModel) -> Seq<char>;

/// `serde_json::Value::as_str`: the text of a string, and nothing for any other value.
pub assume_specification[ serde_json::Value::as_str ](value: &serde_json::Value) -> (r: Option<
    &str,
>)
    ensures
        match r {
            Some(text) => value_model(*value) == JsonModel::Text(text@),
            None => !(value_model(*value) is Text),
        },
;

/// `serde_json::Value::as_u64`: the number, if it is an integer and not negative,
/// and nothing for any other value.
pub assume_specification[ serde_json::Value::as_u64 ](value: &serde_json::Value) -> (r: Option<
    u64,
>)
    ensures
        r == unsigned_of(Some(value_model(*value))),
;

/// `serde_json::Value::as_object`: the map of an object, and nothing for any other value.
pub assume_specification[ serde_json::Value::as_object ](value: &serde_json::Value) -> (r: Option<
    &serde_json::Map<String, serde_json::Value>,
>)
    ensures
        match r {
            Some(map) => value_model(*value) == JsonModel::Record(map_model(*map)),
            None => !(value_model(*value) is Record),
        },
;

/// `serde_json::Value::pointer`, for a pointer made of plain names: the value that
/// is reached by entering the named objects in turn. Nothing is said of a pointer
/// with escapes or array indices.
pub assume_specification<'a>[ serde_json::Value::pointer ](
    value: &'a serde_json::Value,
    pointer: &str,
) -> (r: Option<&'a serde_json::Value>)
    ensures
        forall|path: Seq<Seq<char>>|
            pointer@ == #[trigger] pointer_text(path) && (forall|i: int|
                0 <= i < path.len() ==> plain_name(#[trigger] path[i])) ==> optional_model(r) == walk(
                value_model(*value),
                path,
            ),
;

/// `Clone` of `serde_json::Value`: the clone holds the same.
pub assume_specification[ <serde_json::Value as Clone>::clone ](value: &serde_json::Value) -> (r:
    serde_json::Value)
    ensures
        value_model(r) == value_model(*value),
;

/// `serde_json::Map::new`: an empty map.
pub assume_specification[ serde_json::Map::<String, serde_json::Value>::new ]() -> (r:
    serde_json::Map<String, serde_json::Value>)
    ensures
        map_model(r) == no_entries(),
;

/// `Clone` of `serde_json::Map`: the clone holds the same.
pub assume_specification[ <serde_json::Map<String, serde_json::Value> as Clone>::clone ](
    map: &serde_json::Map<String, serde_json::Value>,
) -> (r: serde_json::Map<String, serde_json::Value>)
    ensures
        map_model(r) == map_model(*map),
;

/// `serde_json::Map::insert`: the entry under `k` becomes `v`, and the entry that
/// was there before, if any, is handed back.
pub assume_specification[ serde_json::Map::<String, serde_json::Value>::insert ](
    map: &mut serde_json::Map<String, serde_json::Value>,
    k: String,
    v: serde_json::Value,
) -> (r: Option<serde_json::Value>)
    ensures
        map_model(*final(map)) == map_model(*old(map)).insert(k@, value_model(v)),
        match r {
            Some(before) => map_model(*old(map)).contains_key(k@) && map_model(*old(map))[k@]
                == value_model(before),
            None => !map_model(*old(map)).contains_key(k@),
        },
;

/// `serde_json::Value::get` with a text: the entry of an object under `key`, and
/// nothing where there is none or the value is no object.
#[verifier::external_body]
pub(crate) fn get<'a>(value: &'a serde_json::Value, key: &str) -> (r: Option<&'a serde_json::Value>)
    ensures
        optional_model(r) == member(value_model(*value), key@),
{
    value.get(key)
}

/// `serde_json::Value::String`: a string that holds `text`.
#[verifier::external_body]
pub(crate) fn text_value(text: String) -> (r: serde_json::Value)
    ensures
        value_model(r) == JsonModel::Text(text@),
{
    serde_json::Value::String(text)
}

/// `serde_json::Value::Bool`: the boolean `b`.
#[verifier::external_body]
pub(crate) fn bool_value(b: bool) -> (r: serde_json::Value)
    ensures
        value_model(r) == JsonModel::Bool(b),
{
    serde_json::Value::Bool(b)
}

/// `serde_json::Value::Object`: an object that holds the entries of `map`.
#[verifier::external_body]
pub(crate) fn record_value(map: serde_json::Map<String, serde_json::Value>) -> (r:
    serde_json::Value)
    ensures
        value_model(r) == JsonModel::Record(map_model(map)),
{
    serde_json::Value::Object(map)
}

/// `serde_json::from_str` into a `serde_json::Value`: what it reads is
/// [`parsed_json`] of the text, and it reports an error where that is nothing.
#[verifier::external_body]
pub(crate) fn parse(text: &str) -> (r: Result<serde_json::Value, serde_json::Error>)
    ensures
        parsed_json(text@) == match r {
            Ok(value) => Some(value_model(value)),
            Err(_) => None::<JsonModel>,
        },
{
    serde_json::from_str(text)
}

/// How deep lists and records may be nested in a text that `serde_json::from_str` reads.
pub open spec fn nesting_limit() -> nat {
    127
}

/// A value without floating-point numbers, in which lists and records are nested at
/// most `levels` deep.
pub open spec fn is_exact(value: JsonModel, levels: nat) -> bool
    decreases levels,
{
    match value {
        JsonModel::Number(number) => !(number is Float),
        JsonModel::List(items) => levels > 0 && forall|i: int|
            0 <= i < items.len() ==> is_exact(#[trigger] items[i], (levels - 1) as nat),
        JsonModel::Record(map) => levels > 0 && forall|key: Seq<char>|
            map.contains_key(key) ==> is_exact(#[trigger] map[key], (levels - 1) as nat),
        _ => true,
    }
}

/// Whether a value is read back from its JSON text as it was written.
pub open spec fn reads_back(value: JsonModel) -> bool {
    parsed_json(json_text(value)) == Some(value)
}

/// `serde_json::to_string` of a `serde_json::Value`: it writes [`json_text`] of the
/// value. It has no error to report, since every key of a `serde_json::Value` is a
/// string. Where the value holds no floating-point number and is not nested deeper than
/// `serde_json::from_str` reads, that function reads back from what was written the
/// value that was written. Nothing is said of how floating-point numbers read back.
#[verifier::external_body]
pub(crate) fn to_text(value: &serde_json::Value) -> (r: Result<String, serde_json::Error>)
    ensures
        r is Ok,
        r->Ok_0@ == json_text(value_model(*value)),
        is_exact(value_model(*value), nesting_limit()) ==> parsed_json(r->Ok_0@) == Some(
            value_model(*value),
        ),
{
    serde_json::to_string(value)
}

/// The entries of an object, or no entries where `value` is no object.
pub fn object_entries(value: &serde_json::Value) -> (r: serde_json::Map<String, serde_json::Value>)
    ensures
        map_model(r) == entries(value_model(*value)),
{
    match value.as_object() {
        Some(map) => map.clone(),
        None => serde_json::Map::new(),
    }
}

/// The text of the entry under `key`, where `value` is an object and that entry a string.
pub fn text_member(value: &serde_json::Value, key: &str) -> (r: Option<String>)
    ensures
        crate::text::optional_text(r) == text_of(member(value_model(*value), key@)),
{
    match get(value, key) {
        Some(found) => match found.as_str() {
            Some(text) => Some(text.to_owned()),
            None => None,
        },
        None => None,
    }
}

} // verus!
