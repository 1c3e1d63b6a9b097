use vstd::prelude::*;

verus! {

/// A JSON document as far as this library reads it: strings, arrays and
/// objects, whose entries are listed in the order in which the object
/// hands them out. Null, booleans and numbers are all `Other`.
pub enum JsonTree {
    Str(Seq<char>),
    Array(Seq<JsonTree>),
    Object(Seq<(Seq<char>, JsonTree)>),
    Other,
}

#[verifier::external_type_specification]
#[verifier::external_body]
pub struct ExValue(serde_json::Value);

#[verifier::external_type_specification]
#[verifier::external_body]
#[verifier::reject_recursive_types(K)]
#[verifier::reject_recursive_types(V)]
pub struct ExMap<K, V>(serde_json::Map<K, V>);

/// The document that a `serde_json::Value` holds.
pub uninterp spec fn tree_of(v: serde_json::Value) -> JsonTree;

/// The entries of a `serde_json::Map`, in the order of its iterators.
pub uninterp spec fn entries_of(m: serde_json::Map<String, serde_json::Value>) -> Seq<(Seq<char>, JsonTree)>;

/// The document that a byte string decodes to if it is JSON, else the
/// description of why it is not.
pub uninterp spec fn json_decode(bytes: Seq<u8>) -> Result<JsonTree, Seq<char>>;

/// The value under `key`, when `t` is an object that has that key.
pub open spec fn field_of(t: JsonTree, key: Seq<char>) -> Option<JsonTree> {
    match t {
        JsonTree::Object(entries) => {
            if exists|i: int| 0 <= i < entries.len() && entries[i].0 == key {
                let i = choose|i: int| 0 <= i < entries.len() && entries[i].0 == key;
                Some(entries[i].1)
            } else {
                None
            }
        },
        _ => None,
    }
}

/// The item at `index`, when `t` is an array that long.
pub open spec fn item_of(t: JsonTree, index: int) -> Option<JsonTree> {
    match t {
        JsonTree::Array(items) => {
            if 0 <= index < items.len() {
                Some(items[index])
            } else {
                None
            }
        },
        _ => None,
    }
}

/// Relies on `serde_json::from_slice::<Value>`: a value exactly when the
/// bytes are a JSON document, and which one depends on the bytes alone.
/// A failure is handed back as the error's description, which also depends
/// on the bytes alone (what is wrong, at which line and column).
#[verifier::external_body]
pub(crate) fn decode(bytes: &[u8]) -> (r: Result<serde_json::Value, String>)
    ensures
        match r {
            Ok(v) => json_decode(bytes@) == Ok::<JsonTree, Seq<char>>(tree_of(v)),
            Err(d) => json_decode(bytes@) == Err::<JsonTree, Seq<char>>(d@),
        },
{
    match serde_json::from_slice(bytes) {
        Ok(v) => Ok(v),
        Err(e) => Err(e.to_string()),
    }
}

/// Relies on `serde_json::Value::get` with a string index: the value of an
/// object under that key, `None` when there is no such key or `v` is not
/// an object.
#[verifier::external_body]
pub(crate) fn field<'a>(v: &'a serde_json::Value, key: &str) -> (r: Option<&'a serde_json::Value>)
    ensures
        match r {
            Some(x) => field_of(tree_of(*v), key@) == Some(tree_of(*x)),
            None => field_of(tree_of(*v), key@) is None,
        },
{
    v.get(key)
}

/// Relies on `serde_json::Value::get` with a `usize` index: the item of an
/// array at that position, `None` when it is out of bounds or `v` is not an
/// array.
#[verifier::external_body]
pub(crate) fn item<'a>(v: &'a serde_json::Value, index: usize) -> (r: Option<&'a serde_json::Value>)
    ensures
        match r {
            Some(x) => item_of(tree_of(*v), index as int) == Some(tree_of(*x)),
            None => item_of(tree_of(*v), index as int) is None,
        },
{
    v.get(index)
}

/// Relies on `serde_json::Value::as_str`: the text of a string value,
/// `None` for any other value.
pub assume_specification[ serde_json::Value::as_str ](v: &serde_json::Value) -> (r: Option<&str>)
    ensures
        match r {
            Some(s) => tree_of(*v) == JsonTree::Str(s@),
            None => !(tree_of(*v) is Str),
        },
;

/// Relies on `serde_json::Value::as_object`: the map of an object value,
/// `None` for any other value.
pub assume_specification[ serde_json::Value::as_object ](v: &serde_json::Value) -> (r: Option<&serde_json::Map<String, serde_json::Value>>)
    ensures
        match r {
            Some(m) => tree_of(*v) == JsonTree::Object(entries_of(*m)),
            None => !(tree_of(*v) is Object),
        },
;

/// Relies on `serde_json::Map::values`: its iterator starts with the value
/// of the first entry, and is empty for an empty map.
#[verifier::external_body]
pub(crate) fn first_value<'a>(m: &'a serde_json::Map<String, serde_json::Value>) -> (r: Option<&'a serde_json::Value>)
    ensures
        match r {
            Some(x) => entries_of(*m).len() > 0 && tree_of(*x) == entries_of(*m)[0].1,
            None => entries_of(*m).len() == 0,
        },
{
    m.values().next()
}

} // verus!
