//! Trusted declarations for the JSON values and objects of serde_json.
//!
//! The wire format of a problem is a flat JSON object. Which keys that
//! object holds is this library's verified logic; turning the object into
//! text and back, and encoding single values, is serde_json's work and is
//! taken on trust here. Each item's contract states only what the called
//! function's source shows.

use vstd::prelude::*;
use vstd::utf8::encode_utf8;

verus! {

#[verifier::external_type_specification]
#[verifier::external_body]
pub struct ExValue(serde_json::Value);

#[verifier::external_type_specification]
#[verifier::external_body]
#[verifier::reject_recursive_types(K)]
#[verifier::reject_recursive_types(V)]
pub struct ExJsonMap<K, V>(serde_json::Map<K, V>);

/// The model of a JSON object: its entries keyed by the characters of each
/// key.
pub type JsonEntries = Map<Seq<char>, serde_json::Value>;

/// The entries a JSON object holds, keyed by the characters of each key.
pub uninterp spec fn map_entries(m: serde_json::Map<String, serde_json::Value>) -> JsonEntries;

/// How deeply a value stored in a problem may nest: one container level
/// less than what fits under the one enclosing object of the wire format,
/// whose text serde_json parses within its recursion limit of 128 levels.
pub const MAX_VALUE_DEPTH: u32 = 126;

/// Whether a JSON value nests within `budget` container levels: a scalar
/// always does, an array or object only when the budget is positive and
/// every element does within one level less.
pub uninterp spec fn json_fits_depth(v: serde_json::Value, budget: u32) -> bool;

/// Every value of a JSON object nests within the stored-value allowance.
pub open spec fn entries_depth_ok(entries: JsonEntries) -> bool {
    forall|k: Seq<char>|
        #[trigger] entries.dom().contains(k) ==> json_fits_depth(entries[k], MAX_VALUE_DEPTH)
}

/// What serde_json::from_str for Map<String, Value> yields on a text: the
/// parsed object's entries, or nothing where parsing fails.
pub uninterp spec fn parsed_entries(s: Seq<char>) -> Option<JsonEntries>;

/// Decides `json_fits_depth` by walking the value: serde_json offers no
/// depth measure of its own, so the walk stands here, trusted, beside the
/// other readings of the opaque value.
#[verifier::external_body]
pub fn value_fits_depth(v: &serde_json::Value, budget: u32) -> (r: bool)
    ensures
        r == json_fits_depth(*v, budget),
{
    match v {
        serde_json::Value::Array(items) => budget > 0 && items.iter().all(
            |x| value_fits_depth(x, budget - 1),
        ),
        serde_json::Value::Object(map) => budget > 0 && map.values().all(
            |x| value_fits_depth(x, budget - 1),
        ),
        _ => true,
    }
}

/// The JSON number holding the unsigned value `n`.
pub uninterp spec fn num_value_of(n: u64) -> serde_json::Value;

/// The JSON string holding the characters `s`.
pub uninterp spec fn str_value_of(s: Seq<char>) -> serde_json::Value;

/// Whether a JSON value is the null value.
pub uninterp spec fn json_is_null(v: serde_json::Value) -> bool;

/// The unsigned numeric value of a JSON value, `None` for anything that is
/// not an unsigned integer number.
pub uninterp spec fn json_as_u64(v: serde_json::Value) -> Option<u64>;

/// The characters of a JSON string value, `None` for anything that is not a
/// string.
pub uninterp spec fn json_as_text(v: serde_json::Value) -> Option<Seq<char>>;

/// The canonical text serde_json writes for a JSON object with the given
/// entries.
pub uninterp spec fn object_text(entries: JsonEntries) -> Seq<char>;

/// Relies on serde_json::Value::from for u64: builds the JSON number with
/// exactly that value; as_u64 reads the value back, and the result is
/// neither null nor a string, and, being a scalar, nests within the
/// stored-value allowance.
#[verifier::external_body]
pub fn value_from_u64(n: u64) -> (r: serde_json::Value)
    ensures
        r == num_value_of(n),
        json_as_u64(r) == Some(n),
        json_as_text(r) == None::<Seq<char>>,
        !json_is_null(r),
        json_fits_depth(r, MAX_VALUE_DEPTH),
{
    serde_json::Value::from(n)
}

/// Relies on serde_json::Value::from for &str: builds the JSON string with
/// exactly those characters; as_str reads them back, and the result is
/// neither null nor a number, and, being a scalar, nests within the
/// stored-value allowance.
#[verifier::external_body]
pub fn value_from_str(s: &str) -> (r: serde_json::Value)
    ensures
        r == str_value_of(s@),
        json_as_text(r) == Some(s@),
        json_as_u64(r) == None::<u64>,
        !json_is_null(r),
        json_fits_depth(r, MAX_VALUE_DEPTH),
{
    serde_json::Value::from(s)
}

/// Relies on serde_json::Value::is_null: true exactly on the JSON null;
/// a JSON number or string is never null.
#[verifier::external_body]
pub fn value_is_null(v: &serde_json::Value) -> (r: bool)
    ensures
        r == json_is_null(*v),
        forall|n: u64| *v == num_value_of(n) ==> !r,
        forall|s: Seq<char>| *v == str_value_of(s) ==> !r,
{
    v.is_null()
}

/// Relies on serde_json::Value::as_u64: the numeric value of an unsigned
/// JSON number, `None` for every other value; on the JSON number built
/// from `n` it hands back exactly `n`.
#[verifier::external_body]
pub fn value_as_u64(v: &serde_json::Value) -> (r: Option<u64>)
    ensures
        r == json_as_u64(*v),
        forall|n: u64| *v == num_value_of(n) ==> r == Some(n),
{
    v.as_u64()
}

/// The value of a JSON number that fits in a signed 64-bit integer,
/// `None` for floats and for everything that is not a number.
pub uninterp spec fn json_as_i64(v: serde_json::Value) -> Option<i64>;

/// Relies on serde_json::Value::as_i64: the value of a JSON number that
/// fits in a signed 64-bit integer, `None` for floats and for everything
/// that is not a number.
#[verifier::external_body]
pub fn value_as_i64(v: &serde_json::Value) -> (r: Option<i64>)
    ensures
        r == json_as_i64(*v),
{
    v.as_i64()
}

/// Relies on serde_json::Value::as_str: the characters of a JSON string,
/// `None` for every other value; a string value is exactly the JSON string
/// built from its characters.
#[verifier::external_body]
pub fn value_as_text(v: &serde_json::Value) -> (r: Option<String>)
    ensures
        match r {
            Some(t) => json_as_text(*v) == Some(t@) && *v == str_value_of(t@),
            None => json_as_text(*v) == None::<Seq<char>>,
        },
        forall|s: Seq<char>| *v == str_value_of(s) ==> r is Some && r.unwrap()@ == s,
{
    match v.as_str() {
        Some(s) => Some(s.to_owned()),
        None => None,
    }
}

/// Relies on serde_json::Value's Clone: an equal JSON value.
#[verifier::external_body]
pub fn value_clone(v: &serde_json::Value) -> (r: serde_json::Value)
    ensures
        r == *v,
{
    v.clone()
}

/// Relies on serde_json::Map::new: the empty JSON object.
#[verifier::external_body]
pub fn map_new() -> (r: serde_json::Map<String, serde_json::Value>)
    ensures
        map_entries(r) == JsonEntries::empty(),
{
    serde_json::Map::new()
}

/// Relies on serde_json::Map::insert: binds `key` to `v`, replacing any
/// earlier binding of that key.
#[verifier::external_body]
pub fn map_insert(
    m: &mut serde_json::Map<String, serde_json::Value>,
    key: &str,
    v: serde_json::Value,
)
    ensures
        map_entries(*final(m)) == map_entries(*old(m)).insert(key@, v),
{
    m.insert(key.to_owned(), v);
}

/// Relies on serde_json::Map::remove: unbinds `key` and hands back the
/// value it was bound to, `None` when the key was unbound.
#[verifier::external_body]
pub fn map_remove(m: &mut serde_json::Map<String, serde_json::Value>, key: &str) -> (r: Option<
    serde_json::Value,
>)
    ensures
        map_entries(*final(m)) == map_entries(*old(m)).remove(key@),
        r == (if map_entries(*old(m)).dom().contains(key@) {
            Some(map_entries(*old(m))[key@])
        } else {
            None::<serde_json::Value>
        }),
{
    m.remove(key)
}

/// Relies on serde_json::Map::iter: hands out every entry as an owned pair.
/// The keys of a JSON object are pairwise distinct, and the pairs are
/// exactly the entries.
#[verifier::external_body]
pub fn map_entry_pairs(m: &serde_json::Map<String, serde_json::Value>) -> (r: Vec<
    (String, serde_json::Value),
>)
    ensures
        forall|i: int|
            0 <= i < r@.len() ==> map_entries(*m).dom().contains((#[trigger] r@[i]).0@)
                && map_entries(*m)[r@[i].0@] == r@[i].1,
        forall|i: int, j: int| 0 <= i < j < r@.len() ==> r@[i].0@ != r@[j].0@,
        forall|k: Seq<char>|
            #[trigger] map_entries(*m).dom().contains(k) ==> exists|i: int|
                0 <= i < r@.len() && r@[i].0@ == k,
{
    let mut out = Vec::new();
    for (k, v) in m.iter() {
        out.push((k.clone(), v.clone()));
    }
    out
}

/// Relies on serde_json::to_string: the canonical JSON text of an object.
/// The text depends on the entries alone, since the map hands its entries
/// out in a fixed key order. Serializing a map of plain JSON values cannot
/// fail, so the error arm is never taken.
#[verifier::external_body]
pub fn render_object(m: &serde_json::Map<String, serde_json::Value>) -> (r: String)
    ensures
        r@ == object_text(map_entries(*m)),
{
    match serde_json::to_string(m) {
        Ok(s) => s,
        Err(_) => String::new(),
    }
}

/// Relies on serde_json::to_vec: the UTF-8 encoding of exactly the text
/// to_string writes for the same object, which to_string itself obtains
/// from these bytes. Serializing a map of plain JSON values cannot fail,
/// so the error arm is never taken.
#[verifier::external_body]
pub fn render_object_bytes(m: &serde_json::Map<String, serde_json::Value>) -> (r: Vec<u8>)
    ensures
        r@ == encode_utf8(object_text(map_entries(*m))),
{
    match serde_json::to_vec(m) {
        Ok(b) => b,
        Err(_) => Vec::new(),
    }
}

/// Relies on serde_json::from_str for Map<String, Value>: parses a JSON
/// object from text; what comes back is a function of the text alone.
/// Text that serde_json wrote for an object whose values all nest within
/// the stored-value allowance parses back to exactly that object's
/// entries: the parser's recursion limit of 128 levels admits the one
/// enclosing object around such values, and the float_roundtrip feature,
/// which this crate enables, makes every float read back as exactly the
/// value it was written from. For the same reason as the limit, the
/// values of any object the parser accepts nest within the allowance.
#[verifier::external_body]
pub fn parse_object(s: &str) -> (r: Option<serde_json::Map<String, serde_json::Value>>)
    ensures
        (match parsed_entries(s@) {
            Some(em) => r is Some && map_entries(r.unwrap()) == em,
            None => r is None,
        }),
        forall|entries: JsonEntries|
            entries_depth_ok(entries) && s@ == #[trigger] object_text(entries) ==> r is Some
                && map_entries(r.unwrap()) == entries,
        r is Some ==> entries_depth_ok(map_entries(r.unwrap())),
{
    serde_json::from_str::<serde_json::Map<String, serde_json::Value>>(s).ok()
}

/// Relies on serde_json::to_value: encodes any serializable value as a JSON
/// value. What comes back depends on the value's own Serialize
/// implementation, so nothing is promised of it; a failure of that
/// implementation is handed back as its text.
#[verifier::external_body]
pub fn encode_value<T: serde::Serialize>(value: &T) -> Result<serde_json::Value, String> {
    serde_json::to_value(value).map_err(|e| e.to_string())
}

/// Relies on serde_json::from_value: decodes a JSON value into any
/// deserializable type, `None` when decoding fails. What comes back depends
/// on the target type's own Deserialize implementation, so nothing is
/// promised of it.
#[verifier::external_body]
pub fn decode_value<T: serde::de::DeserializeOwned>(v: &serde_json::Value) -> Option<T> {
    serde_json::from_value(v.clone()).ok()
}

} // verus!
