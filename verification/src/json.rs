use std::collections::BTreeMap;

use vstd::prelude::*;

use crate::string_map::StringMap;

verus! {

/// The bytes that `serde_json::to_vec` writes for a map from text to text
/// (a JSON object, its keys in ascending order).
pub uninterp spec fn json_of_text_map(m: Map<Seq<char>, Seq<char>>) -> Seq<u8>;

/// What `serde_json::from_slice` reads from `bytes` as a map from text to
/// text; `None` where it reports an error.
pub uninterp spec fn text_map_of_json(bytes: Seq<u8>) -> Option<Map<Seq<char>, Seq<char>>>;

/// The bytes that `serde_json::to_vec` writes for a map from text to byte
/// strings (a JSON object whose values are arrays of numbers).
pub uninterp spec fn json_of_bytes_map(m: Map<Seq<char>, Seq<u8>>) -> Seq<u8>;

/// Calls `serde_json::to_vec` on the map as a `BTreeMap<String, String>`.
/// Trusted: the result is the JSON text of the map, and reading it back with
/// `serde_json::from_slice` gives the same map. `to_vec` fails only for maps
/// with keys that are not strings or for values whose `Serialize` fails, so it
/// does not fail here.
#[verifier::external_body]
pub(crate) fn encode_text_map(m: &StringMap<String>) -> (bytes: Vec<u8>)
    ensures
        bytes@ == json_of_text_map(m@),
        text_map_of_json(bytes@) == Some(m@),
{
    let map: BTreeMap<String, String> = m.entries.iter().cloned().collect();
    serde_json::to_vec(&map).unwrap_or_default()
}

/// Calls `serde_json::from_slice` for a `BTreeMap<String, String>`.
/// Trusted: the result is what the name `text_map_of_json` stands for; the
/// pairs of the map read are handed over as they come.
#[verifier::external_body]
pub(crate) fn decode_text_map(bytes: &[u8]) -> (r: Option<StringMap<String>>)
    ensures
        r is Some <==> text_map_of_json(bytes@) is Some,
        r matches Some(m) ==> text_map_of_json(bytes@) == Some(m@),
{
    match serde_json::from_slice::<BTreeMap<String, String>>(bytes) {
        Ok(map) => Some(StringMap { entries: map.into_iter().collect() }),
        Err(_) => None,
    }
}

/// Calls `serde_json::to_vec` on the map as a `BTreeMap<String, Vec<u8>>`.
/// Trusted: the result is the JSON text of the map. It does not fail, for
/// the reason given for `encode_text_map`.
#[verifier::external_body]
pub(crate) fn encode_bytes_map(m: &StringMap<Vec<u8>>) -> (bytes: Vec<u8>)
    ensures
        bytes@ == json_of_bytes_map(m@),
{
    let map: BTreeMap<String, Vec<u8>> = m.entries.iter().cloned().collect();
    serde_json::to_vec(&map).unwrap_or_default()
}

} // verus!
