//! The remote-operation client for the platform's REST API. Each concrete
//! operation is a small self-contained value: its method and path are pure
//! functions, and its classifier turns an HTTP status (and, for decoding
//! operations, the response bytes) into the operation's closed error set.
//! The HTTP transport itself is owned by the surrounding process.

use vstd::prelude::*;

pub mod flow;
pub mod stages;
pub mod user;

verus! {

/// The string field a JSON document holds under a top-level key: what
/// parsing the bytes and reading that field as a string yields, a function
/// of the bytes and the key alone. `None` where the bytes are not a JSON
/// object, the field is missing, or it is not a string.
pub uninterp spec fn json_field_str(bytes: Seq<u8>, key: Seq<char>) -> Option<Seq<char>>;

/// The unsigned-integer field a JSON document holds under a top-level key;
/// `None` where the bytes are not a JSON object, the field is missing, or
/// it is not a nonnegative integer.
pub uninterp spec fn json_field_u64(bytes: Seq<u8>, key: Seq<char>) -> Option<u64>;

/// Relies on serde_json::from_slice and Value::{get, as_str}: parses the
/// bytes and reads the named top-level field as a string. The outcome is a
/// function of the bytes and the key alone, here named `json_field_str`.
#[verifier::external_body]
pub(crate) fn json_str_field(bytes: &[u8], key: &str) -> (r: Option<String>)
    ensures
        (r is Some) == (json_field_str(bytes@, key@) is Some),
        r matches Some(s) ==> Some(s@) == json_field_str(bytes@, key@),
{
    serde_json::from_slice::<serde_json::Value>(bytes)
        .ok()
        .and_then(|v| v.get(key).and_then(|f| f.as_str()).map(|s| s.to_owned()))
}

/// Relies on serde_json::from_slice and Value::{get, as_u64}: parses the
/// bytes and reads the named top-level field as a nonnegative integer. The
/// outcome is a function of the bytes and the key alone, here named
/// `json_field_u64`.
#[verifier::external_body]
pub(crate) fn json_u64_field(bytes: &[u8], key: &str) -> (r: Option<u64>)
    ensures
        r == json_field_u64(bytes@, key@),
{
    serde_json::from_slice::<serde_json::Value>(bytes)
        .ok()
        .and_then(|v| v.get(key).and_then(|f| f.as_u64()))
}

} // verus!
