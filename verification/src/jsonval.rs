//! Trusted extraction of the relay response's JSON members, through
//! `serde_json`.
//!
//! Each member's value is a function of the body bytes alone, so it is given
//! a name (an uninterpreted spec function over the bytes) that the wrapper's
//! contract applies.  The verified decoder in [`crate::relay`] then states
//! exactly, in terms of these names, which bodies it accepts and what it
//! returns for them.

use vstd::prelude::*;

verus! {

/// The "status" member of the JSON document in `body`, as an unsigned
/// integer; `None` when the body is not a JSON object whose "status" member
/// is an integral number in `u64` range.
pub uninterp spec fn spec_status_field(body: Seq<u8>) -> Option<u64>;

/// The "transaction_hash" member of the JSON document in `body`:
/// `Some(Some(s))` when it is the string `s`, `Some(None)` when it is
/// absent or `null` (or the body is not a JSON object), and `None` when it
/// is present with some other type.
pub uninterp spec fn spec_tx_hash_field(body: Seq<u8>) -> Option<Option<Seq<char>>>;

/// The "message" member of the JSON document in `body`, read the same way
/// as the "transaction_hash" member.
pub uninterp spec fn spec_message_field(body: Seq<u8>) -> Option<Option<Seq<char>>>;

/// Relies on `serde_json::from_slice::<Value>`, `Value::get` and
/// `Value::as_u64`: reads the "status" member of the document in `body`.
/// The result depends on the bytes alone; parse errors become `None`.
#[verifier::external_body]
pub(crate) fn status_field(body: &Vec<u8>) -> (r: Option<u64>)
    ensures
        r == spec_status_field(body@),
{
    match serde_json::from_slice::<serde_json::Value>(body.as_slice()) {
        Ok(v) => match v.get("status") {
            Some(s) => s.as_u64(),
            None => None,
        },
        Err(_) => None,
    }
}

/// Relies on `serde_json::from_slice::<Value>`, `Value::get`,
/// `Value::is_null` and `Value::as_str`: reads the "transaction_hash"
/// member of the document in `body`.  The result depends on the bytes
/// alone; a missing or `null` member (or an unparsable body) reads as "not
/// supplied", a non-string member as malformed.
#[verifier::external_body]
pub(crate) fn tx_hash_field(body: &Vec<u8>) -> (r: Option<Option<String>>)
    ensures
        r.deep_view() == spec_tx_hash_field(body@),
{
    match serde_json::from_slice::<serde_json::Value>(body.as_slice()) {
        Ok(v) => match v.get("transaction_hash") {
            Some(h) if h.is_null() => Some(None),
            Some(h) => match h.as_str() {
                Some(s) => Some(Some(s.to_string())),
                None => None,
            },
            None => Some(None),
        },
        Err(_) => Some(None),
    }
}

/// Relies on `serde_json::from_slice::<Value>`, `Value::get`,
/// `Value::is_null` and `Value::as_str`: reads the "message" member of the
/// document in `body`, exactly as [`tx_hash_field`] reads the
/// "transaction_hash" member.
#[verifier::external_body]
pub(crate) fn message_field(body: &Vec<u8>) -> (r: Option<Option<String>>)
    ensures
        r.deep_view() == spec_message_field(body@),
{
    match serde_json::from_slice::<serde_json::Value>(body.as_slice()) {
        Ok(v) => match v.get("message") {
            Some(m) if m.is_null() => Some(None),
            Some(m) => match m.as_str() {
                Some(s) => Some(Some(s.to_string())),
                None => None,
            },
            None => Some(None),
        },
        Err(_) => Some(None),
    }
}

} // verus!
