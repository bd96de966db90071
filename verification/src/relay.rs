//! The relay protocol: building the wire request that delegates a contract
//! write to the remote relay, and interpreting the relay's JSON response.
//!
//! The driver performs the HTTP POST itself and hands the raw outcome — the
//! HTTP status code and the body bytes — to [`evaluate_relay_reply`], which
//! settles the whole exchange into either a 32-byte transaction hash or one
//! of the protocol's errors.

use vstd::prelude::*;

use crate::hex::chars_of_ascii;
use crate::hex::hex_decode;
use crate::hex::hex_encode;
use crate::hex::spec_hex_bytes;
use crate::hex::spec_hex_decode_ok;
use crate::hex::spec_hex_encode;
use crate::jsonval::message_field;
use crate::jsonval::spec_message_field;
use crate::jsonval::spec_status_field;
use crate::jsonval::spec_tx_hash_field;
use crate::jsonval::status_field;
use crate::jsonval::tx_hash_field;
use crate::types::OracleError;
use crate::types::RelayRequest;
use crate::types::RelayResponse;
use crate::types::RelayStatus;
use crate::types::relay_status_from_code;
use crate::types::spec_relay_status_of;

verus! {

use vstd::string::StrSliceExecFns;
use vstd::string::StringExecFns;

/// The relay protocol's success code: the request was relayed and a
/// transaction hash accompanies the response.
pub const RELAY_STATUS_RELAYED: u32 = 1;

/// Builds the wire request asking the relay to call the contract at
/// `address` (20 bytes) with `calldata`, on chain `chain_id`.  The address
/// is rendered as "0x" followed by its hex digits, the calldata as bare hex
/// digits, and the request is not marked as a platform request.
pub fn build_relay_request(chain_id: u64, address: &Vec<u8>, calldata: &Vec<u8>) -> (r:
    RelayRequest)
    requires
        address@.len() == 20,
    ensures
        r.chain_id == chain_id,
        r.address@ == seq!['0', 'x'] + chars_of_ascii(spec_hex_encode(address@)),
        r.calldata@ == chars_of_ascii(spec_hex_encode(calldata@)),
        r.platform_request == false,
{
    let hex_address: String = hex_encode(address);
    let mut address_field: String = "0x".to_owned();
    proof {
        reveal_strlit("0x");
        assert(address_field@ =~= seq!['0', 'x']);
    }
    address_field.append(hex_address.as_str());
    RelayRequest {
        chain_id,
        address: address_field,
        calldata: hex_encode(calldata),
        platform_request: false,
    }
}

/// A transaction hash string's bytes: exactly 64 hex digits, optionally
/// preceded by "0x".
pub open spec fn spec_parse_tx_hash(s: Seq<char>) -> Option<Seq<u8>> {
    let digits = if s.len() >= 2 && s[0] == '0' && s[1] == 'x' {
        s.skip(2)
    } else {
        s
    };
    if spec_hex_decode_ok(digits) && digits.len() == 64 {
        Some(spec_hex_bytes(digits))
    } else {
        None
    }
}

/// Parses a transaction hash string into its 32 bytes; anything that is not
/// 64 hex digits (after an optional "0x" prefix) is a malformed response.
pub fn parse_tx_hash(hash: &str) -> (r: Result<Vec<u8>, OracleError>)
    ensures
        spec_parse_tx_hash(hash@) matches Some(b) ==> (r matches Ok(v) && v@ == b),
        spec_parse_tx_hash(hash@) is None ==> r == Err::<Vec<u8>, OracleError>(
            OracleError::DecodeError,
        ),
        r matches Ok(v) ==> v@.len() == 32,
{
    let n: usize = hash.unicode_len();
    let digits: &str = if n >= 2 && hash.get_char(0) == '0' && hash.get_char(1) == 'x' {
        let d: &str = hash.substring_char(2, n);
        proof {
            assert(d@ =~= hash@.skip(2));
        }
        d
    } else {
        hash
    };
    if digits.unicode_len() != 64 {
        return Err(OracleError::DecodeError);
    }
    match hex_decode(digits) {
        Some(v) => Ok(v),
        None => Err(OracleError::DecodeError),
    }
}

/// Copies an optional string.
fn clone_opt_string(o: &Option<String>) -> (r: Option<String>)
    ensures
        r == *o,
{
    match o {
        Some(s) => Some(s.clone()),
        None => None,
    }
}

/// What a parsed relay response settles to: the transaction hash bytes on a
/// relayed request, a decode error when the hash is missing or malformed,
/// and a rejection carrying the relay's status and message otherwise.
pub open spec fn spec_interpret_relay_response(resp: RelayResponse) -> Result<Seq<u8>, OracleError> {
    if resp.status == RELAY_STATUS_RELAYED {
        match resp.transaction_hash {
            Some(h) => match spec_parse_tx_hash(h@) {
                Some(bytes) => Ok(bytes),
                None => Err(OracleError::DecodeError),
            },
            None => Err(OracleError::DecodeError),
        }
    } else {
        Err(
            OracleError::RelayRejected {
                status: spec_relay_status_of(resp.status),
                message: resp.message,
            },
        )
    }
}

/// Settles a parsed relay response: only status 1 (`Relayed`) with a
/// well-formed transaction hash succeeds; any other status is an explicit
/// rejection carrying the relay's message.
pub fn interpret_relay_response(resp: &RelayResponse) -> (r: Result<Vec<u8>, OracleError>)
    ensures
        spec_interpret_relay_response(*resp) matches Ok(b) ==> (r matches Ok(v) && v@ == b),
        spec_interpret_relay_response(*resp) matches Err(e) ==> r == Err::<Vec<u8>, OracleError>(e),
        r matches Ok(v) ==> v@.len() == 32 && resp.status == RELAY_STATUS_RELAYED,
        r matches Err(e) ==> (e matches OracleError::RelayRejected { status, .. } ==> status
            != RelayStatus::Relayed),
{
    if resp.status == RELAY_STATUS_RELAYED {
        match &resp.transaction_hash {
            Some(h) => parse_tx_hash(h.as_str()),
            None => Err(OracleError::DecodeError),
        }
    } else {
        Err(
            OracleError::RelayRejected {
                status: relay_status_from_code(resp.status),
                message: clone_opt_string(&resp.message),
            },
        )
    }
}

/// The named members of `body` describe a well-formed relay response: an
/// integral "status" that fits the protocol's `u32` code, and
/// "transaction_hash" and "message" members that are each a string, `null`,
/// or absent.
pub open spec fn spec_relay_response_fields_ok(body: Seq<u8>) -> bool {
    &&& spec_status_field(body) matches Some(n) && n <= u32::MAX
    &&& spec_tx_hash_field(body) is Some
    &&& spec_message_field(body) is Some
}

/// Decodes the relay's JSON response body into the wire shape.  A body
/// whose members are well-formed decodes to exactly those members; any
/// other body — not JSON, no integral "status", a status beyond the `u32`
/// codes, or a non-string hash or message — is a malformed response.
pub fn parse_relay_response(body: &Vec<u8>) -> (r: Result<RelayResponse, OracleError>)
    ensures
        !spec_relay_response_fields_ok(body@) ==> r == Err::<RelayResponse, OracleError>(
            OracleError::DecodeError,
        ),
        spec_relay_response_fields_ok(body@) ==> (r matches Ok(resp) && {
            &&& spec_status_field(body@) == Some(resp.status as u64)
            &&& resp.transaction_hash.deep_view() == spec_tx_hash_field(body@).unwrap()
            &&& resp.message.deep_view() == spec_message_field(body@).unwrap()
        }),
{
    let status_wide: u64 = match status_field(body) {
        Some(n) => n,
        None => {
            return Err(OracleError::DecodeError);
        },
    };
    if status_wide > u32::MAX as u64 {
        return Err(OracleError::DecodeError);
    }
    let transaction_hash: Option<String> = match tx_hash_field(body) {
        Some(h) => h,
        None => {
            return Err(OracleError::DecodeError);
        },
    };
    let message: Option<String> = match message_field(body) {
        Some(m) => m,
        None => {
            return Err(OracleError::DecodeError);
        },
    };
    Ok(RelayResponse { transaction_hash, message, status: status_wide as u32 })
}

/// Relates the outcome of an accepted (HTTP 200) exchange to the body's
/// named members: relay status 1 must yield the parsed transaction hash (or
/// a decode error when the hash member is missing or malformed), and any
/// other status the relay's rejection, carrying its status and message.
pub open spec fn spec_relay_reply_settles(body: Seq<u8>, r: Result<Vec<u8>, OracleError>) -> bool
    recommends
        spec_relay_response_fields_ok(body),
{
    let status = spec_status_field(body).unwrap();
    if status == RELAY_STATUS_RELAYED {
        match spec_tx_hash_field(body).unwrap() {
            Some(h) => match spec_parse_tx_hash(h) {
                Some(bytes) => r matches Ok(v) && v@ == bytes,
                None => r == Err::<Vec<u8>, OracleError>(OracleError::DecodeError),
            },
            None => r == Err::<Vec<u8>, OracleError>(OracleError::DecodeError),
        }
    } else {
        &&& r matches Err(e)
        &&& (e matches OracleError::RelayRejected { status: s, message: m } && s
            == spec_relay_status_of(status as u32) && m.deep_view() == spec_message_field(
            body,
        ).unwrap())
    }
}

/// Evaluates one full relay exchange from its raw outcome — the HTTP status
/// code and the response body bytes.  Only HTTP 200 is accepted; a body
/// whose members are malformed (including one that is not JSON at all) is a
/// decode error, not swallowed; a well-formed body settles by
/// [`spec_relay_reply_settles`]: relay status 1 with a well-formed hash
/// yields the hash, anything else the relay's rejection.  Every failure is
/// an error value, never a panic, so the driver's loop survives any reply.
pub fn evaluate_relay_reply(http_status: u16, body: &Vec<u8>) -> (r: Result<Vec<u8>, OracleError>)
    ensures
        http_status != 200 ==> r == Err::<Vec<u8>, OracleError>(
            OracleError::TransportError { http_status },
        ),
        http_status == 200 && !spec_relay_response_fields_ok(body@) ==> r == Err::<
            Vec<u8>,
            OracleError,
        >(OracleError::DecodeError),
        http_status == 200 && spec_relay_response_fields_ok(body@) ==> spec_relay_reply_settles(
            body@,
            r,
        ),
        r matches Ok(v) ==> http_status == 200 && v@.len() == 32,
        r matches Err(e) ==> (e matches OracleError::RelayRejected { status, .. } ==> status
            != RelayStatus::Relayed),
{
    if http_status != 200 {
        return Err(OracleError::TransportError { http_status });
    }
    match parse_relay_response(body) {
        Ok(resp) => interpret_relay_response(&resp),
        Err(e) => Err(e),
    }
}

} // verus!
