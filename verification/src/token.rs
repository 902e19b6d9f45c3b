//! Assembly and validation of signature tokens.
//!
//! A token is `<integrationId>.<timestampMs>.<hexDigest>`: the digest is the
//! lowercase hex of HMAC-SHA256 over the canonical JSON body directly
//! concatenated with the decimal timestamp, keyed by the shared secret.

use vstd::prelude::*;
use vstd::string::StrSliceExecFns;
use vstd::string::StringExecFns;
use vstd::string::StringSliceAdditionalSpecFns;
use vstd::utf8::encode_utf8;

use crate::SignatureError;
use crate::compare::constant_time_str_eq;
use crate::decimal::dec_value_of;
use crate::decimal::is_digits;
use crate::decimal::parse_u64_dec;
use crate::decimal::spec_dec_chars;
use crate::decimal::u64_to_dec_string;
use crate::hexcode::hex_encode;
use crate::hexcode::spec_hex_of;
use crate::mac::hmac_sha256_digest;
use crate::mac::mac_digest;
use crate::split::has_no_dot;
use crate::split::spec_split_dots;
use crate::split::split_dots;

verus! {

/// The default tolerance window: five minutes, in milliseconds.
pub const DEFAULT_TOLERANCE_MS: u64 = 300000;

/// The tolerance a caller chose, or the default.
pub open spec fn spec_tolerance(tolerance_ms: Option<u64>) -> u64 {
    match tolerance_ms {
        Some(t) => t,
        None => DEFAULT_TOLERANCE_MS,
    }
}

/// The absolute difference of two timestamps.
pub open spec fn abs_diff_u64(a: u64, b: u64) -> nat {
    if a >= b {
        (a - b) as nat
    } else {
        (b - a) as nat
    }
}

/// The bytes the MAC is computed over: the UTF-8 bytes of the canonical JSON
/// body directly concatenated with the decimal timestamp, no delimiter.
pub open spec fn spec_message_bytes(json_body: Seq<char>, timestamp_ms: u64) -> Seq<u8> {
    encode_utf8(json_body + spec_dec_chars(timestamp_ms as nat))
}

/// The hex-digest field of a token: lowercase hex of the MAC digest of the
/// message under the UTF-8 bytes of the secret key.
pub open spec fn spec_digest_hex(
    json_body: Seq<char>,
    secret_key: Seq<char>,
    timestamp_ms: u64,
) -> Seq<char> {
    spec_hex_of(mac_digest(encode_utf8(secret_key), spec_message_bytes(json_body, timestamp_ms)))
}

/// The token generated for a body, an integration id, a secret key and a
/// timestamp.
pub open spec fn spec_token(
    json_body: Seq<char>,
    integration_id: Seq<char>,
    secret_key: Seq<char>,
    timestamp_ms: u64,
) -> Seq<char> {
    integration_id + seq!['.'] + spec_dec_chars(timestamp_ms as nat) + seq!['.']
        + spec_digest_hex(json_body, secret_key, timestamp_ms)
}

/// Whether a signature passes validation against a body, an integration id, a
/// secret key and a tolerance, with the clock reading `now_ms`: the signature
/// has exactly three non-empty dot-separated fields; the first equals the
/// integration id; the second is a decimal timestamp that fits in 64 bits and
/// lies within the tolerance of `now_ms`, past or future alike; and the third
/// equals the digest recomputed from the body and that embedded timestamp.
pub open spec fn spec_validate_at(
    signature: Seq<char>,
    json_body: Seq<char>,
    integration_id: Seq<char>,
    secret_key: Seq<char>,
    tolerance_ms: u64,
    now_ms: u64,
) -> bool {
    let parts = spec_split_dots(signature);
    &&& parts.len() == 3
    &&& parts[0].len() > 0
    &&& parts[1].len() > 0
    &&& parts[2].len() > 0
    &&& parts[0] == integration_id
    &&& is_digits(parts[1])
    &&& dec_value_of(parts[1]) <= u64::MAX
    &&& abs_diff_u64(now_ms, dec_value_of(parts[1]) as u64) <= tolerance_ms
    &&& parts[2] == spec_digest_hex(json_body, secret_key, dec_value_of(parts[1]) as u64)
}

/// Computes the hex-digest field for a body and an embedded timestamp,
/// exactly as both generation and validation need it. `None` reports the MAC
/// primitive rejecting the key, which it never does.
fn compute_digest_hex(json_body: &str, secret_key: &str, timestamp_ms: u64) -> (r: Option<String>)
    ensures
        r is Some,
        r matches Some(h) ==> h@ == spec_digest_hex(json_body@, secret_key@, timestamp_ms),
{
    let ts_str = u64_to_dec_string(timestamp_ms);
    let mut data = String::from_str(json_body);
    data.append(ts_str.as_str());
    let message = data.as_str().as_bytes_vec();
    proof {
        assert(message@ == spec_message_bytes(json_body@, timestamp_ms));
    }
    match hmac_sha256_digest(secret_key.as_bytes(), message.as_slice()) {
        Some(digest) => {
            let h = hex_encode(digest.as_slice());
            proof {
                assert(digest@ == mac_digest(
                    encode_utf8(secret_key@),
                    spec_message_bytes(json_body@, timestamp_ms),
                ));
            }
            Some(h)
        },
        None => None,
    }
}

/// Generates the signature token for a body, an integration id and a secret
/// key at the given timestamp.
///
/// `Err(SignatureError::Key)` reports the MAC primitive rejecting the key;
/// the primitive accepts any key, so generation in fact always succeeds.
pub fn generate_signature_at(
    json_body: &str,
    integration_id: &str,
    secret_key: &str,
    timestamp_ms: u64,
) -> (r: Result<String, SignatureError>)
    requires
        integration_id@.len() > 0,
        has_no_dot(integration_id@),
        secret_key@.len() > 0,
    ensures
        r is Ok,
        r matches Ok(t) ==> t@ == spec_token(
            json_body@,
            integration_id@,
            secret_key@,
            timestamp_ms,
        ),
{
    let digest_hex = match compute_digest_hex(json_body, secret_key, timestamp_ms) {
        Some(h) => h,
        None => {
            return Err(SignatureError::Key);
        },
    };
    let ts_str = u64_to_dec_string(timestamp_ms);
    let mut token = String::from_str(integration_id);
    token.append(".");
    token.append(ts_str.as_str());
    token.append(".");
    token.append(digest_hex.as_str());
    proof {
        reveal_strlit(".");
        assert(token@ =~= spec_token(json_body@, integration_id@, secret_key@, timestamp_ms));
    }
    Ok(token)
}

/// Validates a signature token against a body, an integration id, a secret
/// key and a tolerance, with the clock reading `now_ms`.
///
/// Malformed input never raises: every failure collapses to `false`.
pub fn validate_signature_at(
    signature: &str,
    json_body: &str,
    integration_id: &str,
    secret_key: &str,
    tolerance_ms: Option<u64>,
    now_ms: u64,
) -> (r: bool)
    ensures
        r == spec_validate_at(
            signature@,
            json_body@,
            integration_id@,
            secret_key@,
            spec_tolerance(tolerance_ms),
            now_ms,
        ),
{
    let tolerance: u64 = match tolerance_ms {
        Some(t) => t,
        None => DEFAULT_TOLERANCE_MS,
    };
    let parts = split_dots(signature);
    proof {
        assert(parts@.len() == parts.deep_view().len());
    }
    if parts.len() != 3 {
        return false;
    }
    proof {
        assert(parts.deep_view()[0] == parts@[0]@);
        assert(parts.deep_view()[1] == parts@[1]@);
        assert(parts.deep_view()[2] == parts@[2]@);
    }
    if parts[0].as_str().is_empty() || parts[1].as_str().is_empty() || parts[2].as_str().is_empty()
    {
        return false;
    }
    if !constant_time_str_eq(parts[0].as_str(), integration_id) {
        return false;
    }
    let embedded_ts = match parse_u64_dec(parts[1].as_str()) {
        Some(t) => t,
        None => {
            return false;
        },
    };
    let age = if now_ms >= embedded_ts {
        now_ms - embedded_ts
    } else {
        embedded_ts - now_ms
    };
    if age > tolerance {
        return false;
    }
    let digest_hex = match compute_digest_hex(json_body, secret_key, embedded_ts) {
        Some(h) => h,
        None => {
            return false;
        },
    };
    constant_time_str_eq(parts[2].as_str(), digest_hex.as_str())
}

} // verus!
