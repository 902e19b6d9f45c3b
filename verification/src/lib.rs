//! HMAC-SHA256 request signatures for partner API integrations.
//!
//! A signature token has the form `<integrationId>.<timestampMs>.<hexDigest>`:
//! three dot-separated fields binding a canonical JSON request body, an
//! integration identifier, and a millisecond timestamp under a pre-shared
//! secret key.

use vstd::prelude::*;

pub mod compare;
pub mod decimal;
pub mod hexcode;
pub mod laws;
pub mod mac;
pub mod split;
pub mod token;

use crate::split::has_no_dot;
use crate::token::spec_token;
use crate::token::spec_tolerance;
use crate::token::spec_validate_at;

pub use crate::token::DEFAULT_TOLERANCE_MS;
pub use crate::token::generate_signature_at;
pub use crate::token::validate_signature_at;

verus! {

/// Failure cases of token generation.
///
/// Validation never reports an error: every failure collapses to `false`.
#[derive(Clone, Copy, Debug, PartialEq, Eq, Structural)]
pub enum SignatureError {
    /// The request body could not be put into canonical serialized form.
    Serialization,
    /// The MAC primitive rejected the secret key material.
    Key,
}

/// Relies on `std::time::SystemTime::now`, read as whole milliseconds since
/// the Unix epoch. Nothing is promised of the value: it is a clock. A clock
/// before the epoch reads as zero.
#[verifier::external_body]
fn now_millis() -> u64 {
    match std::time::SystemTime::now().duration_since(std::time::UNIX_EPOCH) {
        Ok(d) => d.as_millis() as u64,
        Err(_) => 0,
    }
}

/// Generates the signature token for a body, an integration id and a secret
/// key, stamped with the wall clock's current millisecond reading.
///
/// The body must already be in its canonical serialized form; both sides of
/// the exchange must serialize it to byte-identical text.
pub fn generate_signature(json_body: &str, integration_id: &str, secret_key: &str) -> (r: Result<
    String,
    SignatureError,
>)
    requires
        integration_id@.len() > 0,
        has_no_dot(integration_id@),
        secret_key@.len() > 0,
    ensures
        r is Ok,
        r matches Ok(t) ==> exists|timestamp_ms: u64|
            t@ == spec_token(json_body@, integration_id@, secret_key@, timestamp_ms),
{
    let timestamp_ms = now_millis();
    let r = generate_signature_at(json_body, integration_id, secret_key, timestamp_ms);
    proof {
        if r is Ok {
            assert(r->Ok_0@ == spec_token(
                json_body@,
                integration_id@,
                secret_key@,
                timestamp_ms,
            ));
        }
    }
    r
}

/// Validates a signature token against a body, an integration id, a secret
/// key and a tolerance (five minutes when `None`), judged against the wall
/// clock's current millisecond reading.
///
/// Malformed input never raises: every failure collapses to `false`.
pub fn validate_signature(
    signature: &str,
    json_body: &str,
    integration_id: &str,
    secret_key: &str,
    tolerance_ms: Option<u64>,
) -> (r: bool)
    ensures
        exists|now_ms: u64|
            r == spec_validate_at(
                signature@,
                json_body@,
                integration_id@,
                secret_key@,
                spec_tolerance(tolerance_ms),
                now_ms,
            ),
{
    let now_ms = now_millis();
    let r = validate_signature_at(
        signature,
        json_body,
        integration_id,
        secret_key,
        tolerance_ms,
        now_ms,
    );
    proof {
        assert(r == spec_validate_at(
            signature@,
            json_body@,
            integration_id@,
            secret_key@,
            spec_tolerance(tolerance_ms),
            now_ms,
        ));
    }
    r
}

} // verus!
