//! The guarantees of the scheme, stated and proved over the model that the
//! contracts of generation and validation are written in.

use vstd::prelude::*;
use vstd::utf8::encode_utf8;

use crate::decimal::dec_value_of;
use crate::decimal::is_digit;
use crate::decimal::is_digits;
use crate::decimal::lemma_dec_chars_value;
use crate::decimal::spec_dec_chars;
use crate::hexcode::lemma_hex_shape;
use crate::mac::mac_digest;
use crate::split::has_no_dot;
use crate::split::lemma_split_no_dot;
use crate::split::lemma_split_prefix;
use crate::split::spec_split_dots;
use crate::token::abs_diff_u64;
use crate::token::spec_digest_hex;
use crate::token::spec_message_bytes;
use crate::token::spec_token;
use crate::token::spec_validate_at;

verus! {

/// A digit sequence is free of the field separator.
proof fn lemma_digits_no_dot(s: Seq<char>)
    requires
        is_digits(s),
    ensures
        has_no_dot(s),
{
    assert forall|i: int| 0 <= i < s.len() implies #[trigger] s[i] != '.' by {
        assert(is_digit(s[i]));
    }
}

/// Splitting three separator-free fields joined by dots gives back exactly
/// those fields.
proof fn lemma_three_fields(a: Seq<char>, b: Seq<char>, c: Seq<char>)
    requires
        has_no_dot(a),
        has_no_dot(b),
        has_no_dot(c),
    ensures
        spec_split_dots(a + seq!['.'] + b + seq!['.'] + c) == seq![a, b, c],
{
    let tail = b + seq!['.'] + c;
    assert(a + seq!['.'] + b + seq!['.'] + c =~= a + seq!['.'] + tail);
    lemma_split_prefix(a, tail);
    lemma_split_prefix(b, c);
    lemma_split_no_dot(c);
    assert(seq![a] + (seq![b] + seq![c]) =~= seq![a, b, c]);
}

/// A generated token splits into its integration id, its decimal timestamp
/// and its hex digest.
proof fn lemma_token_fields(
    json_body: Seq<char>,
    integration_id: Seq<char>,
    secret_key: Seq<char>,
    timestamp_ms: u64,
)
    requires
        has_no_dot(integration_id),
    ensures
        spec_split_dots(spec_token(json_body, integration_id, secret_key, timestamp_ms)) == seq![
            integration_id,
            spec_dec_chars(timestamp_ms as nat),
            spec_digest_hex(json_body, secret_key, timestamp_ms),
        ],
{
    let dec = spec_dec_chars(timestamp_ms as nat);
    let digest = spec_digest_hex(json_body, secret_key, timestamp_ms);
    lemma_dec_chars_value(timestamp_ms as nat);
    lemma_digits_no_dot(dec);
    lemma_hex_shape(mac_digest(encode_utf8(secret_key), spec_message_bytes(json_body, timestamp_ms)));
    lemma_three_fields(integration_id, dec, digest);
}

/// Round trip: a token generated for a valid integration id and secret key
/// verifies against the same body, id, key and tolerance at every clock
/// reading within tolerance of the embedded timestamp — the boundary reading
/// included, and future and past skew alike. In particular the digest is
/// recomputed against the embedded timestamp, not against the clock.
pub proof fn lemma_round_trip(
    json_body: Seq<char>,
    integration_id: Seq<char>,
    secret_key: Seq<char>,
    timestamp_ms: u64,
    tolerance_ms: u64,
    now_ms: u64,
)
    requires
        integration_id.len() > 0,
        has_no_dot(integration_id),
        secret_key.len() > 0,
        abs_diff_u64(now_ms, timestamp_ms) <= tolerance_ms,
    ensures
        spec_validate_at(
            spec_token(json_body, integration_id, secret_key, timestamp_ms),
            json_body,
            integration_id,
            secret_key,
            tolerance_ms,
            now_ms,
        ),
{
    lemma_token_fields(json_body, integration_id, secret_key, timestamp_ms);
    lemma_dec_chars_value(timestamp_ms as nat);
    lemma_hex_shape(
        mac_digest(encode_utf8(secret_key), spec_message_bytes(json_body, timestamp_ms)),
    );
    assert(mac_digest(
        encode_utf8(secret_key),
        spec_message_bytes(json_body, timestamp_ms),
    ).len() == 32);
}

/// Tamper sensitivity: replacing any single character of the hex-digest
/// portion of a generated token by a different character makes validation
/// fail, at every clock reading and tolerance.
pub proof fn lemma_tamper_digest(
    json_body: Seq<char>,
    integration_id: Seq<char>,
    secret_key: Seq<char>,
    timestamp_ms: u64,
    tolerance_ms: u64,
    now_ms: u64,
    i: int,
    c: char,
)
    requires
        integration_id.len() > 0,
        has_no_dot(integration_id),
        secret_key.len() > 0,
        integration_id.len() + 1 + spec_dec_chars(timestamp_ms as nat).len() + 1 <= i
            < spec_token(json_body, integration_id, secret_key, timestamp_ms).len(),
        c != spec_token(json_body, integration_id, secret_key, timestamp_ms)[i],
    ensures
        !spec_validate_at(
            spec_token(json_body, integration_id, secret_key, timestamp_ms).update(i, c),
            json_body,
            integration_id,
            secret_key,
            tolerance_ms,
            now_ms,
        ),
{
    let dec = spec_dec_chars(timestamp_ms as nat);
    let digest = spec_digest_hex(json_body, secret_key, timestamp_ms);
    let t = spec_token(json_body, integration_id, secret_key, timestamp_ms);
    let j = i - integration_id.len() - 1 - dec.len() - 1;
    let tampered = digest.update(j, c);
    lemma_dec_chars_value(timestamp_ms as nat);
    lemma_digits_no_dot(dec);
    lemma_hex_shape(
        mac_digest(encode_utf8(secret_key), spec_message_bytes(json_body, timestamp_ms)),
    );
    assert(t.update(i, c) =~= integration_id + seq!['.'] + dec + seq!['.'] + tampered);
    if c == '.' {
        let left = digest.subrange(0, j);
        let right = digest.subrange(j + 1, digest.len() as int);
        assert(tampered =~= left + seq!['.'] + right);
        assert(integration_id + seq!['.'] + dec + seq!['.'] + tampered =~= integration_id
            + seq!['.'] + dec + seq!['.'] + (left + seq!['.'] + right));
        let tail = dec + seq!['.'] + (left + seq!['.'] + right);
        assert(integration_id + seq!['.'] + dec + seq!['.'] + (left + seq!['.'] + right)
            =~= integration_id + seq!['.'] + tail);
        lemma_split_prefix(integration_id, tail);
        let tail2 = left + seq!['.'] + right;
        lemma_split_prefix(dec, tail2);
        lemma_split_prefix(left, right);
        lemma_split_no_dot(right);
        assert(spec_split_dots(t.update(i, c)).len() == 4);
    } else {
        assert forall|k: int| 0 <= k < tampered.len() implies #[trigger] tampered[k] != '.' by {
            if k != j {
                assert(tampered[k] == digest[k]);
            }
        }
        lemma_three_fields(integration_id, dec, tampered);
        assert(tampered[j] == c);
        assert(digest[j] == t[i]);
        assert(tampered != digest);
    }
}

/// Identity binding: a token generated for one integration id fails
/// validation against any other, even with the right body and secret key.
pub proof fn lemma_identity_binding(
    json_body: Seq<char>,
    integration_id: Seq<char>,
    claimed_id: Seq<char>,
    secret_key: Seq<char>,
    timestamp_ms: u64,
    tolerance_ms: u64,
    now_ms: u64,
)
    requires
        integration_id.len() > 0,
        has_no_dot(integration_id),
        secret_key.len() > 0,
        claimed_id != integration_id,
    ensures
        !spec_validate_at(
            spec_token(json_body, integration_id, secret_key, timestamp_ms),
            json_body,
            claimed_id,
            secret_key,
            tolerance_ms,
            now_ms,
        ),
{
    lemma_token_fields(json_body, integration_id, secret_key, timestamp_ms);
}

/// Timestamp binding: a token whose embedded timestamp field names one
/// instant while its digest was computed for another fails validation,
/// provided the MAC digests of the two messages differ. (With the MAC left
/// uninterpreted, a collision of HMAC-SHA256 on the two messages cannot be
/// ruled out here; the proviso excludes exactly that case.)
pub proof fn lemma_wrong_timestamp(
    json_body: Seq<char>,
    integration_id: Seq<char>,
    secret_key: Seq<char>,
    signed_ts: u64,
    embedded_ts: u64,
    tolerance_ms: u64,
    now_ms: u64,
)
    requires
        integration_id.len() > 0,
        has_no_dot(integration_id),
        secret_key.len() > 0,
        spec_digest_hex(json_body, secret_key, embedded_ts) != spec_digest_hex(
            json_body,
            secret_key,
            signed_ts,
        ),
    ensures
        !spec_validate_at(
            integration_id + seq!['.'] + spec_dec_chars(embedded_ts as nat) + seq!['.']
                + spec_digest_hex(json_body, secret_key, signed_ts),
            json_body,
            integration_id,
            secret_key,
            tolerance_ms,
            now_ms,
        ),
{
    let dec = spec_dec_chars(embedded_ts as nat);
    let digest = spec_digest_hex(json_body, secret_key, signed_ts);
    lemma_dec_chars_value(embedded_ts as nat);
    lemma_digits_no_dot(dec);
    lemma_hex_shape(
        mac_digest(encode_utf8(secret_key), spec_message_bytes(json_body, signed_ts)),
    );
    lemma_three_fields(integration_id, dec, digest);
}

/// Expiry: a token whose embedded timestamp lies further than the tolerance
/// from the clock reading — in the past or in the future — fails validation.
pub proof fn lemma_expired(
    json_body: Seq<char>,
    integration_id: Seq<char>,
    secret_key: Seq<char>,
    timestamp_ms: u64,
    tolerance_ms: u64,
    now_ms: u64,
)
    requires
        integration_id.len() > 0,
        has_no_dot(integration_id),
        secret_key.len() > 0,
        abs_diff_u64(now_ms, timestamp_ms) > tolerance_ms,
    ensures
        !spec_validate_at(
            spec_token(json_body, integration_id, secret_key, timestamp_ms),
            json_body,
            integration_id,
            secret_key,
            tolerance_ms,
            now_ms,
        ),
{
    lemma_token_fields(json_body, integration_id, secret_key, timestamp_ms);
    lemma_dec_chars_value(timestamp_ms as nat);
}

/// Malformed input is rejected: a signature that does not split into exactly
/// three fields, or has an empty field, or whose timestamp field is not the
/// decimal rendering of a 64-bit value, never validates.
pub proof fn lemma_malformed_rejected(
    signature: Seq<char>,
    json_body: Seq<char>,
    integration_id: Seq<char>,
    secret_key: Seq<char>,
    tolerance_ms: u64,
    now_ms: u64,
)
    requires
        spec_split_dots(signature).len() != 3 || spec_split_dots(signature)[0].len() == 0
            || spec_split_dots(signature)[1].len() == 0 || spec_split_dots(signature)[2].len()
            == 0 || !is_digits(spec_split_dots(signature)[1]) || dec_value_of(
            spec_split_dots(signature)[1],
        ) > u64::MAX,
    ensures
        !spec_validate_at(
            signature,
            json_body,
            integration_id,
            secret_key,
            tolerance_ms,
            now_ms,
        ),
{
}

} // verus!
