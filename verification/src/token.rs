//! Reading the claims of a token from its payload segment.
//!
//! This is a decoding of its own, apart from any signature check: the payload
//! is the second of the token's dot-separated segments, in URL-safe base64
//! without padding, and holds a JSON object.

use crate::errors::AuthError;
use crate::principal::{Claims, Principal};
use vstd::prelude::*;
use vstd::string::*;

verus! {

/// The position of the first dot of `s` at or after `from`, or the length of
/// `s` where there is none.
pub open spec fn next_dot(s: Seq<char>, from: int) -> int
    decreases s.len() - from,
{
    if from < 0 || from >= s.len() {
        s.len() as int
    } else if s[from] == '.' {
        from
    } else {
        next_dot(s, from + 1)
    }
}

/// The second dot-separated segment of `token`: what stands between its first
/// dot and the next one, or the end. A token without a dot has none.
pub open spec fn payload_segment(token: Seq<char>) -> Option<Seq<char>> {
    let first = next_dot(token, 0);
    if first >= token.len() {
        None
    } else {
        Some(token.subrange(first + 1, next_dot(token, first + 1)))
    }
}

/// What `base64::decode_config` makes of `text` under `URL_SAFE_NO_PAD`: the
/// decoded bytes, or nothing where it reports an error.
pub uninterp spec fn base64url_decoding(text: Seq<char>) -> Option<Seq<u8>>;

/// The JSON string that `serde_json` finds under `key` in the top-level object
/// of `document`, or nothing where the document is no JSON, no object, or holds
/// no string there.
pub uninterp spec fn json_string_member_of(document: Seq<u8>, key: Seq<char>) -> Option<
    Seq<char>,
>;

/// The bytes of the payload of `token`.
pub open spec fn payload_bytes(token: Seq<char>) -> Option<Seq<u8>> {
    match payload_segment(token) {
        Some(segment) => base64url_decoding(segment),
        None => None,
    }
}

/// The subject claim of `token`, as far as its payload gives one.
pub open spec fn subject_claim(token: Seq<char>) -> Option<Seq<char>> {
    match payload_bytes(token) {
        Some(bytes) => json_string_member_of(bytes, "sub"@),
        None => None,
    }
}

/// What a decoded subject amounts to: a principal, if there is a subject and
/// it is not empty.
pub open spec fn subject_accepted(subject: Option<Seq<char>>) -> bool {
    subject matches Some(s) && s.len() > 0
}

#[verifier::external_type_specification]
#[verifier::external_body]
pub struct ExDecodeError(base64::DecodeError);

/// Calls `base64::decode_config` with `base64::URL_SAFE_NO_PAD`. Trusted: the
/// outcome is a function of the text alone, named `base64url_decoding`.
#[verifier::external_body]
pub(crate) fn decode_base64url(text: &str) -> (decoded: Result<Vec<u8>, base64::DecodeError>)
    ensures
        match decoded {
            Ok(bytes) => base64url_decoding(text@) == Some(bytes@),
            Err(_) => base64url_decoding(text@) is None,
        },
{
    base64::decode_config(text, base64::URL_SAFE_NO_PAD)
}

/// Calls `serde_json::from_slice` for a `serde_json::Value`, then `Value::get`,
/// and takes the text where the member is a string. Trusted: the outcome is a
/// function of the document and the key alone, named `json_string_member_of`.
#[verifier::external_body]
pub(crate) fn json_string_member(document: &[u8], key: &str) -> (member: Option<String>)
    ensures
        match member {
            Some(text) => json_string_member_of(document@, key@) == Some(text@),
            None => json_string_member_of(document@, key@) is None,
        },
{
    match serde_json::from_slice::<serde_json::Value>(document) {
        Ok(value) => match value.get(key) {
            Some(serde_json::Value::String(text)) => Some(text.clone()),
            _ => None,
        },
        Err(_) => None,
    }
}

/// Finds the first dot of `text` at or after `from`.
pub fn find_dot(text: &str, from: usize) -> (at: usize)
    requires
        from <= text@.len(),
    ensures
        at == next_dot(text@, from as int),
        from <= at <= text@.len(),
{
    let n: usize = text.unicode_len();
    let ascii: bool = text.is_ascii();
    let mut i: usize = from;
    while i < n
        invariant
            n == text@.len(),
            from <= i <= n,
            ascii ==> is_ascii(text),
            next_dot(text@, from as int) == next_dot(text@, i as int),
        decreases n - i,
    {
        let dot: bool = if ascii {
            text.get_ascii(i) == 46
        } else {
            text.get_char(i) == '.'
        };
        if dot {
            return i;
        }
        i += 1;
    }
    i
}

/// The payload segment of `token`, still encoded.
pub fn payload_text(token: &str) -> (segment: Option<&str>)
    ensures
        match segment {
            Some(text) => payload_segment(token@) == Some(text@),
            None => payload_segment(token@) is None,
        },
{
    let n: usize = token.unicode_len();
    let first: usize = find_dot(token, 0);
    if first >= n {
        None
    } else {
        let second: usize = find_dot(token, first + 1);
        Some(token.substring_char(first + 1, second))
    }
}

/// The bytes that a decoding of the payload gave, or `InvalidToken` where it
/// failed.
pub fn decoded_payload(decoded: Result<Vec<u8>, base64::DecodeError>) -> (payload: Result<
    Vec<u8>,
    AuthError,
>)
    ensures
        match decoded {
            Ok(bytes) => payload == Ok::<Vec<u8>, AuthError>(bytes),
            Err(_) => payload == Err::<Vec<u8>, AuthError>(AuthError::InvalidToken),
        },
{
    match decoded {
        Ok(bytes) => Ok(bytes),
        Err(_) => Err(AuthError::InvalidToken),
    }
}

/// The claims that a subject read from a payload stands for: `InvalidToken`
/// where the payload gave no subject.
pub fn claims_from_subject(subject: Option<String>) -> (claims: Result<Claims, AuthError>)
    ensures
        match subject {
            Some(s) => claims matches Ok(c) && c.sub == s,
            None => claims == Err::<Claims, AuthError>(AuthError::InvalidToken),
        },
{
    match subject {
        Some(sub) => Ok(Claims { sub }),
        None => Err(AuthError::InvalidToken),
    }
}

/// The principal that decoded claims stand for: `InvalidToken` where the
/// subject is empty, since an empty subject names no one.
pub fn principal_from_claims(claims: Claims, raw_claims: Vec<u8>) -> (principal: Result<
    Principal,
    AuthError,
>)
    ensures
        match principal {
            Ok(p) => claims.sub@.len() > 0 && p.wf() && p.subject == claims.sub && p.roles@.len()
                == 0 && p.raw_claims == raw_claims,
            Err(e) => claims.sub@.len() == 0 && e == AuthError::InvalidToken,
        },
{
    match Principal::from_claims(claims, raw_claims) {
        Some(p) => Ok(p),
        None => Err(AuthError::InvalidToken),
    }
}

/// Decodes the payload of `token`: the bytes of its second segment.
/// `InvalidToken` where the token has no second segment or the segment is no
/// unpadded URL-safe base64.
pub fn token_payload(token: &str) -> (payload: Result<Vec<u8>, AuthError>)
    ensures
        match payload {
            Ok(bytes) => payload_bytes(token@) == Some(bytes@),
            Err(e) => e == AuthError::InvalidToken && payload_bytes(token@) is None,
        },
{
    match payload_text(token) {
        Some(segment) => decoded_payload(decode_base64url(segment)),
        None => Err(AuthError::InvalidToken),
    }
}

/// Reads the claims of `token` from its payload, whatever its signature.
/// `InvalidToken` where the payload cannot be decoded or holds no subject.
pub fn token_claims(token: &str) -> (claims: Result<(Claims, Vec<u8>), AuthError>)
    ensures
        match claims {
            Ok((c, raw)) => payload_bytes(token@) == Some(raw@) && subject_claim(token@) == Some(
                c.sub@,
            ),
            Err(e) => e == AuthError::InvalidToken && subject_claim(token@) is None,
        },
{
    match token_payload(token) {
        Ok(bytes) => match claims_from_subject(json_string_member(bytes.as_slice(), "sub")) {
            Ok(c) => Ok((c, bytes)),
            Err(e) => Err(e),
        },
        Err(e) => Err(e),
    }
}

} // verus!
