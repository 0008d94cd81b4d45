//! Validation of asymmetrically signed tokens against a set of public keys.
//!
//! The key set is held as plain text: the key material is what the authority
//! published, and only the signature check itself needs anything more.

use crate::errors::AuthError;
use vstd::prelude::*;
use vstd::string::*;

verus! {

/// One public RSA key of an authority: its id, if it has one, with modulus
/// `n` and exponent `e` in URL-safe base64.
#[derive(Debug)]
pub struct JsonWebKey {
    pub kid: Option<String>,
    pub n: String,
    pub e: String,
}

/// The keys that an authority published, with the issuer they belong to and
/// the time they were fetched at, in seconds since the epoch.
#[derive(Debug)]
pub struct JsonWebKeySet {
    pub keys: Vec<JsonWebKey>,
    pub issuer: String,
    pub fetched_at: u64,
}

/// Whether `key` carries the id `kid`.
pub open spec fn key_matches(key: JsonWebKey, kid: Seq<char>) -> bool {
    key.kid matches Some(k) && k@ == kid
}

/// Whether some key of `keys` carries the id `kid`.
pub open spec fn holds_key(keys: Seq<JsonWebKey>, kid: Seq<char>) -> bool {
    exists|i: int| 0 <= i < keys.len() && key_matches(#[trigger] keys[i], kid)
}

/// The position of the first key at or after `from` that carries the id `kid`.
pub open spec fn find_key(keys: Seq<JsonWebKey>, kid: Seq<char>, from: int) -> Option<int>
    decreases keys.len() - from,
{
    if from < 0 || from >= keys.len() {
        None
    } else if key_matches(keys[from], kid) {
        Some(from)
    } else {
        find_key(keys, kid, from + 1)
    }
}

/// What `alcoholic_jwt::token_kid` reads from the header of `token`: nothing
/// where it reports an error, else the key id, which may be absent.
pub uninterp spec fn token_key_id(token: Seq<char>) -> Option<Option<Seq<char>>>;

/// Whether `alcoholic_jwt::validate` accepts `token` under the RSA key with
/// modulus `n` and exponent `e`, asked to check that the issuer is `issuer` and
/// that a subject is present.
pub uninterp spec fn signature_accepted(
    token: Seq<char>,
    n: Seq<char>,
    e: Seq<char>,
    issuer: Seq<char>,
) -> bool;

/// The verdict on a token whose header was read as `kid`: `MalformedToken`
/// without a readable key id, `UnknownKey` where no key carries it, else
/// whether the first key that carries it accepts the token.
pub open spec fn jwks_verdict(
    token: Seq<char>,
    kid: Option<Option<Seq<char>>>,
    keys: Seq<JsonWebKey>,
    issuer: Seq<char>,
) -> Result<bool, AuthError> {
    match kid {
        Some(Some(id)) => match find_key(keys, id, 0) {
            Some(i) => Ok(signature_accepted(token, keys[i].n@, keys[i].e@, issuer)),
            None => Err(AuthError::UnknownKey),
        },
        _ => Err(AuthError::MalformedToken),
    }
}

#[verifier::external_type_specification]
#[verifier::external_body]
pub struct ExValidationError(alcoholic_jwt::ValidationError);

/// Calls `alcoholic_jwt::token_kid`. Trusted: the outcome is a function of the
/// token alone, named `token_key_id`.
#[verifier::external_body]
pub(crate) fn read_key_id(token: &str) -> (kid: Result<
    Option<String>,
    alcoholic_jwt::ValidationError,
>)
    ensures
        match kid {
            Ok(Some(id)) => token_key_id(token@) == Some(Some(id@)),
            Ok(None) => token_key_id(token@) == Some(None::<Seq<char>>),
            Err(_) => token_key_id(token@) is None,
        },
{
    alcoholic_jwt::token_kid(token)
}

/// Makes an `alcoholic_jwt::JWK` of key type RSA from `n` and `e` through
/// `serde_json::from_value`, and calls `alcoholic_jwt::validate` with the
/// validations `Issuer(issuer)` and `SubjectPresent`. Trusted: whether the
/// call returns `Ok` is a function of the four texts alone, named
/// `signature_accepted`; a key that cannot be made accepts nothing.
#[verifier::external_body]
pub(crate) fn check_signature(token: &str, n: &str, e: &str, issuer: &str) -> (accepted: bool)
    ensures
        accepted == signature_accepted(token@, n@, e@, issuer@),
{
    let mut fields = serde_json::Map::new();
    fields.insert("kty".to_string(), serde_json::Value::from("RSA"));
    fields.insert("n".to_string(), serde_json::Value::from(n));
    fields.insert("e".to_string(), serde_json::Value::from(e));
    let checks = std::vec![
        alcoholic_jwt::Validation::Issuer(issuer.to_string()),
        alcoholic_jwt::Validation::SubjectPresent,
    ];
    match serde_json::from_value::<alcoholic_jwt::JWK>(serde_json::Value::Object(fields)) {
        Ok(key) => alcoholic_jwt::validate(token, &key, checks).is_ok(),
        Err(_) => false,
    }
}

/// `find_key` gives the first key that matches, and nothing only where none
/// from `from` on does.
pub proof fn lemma_find_key(keys: Seq<JsonWebKey>, kid: Seq<char>, from: int)
    requires
        0 <= from <= keys.len(),
    ensures
        match find_key(keys, kid, from) {
            Some(i) => from <= i < keys.len() && key_matches(keys[i], kid) && forall|j: int|
                from <= j < i ==> !key_matches(#[trigger] keys[j], kid),
            None => forall|j: int| from <= j < keys.len() ==> !key_matches(#[trigger] keys[j], kid),
        },
    decreases keys.len() - from,
{
    if from < keys.len() && !key_matches(keys[from], kid) {
        lemma_find_key(keys, kid, from + 1);
    }
}

/// A key id that no key of the set carries is never found, and one that some
/// key carries always is.
pub proof fn lemma_absent_key_is_unknown(keys: Seq<JsonWebKey>, kid: Seq<char>)
    ensures
        find_key(keys, kid, 0) is None <==> !holds_key(keys, kid),
{
    lemma_find_key(keys, kid, 0);
}

/// A token whose key id the set does not hold is refused as `UnknownKey`,
/// whatever the token and whatever the keys would have made of its signature.
pub proof fn law_absent_key_is_unknown_key(
    token: Seq<char>,
    kid: Seq<char>,
    keys: Seq<JsonWebKey>,
    issuer: Seq<char>,
)
    requires
        !holds_key(keys, kid),
    ensures
        jwks_verdict(token, Some(Some(kid)), keys, issuer) == Err::<bool, AuthError>(
            AuthError::UnknownKey,
        ),
{
    lemma_absent_key_is_unknown(keys, kid);
}

/// The key id of a token, or `MalformedToken` where the header could not be
/// read or names no key.
pub fn key_id_of(kid: Result<Option<String>, alcoholic_jwt::ValidationError>) -> (id: Result<
    String,
    AuthError,
>)
    ensures
        match kid {
            Ok(Some(k)) => id == Ok::<String, AuthError>(k),
            _ => id == Err::<String, AuthError>(AuthError::MalformedToken),
        },
{
    match kid {
        Ok(Some(k)) => Ok(k),
        _ => Err(AuthError::MalformedToken),
    }
}

/// What a verdict on the signature amounts to: a token that was checked and
/// not accepted is `InvalidToken`, and an earlier failure stays what it was.
pub fn accepted_or_invalid(verdict: Result<bool, AuthError>) -> (outcome: Result<(), AuthError>)
    ensures
        outcome == match verdict {
            Ok(true) => Ok::<(), AuthError>(()),
            Ok(false) => Err::<(), AuthError>(AuthError::InvalidToken),
            Err(e) => Err::<(), AuthError>(e),
        },
{
    match verdict {
        Ok(true) => Ok(()),
        Ok(false) => Err(AuthError::InvalidToken),
        Err(e) => Err(e),
    }
}

impl JsonWebKeySet {
    /// Finds the first key with the id `kid`, or fails with `UnknownKey`.
    pub fn find(&self, kid: &str) -> (found: Result<&JsonWebKey, AuthError>)
        ensures
            match found {
                Ok(key) => find_key(self.keys@, kid@, 0) matches Some(i) && *key == self.keys@[i],
                Err(e) => e == AuthError::UnknownKey && find_key(self.keys@, kid@, 0) is None,
            },
            found is Err <==> !holds_key(self.keys@, kid@),
    {
        proof {
            lemma_absent_key_is_unknown(self.keys@, kid@);
        }
        let wanted = String::from_str(kid);
        let n: usize = self.keys.len();
        let mut i: usize = 0;
        while i < n
            invariant
                n == self.keys@.len(),
                i <= n,
                wanted@ == kid@,
                find_key(self.keys@, kid@, 0) == find_key(self.keys@, kid@, i as int),
            decreases n - i,
        {
            let key = &self.keys[i];
            let hit = match &key.kid {
                Some(k) => *k == wanted,
                None => false,
            };
            if hit {
                return Ok(key);
            }
            i += 1;
        }
        Err(AuthError::UnknownKey)
    }
}

/// The verdict on `token` once its key id is known: `UnknownKey` where the set
/// does not hold the key, else whether the signature, the issuer and the
/// presence of a subject hold up under the first key with that id.
pub fn validate_under(token: &str, kid: &str, key_set: &JsonWebKeySet) -> (verdict: Result<
    bool,
    AuthError,
>)
    ensures
        verdict == jwks_verdict(token@, Some(Some(kid@)), key_set.keys@, key_set.issuer@),
        !holds_key(key_set.keys@, kid@) ==> verdict == Err::<bool, AuthError>(
            AuthError::UnknownKey,
        ),
{
    match key_set.find(kid) {
        Err(e) => Err(e),
        Ok(key) => Ok(
            check_signature(token, key.n.as_str(), key.e.as_str(), key_set.issuer.as_str()),
        ),
    }
}

/// Validates `token` against `key_set`: reads the key id from the token's
/// header, looks the key up, and has the signature, the issuer and the
/// presence of a subject checked under that key.
///
/// `Ok` carries the verdict of that check. A token whose key id cannot be read
/// is `MalformedToken`; one whose key id the set does not hold is `UnknownKey`,
/// whatever its signature.
pub fn validate_token(token: &str, key_set: &JsonWebKeySet) -> (verdict: Result<bool, AuthError>)
    ensures
        verdict == jwks_verdict(token@, token_key_id(token@), key_set.keys@, key_set.issuer@),
        token_key_id(token@) matches Some(Some(id)) && !holds_key(key_set.keys@, id) ==> verdict
            == Err::<bool, AuthError>(AuthError::UnknownKey),
{
    match key_id_of(read_key_id(token)) {
        Err(e) => Err(e),
        Ok(kid) => validate_under(token, kid.as_str(), key_set),
    }
}

} // verus!
