//! Tokens signed with a shared secret: what is accepted once the signature has
//! been checked.

use crate::errors::AuthError;
use crate::principal::Principal;
use vstd::prelude::*;
use vstd::string::*;

verus! {

/// The claims of a symmetrically signed token.
pub struct SymmetricClaims {
    pub sub: String,
    pub role: String,
    /// The kind of token, from its `type` claim.
    pub token_type: String,
    /// The expiry, in seconds since the epoch.
    pub exp: u64,
}

/// Whether a token with these claims is accepted at the time `now`: the
/// signature held, the claims were read, the expiry does not lie in the past,
/// the token is of the expected kind, and it names a subject.
pub open spec fn symmetric_accepted(
    signature_valid: bool,
    claims: Option<SymmetricClaims>,
    expected_type: Seq<char>,
    now: u64,
) -> bool {
    &&& signature_valid
    &&& claims matches Some(c)
    &&& c.exp >= now
    &&& c.token_type@ == expected_type
    &&& c.sub@.len() > 0
}

/// Decides a symmetrically signed token. `signature_valid` says whether the
/// signature held under the shared secret; `claims` are the decoded claims, if
/// they could be decoded. An accepted token yields its subject with its one
/// role; every other is `InvalidToken`.
pub fn symmetric_verdict(
    signature_valid: bool,
    claims: Option<SymmetricClaims>,
    expected_type: &str,
    now: u64,
) -> (verdict: Result<Principal, AuthError>)
    ensures
        verdict is Ok <==> symmetric_accepted(signature_valid, claims, expected_type@, now),
        match verdict {
            Ok(p) => p.wf() && p.raw_claims@.len() == 0 && (claims matches Some(c) && p.subject
                == c.sub && p.roles@ == seq![c.role]),
            Err(e) => e == AuthError::InvalidToken,
        },
{
    if !signature_valid {
        return Err(AuthError::InvalidToken);
    }
    match claims {
        None => Err(AuthError::InvalidToken),
        Some(c) => {
            let expected = String::from_str(expected_type);
            if c.exp < now || !(c.token_type == expected) {
                return Err(AuthError::InvalidToken);
            }
            let mut roles: Vec<String> = Vec::new();
            roles.push(c.role);
            match Principal::new(c.sub, roles, Vec::new()) {
                Some(p) => Ok(p),
                None => Err(AuthError::InvalidToken),
            }
        },
    }
}

/// A token whose expiry lies in the past is rejected, whether or not its
/// signature held.
pub proof fn law_expired_token_is_rejected(
    signature_valid: bool,
    claims: SymmetricClaims,
    expected_type: Seq<char>,
    now: u64,
)
    requires
        claims.exp < now,
    ensures
        !symmetric_accepted(signature_valid, Some(claims), expected_type, now),
{
}

} // verus!
