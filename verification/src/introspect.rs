//! Token introspection: what the authority answered, and what that answer
//! amounts to.

use crate::errors::AuthError;
use crate::principal::Principal;
use std::collections::HashMap;
use vstd::prelude::*;

verus! {

/// The full answer of the authority about an active token.
pub struct IntrospectionResponse {
    pub active: bool,
    pub exp: u64,
    pub iat: u64,
    pub auth_time: u64,
    pub jti: String,
    pub iss: String,
    pub aud: String,
    pub sub: String,
    pub typ: String,
    pub azp: String,
    pub session_state: String,
    pub preferred_username: String,
    pub email: String,
    pub email_verified: bool,
    pub acr: String,
    pub realm_access: RealmAccess,
    pub resource_access: HashMap<String, ResourceAccess>,
    pub scope: String,
    pub sid: String,
    pub client_id: String,
    pub username: String,
}

/// The roles a subject holds in the realm.
pub struct RealmAccess {
    pub roles: Vec<String>,
}

/// The roles a subject holds on one resource.
pub struct ResourceAccess {
    pub roles: Vec<String>,
}

/// The least that every answer of the authority holds: its verdict.
pub struct IntrospectionHeader {
    pub active: bool,
}

/// The credentials and the address that introspection is done with.
pub struct IntrospectionConfig {
    pub client_id: String,
    pub client_secret: String,
    pub introspection_url: String,
}

/// What came of asking the authority about a token.
pub enum IntrospectionOutcome {
    /// No answer: the network or the transport failed.
    Unavailable,
    /// An answer, read twice: once for the verdict alone, once in full. Either
    /// reading may have failed.
    Answered(Option<IntrospectionHeader>, Option<IntrospectionResponse>),
}

/// The subject that an introspection establishes, or the reason for none.
///
/// The verdict is read first and alone: a token that the authority calls
/// inactive is invalid whatever else the answer holds or lacks. Only for an
/// active token does the full answer count, and there it must have been read
/// and must name a subject.
pub open spec fn introspected_subject(outcome: IntrospectionOutcome) -> Result<
    Seq<char>,
    AuthError,
> {
    match outcome {
        IntrospectionOutcome::Unavailable => Err(AuthError::IntrospectionUnavailable),
        IntrospectionOutcome::Answered(Some(header), Some(full)) => if header.active
            && full.sub@.len() > 0 {
            Ok(full.sub@)
        } else {
            Err(AuthError::InvalidToken)
        },
        IntrospectionOutcome::Answered(_, _) => Err(AuthError::InvalidToken),
    }
}

impl IntrospectionConfig {
    /// The configuration, which exists only where all three settings do.
    pub fn from_settings(
        client_id: Option<String>,
        client_secret: Option<String>,
        introspection_url: Option<String>,
    ) -> (config: Option<IntrospectionConfig>)
        ensures
            config is Some <==> client_id is Some && client_secret is Some && introspection_url
                is Some,
            config matches Some(c) ==> Some(c.client_id) == client_id && Some(c.client_secret)
                == client_secret && Some(c.introspection_url) == introspection_url,
    {
        match (client_id, client_secret, introspection_url) {
            (Some(client_id), Some(client_secret), Some(introspection_url)) => Some(
                IntrospectionConfig { client_id, client_secret, introspection_url },
            ),
            _ => None,
        }
    }
}

/// Decides an introspection: the principal that the authority vouches for, with
/// the roles of its realm, or the reason why there is none.
pub fn introspection_verdict(outcome: IntrospectionOutcome) -> (verdict: Result<
    Principal,
    AuthError,
>)
    ensures
        match verdict {
            Ok(p) => introspected_subject(outcome) == Ok::<Seq<char>, AuthError>(p.subject@)
                && p.wf() && (outcome matches IntrospectionOutcome::Answered(_, Some(full))
                && p.roles == full.realm_access.roles) && p.raw_claims@.len() == 0,
            Err(e) => introspected_subject(outcome) == Err::<Seq<char>, AuthError>(e),
        },
{
    match outcome {
        IntrospectionOutcome::Unavailable => Err(AuthError::IntrospectionUnavailable),
        IntrospectionOutcome::Answered(Some(header), Some(full)) => {
            if !header.active {
                return Err(AuthError::InvalidToken);
            }
            match Principal::new(full.sub, full.realm_access.roles, Vec::new()) {
                Some(p) => Ok(p),
                None => Err(AuthError::InvalidToken),
            }
        },
        IntrospectionOutcome::Answered(_, _) => Err(AuthError::InvalidToken),
    }
}

/// An inactive token is invalid, whatever the full reading of the answer gave.
pub proof fn law_inactive_token_is_invalid(full: Option<IntrospectionResponse>)
    ensures
        introspected_subject(
            IntrospectionOutcome::Answered(Some(IntrospectionHeader { active: false }), full),
        ) == Err::<Seq<char>, AuthError>(AuthError::InvalidToken),
{
}

/// An active token whose answer names a subject yields that subject.
pub proof fn law_active_token_yields_subject(full: IntrospectionResponse)
    requires
        full.sub@.len() > 0,
    ensures
        introspected_subject(
            IntrospectionOutcome::Answered(
                Some(IntrospectionHeader { active: true }),
                Some(full),
            ),
        ) == Ok::<Seq<char>, AuthError>(full.sub@),
{
}

} // verus!
