//! Authentication of a request: from the `Authorization` header to a
//! principal, or to the one reason for none.
//!
//! A deployment validates tokens in one of three ways, chosen once. Whatever
//! the way, the authenticator itself reaches no one: it says which outside work
//! it needs next, and decides once the caller has handed the result back.

use crate::bearer::{bearer_token, bearer_token_of, header_view};
use crate::errors::AuthError;
use crate::jwks::{
    accepted_or_invalid, jwks_verdict, key_id_of, read_key_id, token_key_id, validate_under,
    JsonWebKeySet,
};
use crate::introspect::{
    introspected_subject, introspection_verdict, IntrospectionConfig, IntrospectionHeader,
    IntrospectionOutcome, IntrospectionResponse,
};
use crate::principal::Principal;
use crate::symmetric::{symmetric_accepted, symmetric_verdict, SymmetricClaims};
use crate::token::{payload_bytes, principal_from_claims, subject_claim, token_claims};
use vstd::prelude::*;
use vstd::string::*;

verus! {

/// The address at which an authority publishes its keys.
pub open spec fn certs_endpoint_of(authority: Seq<char>) -> Seq<char> {
    authority + "/protocol/openid-connect/certs"@
}

/// The address at which `authority` publishes its keys.
pub fn certs_endpoint(authority: &str) -> (address: String)
    ensures
        address@ == certs_endpoint_of(authority@),
{
    String::from_str(authority).concat("/protocol/openid-connect/certs")
}

/// The subject that a request is authenticated as, or the reason why it is
/// not. The steps come in this order, and the first that fails decides: the
/// header must carry a token; the token's header must name a key; the key set
/// must be at hand; the set must hold the key; signature, issuer and presence
/// of a subject must hold up under it; and the payload, decoded on its own,
/// must give a subject that is not empty.
pub open spec fn authenticated_subject(
    header: Option<Seq<char>>,
    key_set: Option<&JsonWebKeySet>,
) -> Result<Seq<char>, AuthError> {
    match bearer_token_of(header) {
        Err(e) => Err(e),
        Ok(token) => match token_key_id(token) {
            Some(Some(kid)) => match key_set {
                None => Err(AuthError::KeySetUnavailable),
                Some(set) => match jwks_verdict(token, Some(Some(kid)), set.keys@, set.issuer@) {
                    Err(e) => Err(e),
                    Ok(false) => Err(AuthError::InvalidToken),
                    Ok(true) => match subject_claim(token) {
                        Some(subject) => if subject.len() > 0 {
                            Ok(subject)
                        } else {
                            Err(AuthError::InvalidToken)
                        },
                        None => Err(AuthError::InvalidToken),
                    },
                },
            },
            _ => Err(AuthError::MalformedToken),
        },
    }
}

/// Authenticates a request from the value of its `Authorization` header, if
/// it has one, and the key set of the authority, if it could be had.
///
/// The principal carries the subject of the token's payload, no roles, and
/// the decoded payload as its raw claims. Nothing is retried: a key set that
/// is missing is reported as `KeySetUnavailable`.
pub fn authenticate(header: Option<&str>, key_set: Option<&JsonWebKeySet>) -> (identity: Result<
    Principal,
    AuthError,
>)
    ensures
        match identity {
            Ok(p) => authenticated_subject(header_view(header), key_set) == Ok::<
                Seq<char>,
                AuthError,
            >(p.subject@) && p.wf() && p.roles@.len() == 0 && (bearer_token_of(
                header_view(header),
            ) matches Ok(token) && payload_bytes(token) == Some(p.raw_claims@)),
            Err(e) => authenticated_subject(header_view(header), key_set) == Err::<
                Seq<char>,
                AuthError,
            >(e),
        },
{
    let token = match bearer_token(header) {
        Ok(token) => token,
        Err(e) => {
            return Err(e);
        },
    };
    let kid = match key_id_of(read_key_id(token.as_str())) {
        Ok(kid) => kid,
        Err(e) => {
            return Err(e);
        },
    };
    let set = match key_set {
        Some(set) => set,
        None => {
            return Err(AuthError::KeySetUnavailable);
        },
    };
    match accepted_or_invalid(validate_under(token.as_str(), kid.as_str(), set)) {
        Err(e) => Err(e),
        Ok(()) => match token_claims(token.as_str()) {
            Err(e) => Err(e),
            Ok((claims, raw)) => principal_from_claims(claims, raw),
        },
    }
}

/// The one way in which a deployment validates tokens.
pub enum ValidationStrategy {
    /// Tokens are signed with a secret that the authority shares; only those
    /// whose kind is `access_type` are accepted.
    Symmetric { secret: String, access_type: String },
    /// Tokens are signed with a private key of the authority, whose public
    /// keys are fetched from it.
    Jwks { authority: String },
    /// The authority itself is asked about each token.
    Introspection(IntrospectionConfig),
}

/// What the caller has found out for the authenticator so far.
pub enum Evidence {
    /// Nothing yet.
    Nothing,
    /// The key set of the authority, if it could be had.
    Keys(Option<JsonWebKeySet>),
    /// Whether the signature held under the shared secret, the claims if they
    /// could be decoded, and the time, in seconds since the epoch.
    Signature { valid: bool, claims: Option<SymmetricClaims>, now: u64 },
    /// What came of asking the authority.
    Introspection(IntrospectionOutcome),
}

/// What comes next in an authentication.
#[derive(Debug, PartialEq, Eq)]
pub enum AuthStep {
    /// The caller is this principal.
    Accept(Principal),
    /// The request is refused for this reason.
    Reject(AuthError),
    /// Fetch the key set of this issuer from this address.
    FetchKeys { address: String, issuer: String },
    /// Check the signature of this token under this secret, decode its claims
    /// and read the clock.
    CheckSignature { token: String, secret: String },
    /// Post this token to this address with these credentials.
    Introspect { token: String, address: String, client_id: String, client_secret: String },
}

/// A step with its texts as sequences of characters, and a principal as its
/// subject.
pub enum AuthStepView {
    Accept(Seq<char>),
    Reject(AuthError),
    FetchKeys(Seq<char>, Seq<char>),
    CheckSignature(Seq<char>, Seq<char>),
    Introspect(Seq<char>, Seq<char>, Seq<char>, Seq<char>),
}

impl View for AuthStep {
    type V = AuthStepView;

    open spec fn view(&self) -> AuthStepView {
        match self {
            AuthStep::Accept(p) => AuthStepView::Accept(p.subject@),
            AuthStep::Reject(e) => AuthStepView::Reject(*e),
            AuthStep::FetchKeys { address, issuer } => AuthStepView::FetchKeys(address@, issuer@),
            AuthStep::CheckSignature { token, secret } => AuthStepView::CheckSignature(
                token@,
                secret@,
            ),
            AuthStep::Introspect { token, address, client_id, client_secret } => {
                AuthStepView::Introspect(token@, address@, client_id@, client_secret@)
            },
        }
    }
}

/// A verdict as a step.
pub open spec fn verdict_step(verdict: Result<Seq<char>, AuthError>) -> AuthStepView {
    match verdict {
        Ok(subject) => AuthStepView::Accept(subject),
        Err(e) => AuthStepView::Reject(e),
    }
}

/// The next step of an authentication under `strategy`.
///
/// A request without a token is refused before anything else happens. With a
/// key set, a token that names no key is refused before any key is fetched;
/// keys that were published for another issuer are no keys of this authority.
/// Evidence of a kind that the strategy has no use for counts as none.
pub open spec fn auth_step(
    strategy: ValidationStrategy,
    header: Option<Seq<char>>,
    evidence: Evidence,
) -> AuthStepView {
    match bearer_token_of(header) {
        Err(e) => AuthStepView::Reject(e),
        Ok(token) => match strategy {
            ValidationStrategy::Jwks { authority } => match token_key_id(token) {
                Some(Some(kid)) => match evidence {
                    Evidence::Keys(Some(set)) => if set.issuer@ == authority@ {
                        verdict_step(authenticated_subject(header, Some(&set)))
                    } else {
                        AuthStepView::Reject(AuthError::KeySetUnavailable)
                    },
                    Evidence::Keys(None) => AuthStepView::Reject(AuthError::KeySetUnavailable),
                    _ => AuthStepView::FetchKeys(certs_endpoint_of(authority@), authority@),
                },
                _ => AuthStepView::Reject(AuthError::MalformedToken),
            },
            ValidationStrategy::Symmetric { secret, access_type } => match evidence {
                Evidence::Signature { valid, claims, now } => if symmetric_accepted(
                    valid,
                    claims,
                    access_type@,
                    now,
                ) {
                    AuthStepView::Accept(claims->Some_0.sub@)
                } else {
                    AuthStepView::Reject(AuthError::InvalidToken)
                },
                _ => AuthStepView::CheckSignature(token, secret@),
            },
            ValidationStrategy::Introspection(config) => match evidence {
                Evidence::Introspection(outcome) => verdict_step(introspected_subject(outcome)),
                _ => AuthStepView::Introspect(
                    token,
                    config.introspection_url@,
                    config.client_id@,
                    config.client_secret@,
                ),
            },
        },
    }
}

/// What an accepted principal carries besides its subject. From a key set:
/// no roles, and the decoded payload of the token as raw claims. From a shared
/// secret: the one role of the claims. From introspection: the roles of the
/// realm. The last two carry no raw claims.
pub open spec fn accepted_with(
    p: Principal,
    header: Option<Seq<char>>,
    evidence: Evidence,
) -> bool {
    match evidence {
        Evidence::Nothing => false,
        Evidence::Keys(_) => p.roles@.len() == 0 && (bearer_token_of(header) matches Ok(token)
            && payload_bytes(token) == Some(p.raw_claims@)),
        Evidence::Signature { claims, .. } => p.raw_claims@.len() == 0 && (claims matches Some(c)
            && p.roles@ == seq![c.role]),
        Evidence::Introspection(outcome) => p.raw_claims@.len() == 0 && (
        outcome matches IntrospectionOutcome::Answered(_, Some(full)) && p.roles
            == full.realm_access.roles),
    }
}

/// A verdict as a step.
pub fn step_of(verdict: Result<Principal, AuthError>) -> (step: AuthStep)
    ensures
        match verdict {
            Ok(p) => step == AuthStep::Accept(p),
            Err(e) => step == AuthStep::Reject(e),
        },
{
    match verdict {
        Ok(p) => AuthStep::Accept(p),
        Err(e) => AuthStep::Reject(e),
    }
}

/// Decides the next step of an authentication under `strategy`, from the
/// value of the request's `Authorization` header, if it has one, and from what
/// the caller has found out so far.
///
/// An accepted principal is valid: its subject is not empty.
pub fn authenticate_step(
    strategy: &ValidationStrategy,
    header: Option<&str>,
    evidence: Evidence,
) -> (step: AuthStep)
    ensures
        step@ == auth_step(*strategy, header_view(header), evidence),
        step matches AuthStep::Accept(p) ==> p.wf() && accepted_with(
            p,
            header_view(header),
            evidence,
        ),
{
    let token = match bearer_token(header) {
        Ok(token) => token,
        Err(e) => {
            return AuthStep::Reject(e);
        },
    };
    match strategy {
        ValidationStrategy::Jwks { authority } => {
            match key_id_of(read_key_id(token.as_str())) {
                Err(e) => AuthStep::Reject(e),
                Ok(_) => match evidence {
                    Evidence::Keys(Some(set)) => {
                        if set.issuer == *authority {
                            step_of(authenticate(header, Some(&set)))
                        } else {
                            AuthStep::Reject(AuthError::KeySetUnavailable)
                        }
                    },
                    Evidence::Keys(None) => AuthStep::Reject(AuthError::KeySetUnavailable),
                    _ => AuthStep::FetchKeys {
                        address: certs_endpoint(authority.as_str()),
                        issuer: authority.clone(),
                    },
                },
            }
        },
        ValidationStrategy::Symmetric { secret, access_type } => match evidence {
            Evidence::Signature { valid, claims, now } => step_of(
                symmetric_verdict(valid, claims, access_type.as_str(), now),
            ),
            _ => AuthStep::CheckSignature { token, secret: secret.clone() },
        },
        ValidationStrategy::Introspection(config) => match evidence {
            Evidence::Introspection(outcome) => step_of(introspection_verdict(outcome)),
            _ => AuthStep::Introspect {
                token,
                address: config.introspection_url.clone(),
                client_id: config.client_id.clone(),
                client_secret: config.client_secret.clone(),
            },
        },
    }
}

/// Whatever the strategy and whatever was found out, a request without a
/// token is refused as such, and nothing is asked of anyone.
pub proof fn law_no_token_no_work(strategy: ValidationStrategy, evidence: Evidence)
    ensures
        auth_step(strategy, None, evidence) == AuthStepView::Reject(AuthError::MissingToken),
{
}

/// Under introspection an inactive token is refused as invalid whatever the
/// rest of the answer holds, and an active one with a subject is accepted as
/// that subject.
pub proof fn law_introspection_follows_the_verdict(
    config: IntrospectionConfig,
    header: Seq<char>,
    header_reading: IntrospectionHeader,
    full: Option<IntrospectionResponse>,
)
    requires
        bearer_token_of(Some(header)) is Ok,
    ensures
        !header_reading.active ==> auth_step(
            ValidationStrategy::Introspection(config),
            Some(header),
            Evidence::Introspection(IntrospectionOutcome::Answered(Some(header_reading), full)),
        ) == AuthStepView::Reject(AuthError::InvalidToken),
        header_reading.active && full is Some && full->Some_0.sub@.len() > 0 ==> auth_step(
            ValidationStrategy::Introspection(config),
            Some(header),
            Evidence::Introspection(IntrospectionOutcome::Answered(Some(header_reading), full)),
        ) == AuthStepView::Accept(full->Some_0.sub@),
{
}

} // verus!
