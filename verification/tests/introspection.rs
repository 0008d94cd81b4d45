use std::collections::HashMap;
use storage_gateway::authenticator::{authenticate_step, AuthStep, Evidence, ValidationStrategy};
use storage_gateway::errors::AuthError;
use storage_gateway::introspect::{
    introspection_verdict, IntrospectionConfig, IntrospectionHeader, IntrospectionOutcome,
    IntrospectionResponse, RealmAccess, ResourceAccess,
};

fn response(active: bool, sub: &str, roles: &[&str]) -> IntrospectionResponse {
    let mut resource_access = HashMap::new();
    resource_access.insert("account".to_string(), ResourceAccess { roles: vec!["view".to_string()] });
    IntrospectionResponse {
        active,
        exp: 1_700_000_300,
        iat: 1_700_000_000,
        auth_time: 1_700_000_000,
        jti: "j-1".to_string(),
        iss: "https://auth.example/realm".to_string(),
        aud: "account".to_string(),
        sub: sub.to_string(),
        typ: "Bearer".to_string(),
        azp: "gateway".to_string(),
        session_state: "s-1".to_string(),
        preferred_username: "user".to_string(),
        email: "user@example.org".to_string(),
        email_verified: true,
        acr: "1".to_string(),
        realm_access: RealmAccess { roles: roles.iter().map(|r| r.to_string()).collect() },
        resource_access,
        scope: "profile email".to_string(),
        sid: "s-1".to_string(),
        client_id: "gateway".to_string(),
        username: "user".to_string(),
    }
}

fn answered(header: Option<bool>, full: Option<IntrospectionResponse>) -> IntrospectionOutcome {
    IntrospectionOutcome::Answered(header.map(|active| IntrospectionHeader { active }), full)
}

#[test]
fn an_inactive_token_is_invalid_with_a_minimal_answer() {
    assert_eq!(
        introspection_verdict(answered(Some(false), None)).err(),
        Some(AuthError::InvalidToken)
    );
}

#[test]
fn an_inactive_token_is_invalid_whatever_the_full_answer_says() {
    assert_eq!(
        introspection_verdict(answered(Some(false), Some(response(false, "u1", &[])))).err(),
        Some(AuthError::InvalidToken)
    );
    assert_eq!(
        introspection_verdict(answered(Some(false), Some(response(true, "u1", &[])))).err(),
        Some(AuthError::InvalidToken)
    );
}

#[test]
fn an_active_token_yields_its_subject_and_realm_roles() {
    let p = introspection_verdict(answered(Some(true), Some(response(true, "u1", &["user", "admin"]))))
        .unwrap();
    assert_eq!(p.subject, "u1");
    assert_eq!(p.roles, vec!["user".to_string(), "admin".to_string()]);
    assert!(p.raw_claims.is_empty());
    let p = introspection_verdict(answered(Some(true), Some(response(true, "u2", &[])))).unwrap();
    assert_eq!(p.subject, "u2");
    assert!(p.roles.is_empty());
}

#[test]
fn an_active_token_without_a_readable_answer_is_invalid() {
    assert_eq!(
        introspection_verdict(answered(Some(true), None)).err(),
        Some(AuthError::InvalidToken)
    );
}

#[test]
fn an_active_token_with_an_empty_subject_is_invalid() {
    assert_eq!(
        introspection_verdict(answered(Some(true), Some(response(true, "", &["user"])))).err(),
        Some(AuthError::InvalidToken)
    );
}

#[test]
fn an_answer_without_a_verdict_is_invalid() {
    assert_eq!(introspection_verdict(answered(None, None)).err(), Some(AuthError::InvalidToken));
    assert_eq!(
        introspection_verdict(answered(None, Some(response(true, "u1", &[])))).err(),
        Some(AuthError::InvalidToken)
    );
}

#[test]
fn no_answer_is_introspection_unavailable() {
    assert_eq!(
        introspection_verdict(IntrospectionOutcome::Unavailable).err(),
        Some(AuthError::IntrospectionUnavailable)
    );
}

#[test]
fn the_configuration_needs_all_three_settings() {
    let some = |s: &str| Some(s.to_string());
    let c = IntrospectionConfig::from_settings(some("id"), some("secret"), some("https://a/i"))
        .unwrap();
    assert_eq!(c.client_id, "id");
    assert_eq!(c.client_secret, "secret");
    assert_eq!(c.introspection_url, "https://a/i");
    assert!(IntrospectionConfig::from_settings(None, some("secret"), some("u")).is_none());
    assert!(IntrospectionConfig::from_settings(some("id"), None, some("u")).is_none());
    assert!(IntrospectionConfig::from_settings(some("id"), some("secret"), None).is_none());
    assert!(IntrospectionConfig::from_settings(None, None, None).is_none());
}

#[test]
fn the_authenticator_accepts_what_the_authority_vouches_for() {
    let strategy = ValidationStrategy::Introspection(
        IntrospectionConfig::from_settings(
            Some("id".to_string()),
            Some("secret".to_string()),
            Some("https://auth.example/introspect".to_string()),
        )
        .unwrap(),
    );
    let step = authenticate_step(
        &strategy,
        Some("Bearer t"),
        Evidence::Introspection(answered(Some(true), Some(response(true, "u1", &["user"])))),
    );
    match step {
        AuthStep::Accept(p) => {
            assert_eq!(p.subject, "u1");
            assert_eq!(p.roles, vec!["user".to_string()]);
        }
        other => panic!("not accepted: {:?}", other),
    }
    let step = authenticate_step(
        &strategy,
        Some("Bearer t"),
        Evidence::Introspection(answered(Some(false), Some(response(true, "u1", &["user"])))),
    );
    assert_eq!(step, AuthStep::Reject(AuthError::InvalidToken));
}
