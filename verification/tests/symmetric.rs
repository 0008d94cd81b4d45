use storage_gateway::errors::AuthError;
use storage_gateway::symmetric::{symmetric_verdict, SymmetricClaims};

fn claims(sub: &str, role: &str, token_type: &str, exp: u64) -> SymmetricClaims {
    SymmetricClaims {
        sub: sub.to_string(),
        role: role.to_string(),
        token_type: token_type.to_string(),
        exp,
    }
}

#[test]
fn a_valid_access_token_yields_subject_and_role() {
    let p = symmetric_verdict(true, Some(claims("u1", "admin", "access", 2000)), "access", 1000)
        .unwrap();
    assert_eq!(p.subject, "u1");
    assert_eq!(p.roles, vec!["admin".to_string()]);
    assert!(p.raw_claims.is_empty());
}

#[test]
fn a_token_whose_signature_failed_is_invalid() {
    assert_eq!(
        symmetric_verdict(false, Some(claims("u1", "admin", "access", 2000)), "access", 1000).err(),
        Some(AuthError::InvalidToken)
    );
    assert_eq!(symmetric_verdict(false, None, "access", 1000).err(), Some(AuthError::InvalidToken));
}

#[test]
fn an_expired_token_is_invalid_whatever_the_signature() {
    for signature_valid in [true, false] {
        assert_eq!(
            symmetric_verdict(
                signature_valid,
                Some(claims("u1", "admin", "access", 999)),
                "access",
                1000
            )
            .err(),
            Some(AuthError::InvalidToken)
        );
        assert_eq!(
            symmetric_verdict(signature_valid, Some(claims("u1", "admin", "access", 0)), "access", u64::MAX)
                .err(),
            Some(AuthError::InvalidToken)
        );
    }
}

#[test]
fn a_token_is_still_good_at_the_second_of_its_expiry() {
    assert!(symmetric_verdict(true, Some(claims("u1", "r", "access", 1000)), "access", 1000).is_ok());
    assert!(symmetric_verdict(true, Some(claims("u1", "r", "access", 1000)), "access", 1001).is_err());
}

#[test]
fn a_token_of_another_kind_is_invalid() {
    assert_eq!(
        symmetric_verdict(true, Some(claims("u1", "admin", "refresh", 2000)), "access", 1000).err(),
        Some(AuthError::InvalidToken)
    );
    assert_eq!(
        symmetric_verdict(true, Some(claims("u1", "admin", "Access", 2000)), "access", 1000).err(),
        Some(AuthError::InvalidToken)
    );
    assert_eq!(
        symmetric_verdict(true, Some(claims("u1", "admin", "", 2000)), "access", 1000).err(),
        Some(AuthError::InvalidToken)
    );
}

#[test]
fn claims_that_could_not_be_read_are_invalid() {
    assert_eq!(symmetric_verdict(true, None, "access", 1000).err(), Some(AuthError::InvalidToken));
}

#[test]
fn an_empty_subject_is_invalid() {
    assert_eq!(
        symmetric_verdict(true, Some(claims("", "admin", "access", 2000)), "access", 1000).err(),
        Some(AuthError::InvalidToken)
    );
}
