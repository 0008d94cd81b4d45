//! The identity that authentication produces.

use vstd::prelude::*;

verus! {

/// The claims read from a token's payload.
#[derive(Debug, PartialEq, Eq)]
pub struct Claims {
    pub sub: String,
}

/// A verified caller. The subject names the caller's storage namespace; roles
/// and raw claims are carried along and never interpreted.
#[derive(Debug, PartialEq, Eq)]
pub struct Principal {
    pub subject: String,
    pub roles: Vec<String>,
    pub raw_claims: Vec<u8>,
}

impl Principal {
    /// A principal is valid only with a subject that is not empty.
    pub open spec fn wf(&self) -> bool {
        self.subject@.len() > 0
    }

    /// Builds a principal, or nothing where the subject is empty.
    pub fn new(subject: String, roles: Vec<String>, raw_claims: Vec<u8>) -> (made: Option<
        Principal,
    >)
        ensures
            made is Some <==> subject@.len() > 0,
            made matches Some(p) ==> p.wf() && p.subject == subject && p.roles == roles
                && p.raw_claims == raw_claims,
    {
        if subject.as_str().is_empty() {
            None
        } else {
            Some(Principal { subject, roles, raw_claims })
        }
    }

    /// The principal that a set of claims stands for, with no roles, or nothing
    /// where the subject claim is empty.
    pub fn from_claims(claims: Claims, raw_claims: Vec<u8>) -> (made: Option<Principal>)
        ensures
            made is Some <==> claims.sub@.len() > 0,
            made matches Some(p) ==> p.wf() && p.subject == claims.sub && p.roles@.len() == 0
                && p.raw_claims == raw_claims,
    {
        Principal::new(claims.sub, Vec::new(), raw_claims)
    }
}

} // verus!
