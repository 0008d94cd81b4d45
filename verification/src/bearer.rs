//! Taking the bearer token out of an `Authorization` header.

use crate::errors::AuthError;
use vstd::prelude::*;
use vstd::string::*;

verus! {

/// The blank characters that may part the scheme from the token.
pub open spec fn is_space(c: char) -> bool {
    c == ' ' || c == '\t' || c == '\n' || c == '\r'
}

/// Whether `value` begins with the word `Bearer` and one blank character.
pub open spec fn has_bearer_prefix(value: Seq<char>) -> bool {
    &&& value.len() >= 7
    &&& value[0] == 'B'
    &&& value[1] == 'e'
    &&& value[2] == 'a'
    &&& value[3] == 'r'
    &&& value[4] == 'e'
    &&& value[5] == 'r'
    &&& is_space(value[6])
}

/// The header's value without its leading `Bearer` prefix, where it has one.
pub open spec fn strip_bearer(value: Seq<char>) -> Seq<char> {
    if has_bearer_prefix(value) {
        value.subrange(7, value.len() as int)
    } else {
        value
    }
}

/// The token that a header carries: what is left of the value once the prefix
/// is gone, if anything is left.
pub open spec fn bearer_token_of(header: Option<Seq<char>>) -> Result<Seq<char>, AuthError> {
    match header {
        None => Err(AuthError::MissingToken),
        Some(value) => if strip_bearer(value).len() == 0 {
            Err(AuthError::MissingToken)
        } else {
            Ok(strip_bearer(value))
        },
    }
}

/// The header as the specification sees it.
pub open spec fn header_view(header: Option<&str>) -> Option<Seq<char>> {
    match header {
        None => None,
        Some(value) => Some(value@),
    }
}

/// Decides `is_space` for one character.
pub fn space_char(c: char) -> (blank: bool)
    ensures
        blank == is_space(c),
{
    c == ' ' || c == '\t' || c == '\n' || c == '\r'
}

/// Extracts the bearer token from the value of the `Authorization` header,
/// if the request has one. Fails with `MissingToken` where the header is
/// absent or holds nothing but the prefix.
pub fn bearer_token(header: Option<&str>) -> (token: Result<String, AuthError>)
    ensures
        match token {
            Ok(t) => bearer_token_of(header_view(header)) == Ok::<Seq<char>, AuthError>(t@),
            Err(e) => bearer_token_of(header_view(header)) == Err::<Seq<char>, AuthError>(e),
        },
{
    match header {
        None => Err(AuthError::MissingToken),
        Some(value) => {
            let n: usize = value.unicode_len();
            let prefixed = n >= 7 && value.get_char(0) == 'B' && value.get_char(1) == 'e'
                && value.get_char(2) == 'a' && value.get_char(3) == 'r' && value.get_char(4)
                == 'e' && value.get_char(5) == 'r' && space_char(value.get_char(6));
            let rest: &str = if prefixed {
                value.substring_char(7, n)
            } else {
                value
            };
            if rest.is_empty() {
                Err(AuthError::MissingToken)
            } else {
                Ok(String::from_str(rest))
            }
        },
    }
}

} // verus!
