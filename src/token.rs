//! An issued token: the signed string and its scheme label.
use vstd::prelude::*;
use crate::codec::{sign_token, signed_token, token_payload};
use crate::error::AuthError;

verus! {

/// A signed token as handed to a client. Two tokens are the same exactly
/// when their strings are.
#[derive(Clone, Debug)]
pub struct AuthToken {
    pub access_token: String,
    pub token_type: String,
}

impl AuthToken {
    pub fn new(access_token: String) -> (r: AuthToken)
        ensures
            r.access_token@ == access_token@,
            r.token_type@ == "Bearer"@,
    {
        AuthToken { access_token, token_type: "Bearer".to_string() }
    }

    pub fn from_string(string: String) -> (r: AuthToken)
        ensures
            r.access_token@ == string@,
            r.token_type@ == "Bearer"@,
    {
        AuthToken { access_token: string, token_type: "Bearer".to_string() }
    }

    pub fn to_string(self) -> (r: String)
        ensures
            r@ == self.access_token@,
    {
        self.access_token
    }

    pub fn default() -> (r: AuthToken)
        ensures
            r.access_token@.len() == 0,
            r.token_type@ == "Bearer"@,
    {
        AuthToken { access_token: String::new(), token_type: "Bearer".to_string() }
    }
}

/// Signs the serialized claims `payload` under `secret` into a bearer token.
pub fn generate_token(payload: &Vec<u8>, secret: &Vec<u8>) -> (r: Result<AuthToken, AuthError>)
    ensures
        r matches Ok(t) && t.access_token@ == signed_token(payload@, secret@)
            && t.token_type@ == "Bearer"@ && token_payload(t.access_token@, secret@) == Some(
            payload@,
        ),
{
    match sign_token(payload, secret) {
        Ok(s) => Ok(AuthToken::new(s)),
        Err(e) => Err(e),
    }
}

} // verus!
