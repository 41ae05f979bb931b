//! Process-wide settings, read once at startup and passed by reference.
use vstd::prelude::*;

verus! {

/// Signing secret, expected audience and issuer, token lifetimes in seconds,
/// and the password salt.
///
/// One salt serves every credential, so equal passwords hash equally across
/// users. Stored hashes depend on it, so it is kept as configured rather than
/// replaced by a salt per credential; it weakens the scheme and is an open
/// design question.
pub struct AuthConfig {
    pub secret: Vec<u8>,
    pub audience: String,
    pub issuer: String,
    pub auth_token_lifetime: u64,
    pub request_token_lifetime: u64,
    pub salt: Vec<u8>,
}

/// Length in bytes of a bcrypt salt.
pub const SALT_LEN: usize = 16;

impl AuthConfig {
    pub open spec fn wf(&self) -> bool {
        self.salt@.len() == SALT_LEN
    }

    /// Builds the settings; the salt is the first sixteen bytes of
    /// `salt_text`, and there is none when it is shorter.
    pub fn new(
        secret: Vec<u8>,
        audience: String,
        issuer: String,
        auth_token_lifetime: u64,
        request_token_lifetime: u64,
        salt_text: &Vec<u8>,
    ) -> (r: Option<AuthConfig>)
        ensures
            (salt_text@.len() >= SALT_LEN) == (r is Some),
            r matches Some(c) ==> {
                &&& c.wf()
                &&& c.salt@ == salt_text@.subrange(0, SALT_LEN as int)
                &&& c.secret@ == secret@
                &&& c.audience@ == audience@
                &&& c.issuer@ == issuer@
                &&& c.auth_token_lifetime == auth_token_lifetime
                &&& c.request_token_lifetime == request_token_lifetime
            },
    {
        if salt_text.len() < SALT_LEN {
            return None;
        }
        let mut salt: Vec<u8> = Vec::new();
        let mut i: usize = 0;
        while i < SALT_LEN
            invariant
                i <= SALT_LEN <= salt_text@.len(),
                salt@ == salt_text@.subrange(0, i as int),
            decreases SALT_LEN - i,
        {
            salt.push(salt_text[i]);
            i = i + 1;
            assert(salt@ =~= salt_text@.subrange(0, i as int));
        }
        Some(
            AuthConfig {
                secret,
                audience,
                issuer,
                auth_token_lifetime,
                request_token_lifetime,
                salt,
            },
        )
    }
}

} // verus!
