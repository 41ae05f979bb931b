//! Session claims and request claims: how they are built from a subject and
//! when a decoded set of claims is accepted.
use vstd::prelude::*;
use crate::config::AuthConfig;
use crate::error::{AuthError, AuthErrorType};
use crate::user::User;

verus! {

/// Clock tolerance, in seconds, on both edges of a token's lifetime.
pub const LEEWAY: u64 = 5;

/// `now` lies in `[iat, exp]` widened by the leeway on both sides.
pub open spec fn within_window(exp: u64, iat: u64, now: u64) -> bool {
    &&& now <= exp + LEEWAY
    &&& iat <= now + LEEWAY
}

/// Decoded claims are accepted at `now`: issuer and audience are the
/// configured ones and `now` is within the lifetime window.
pub open spec fn claims_accepted(
    iss: Seq<char>,
    aud: Seq<char>,
    exp: u64,
    iat: u64,
    cfg: AuthConfig,
    now: u64,
) -> bool {
    &&& iss == cfg.issuer@
    &&& aud == cfg.audience@
    &&& within_window(exp, iat, now)
}

/// The roles of a session: admins are users too.
pub open spec fn roles_for(is_admin: bool) -> Seq<Seq<char>> {
    if is_admin {
        seq!["admin"@, "user"@]
    } else {
        seq!["user"@]
    }
}

fn check_window(exp: u64, iat: u64, now: u64) -> (r: bool)
    ensures
        r == within_window(exp, iat, now),
{
    (now <= exp || now - exp <= LEEWAY) && (iat <= now || iat - now <= LEEWAY)
}

fn check_claims(iss: &String, aud: &String, exp: u64, iat: u64, cfg: &AuthConfig, now: u64) -> (r:
    Result<(), AuthError>)
    ensures
        r is Ok <==> claims_accepted(iss@, aud@, exp, iat, *cfg, now),
        r matches Err(e) ==> e.is_of(AuthErrorType::InvalidToken),
{
    if crate::codec::str_eq(iss.as_str(), cfg.issuer.as_str()) && crate::codec::str_eq(
        aud.as_str(),
        cfg.audience.as_str(),
    ) && check_window(exp, iat, now) {
        Ok(())
    } else {
        Err(AuthError::from_type(AuthErrorType::InvalidToken))
    }
}

fn role_list(is_admin: bool) -> (r: Vec<String>)
    ensures
        r@.map_values(|s: String| s@) == roles_for(is_admin),
{
    let mut roles: Vec<String> = Vec::new();
    if is_admin {
        roles.push("admin".to_string());
    }
    roles.push("user".to_string());
    assert(roles@.map_values(|s: String| s@) =~= roles_for(is_admin));
    roles
}

/// Claims of a long-lived session token.
#[derive(Debug)]
pub struct AuthClaims {
    pub iss: String,
    pub sub: String,
    pub aud: String,
    pub exp: u64,
    pub role: Vec<String>,
    pub iat: u64,
}

impl AuthClaims {
    pub open spec fn roles(&self) -> Seq<Seq<char>> {
        self.role@.map_values(|s: String| s@)
    }

    /// Accepted at `now` under `cfg`.
    pub open spec fn accepted(&self, cfg: AuthConfig, now: u64) -> bool {
        claims_accepted(self.iss@, self.aud@, self.exp, self.iat, cfg, now)
    }

    /// Session claims for the user that the store found for the subject,
    /// issued at `now`. When the store found nothing, that is a server-side fault.
    pub fn new(cfg: &AuthConfig, found: Option<&User>, now: u64) -> (r: Result<AuthClaims, AuthError>)
        requires
            now + cfg.auth_token_lifetime <= u64::MAX,
        ensures
            found is None ==> (r matches Err(e) && e.is_of(AuthErrorType::ServerError)),
            found matches Some(u) ==> (r matches Ok(c) && c.sub@ == u.uuid@ && c.roles()
                == roles_for(u.is_admin) && c.iss@ == cfg.issuer@ && c.aud@ == cfg.audience@
                && c.exp == now + cfg.auth_token_lifetime && c.iat == now),
    {
        match found {
            None => Err(AuthError::from_type(AuthErrorType::ServerError)),
            Some(user) => Ok(
                AuthClaims {
                    iss: cfg.issuer.clone(),
                    sub: user.uuid.clone(),
                    aud: cfg.audience.clone(),
                    exp: now + cfg.auth_token_lifetime,
                    role: role_list(user.is_admin),
                    iat: now,
                },
            ),
        }
    }

    /// Template claims with an empty subject and the plain user role.
    pub fn default(cfg: &AuthConfig, now: u64) -> (r: AuthClaims)
        requires
            now + cfg.auth_token_lifetime <= u64::MAX,
        ensures
            r.sub@.len() == 0,
            r.roles() == roles_for(false),
            r.iss@ == cfg.issuer@,
            r.aud@ == cfg.audience@,
            r.exp == now + cfg.auth_token_lifetime,
            r.iat == now,
    {
        AuthClaims {
            iss: cfg.issuer.clone(),
            sub: String::new(),
            aud: cfg.audience.clone(),
            exp: now + cfg.auth_token_lifetime,
            role: role_list(false),
            iat: now,
        }
    }

    /// Checks issuer, audience and lifetime of decoded claims.
    pub fn check(&self, cfg: &AuthConfig, now: u64) -> (r: Result<(), AuthError>)
        ensures
            r is Ok <==> self.accepted(*cfg, now),
            r matches Err(e) ==> e.is_of(AuthErrorType::InvalidToken),
    {
        check_claims(&self.iss, &self.aud, self.exp, self.iat, cfg, now)
    }
}

/// Claims of a short-lived token that authorizes a single next step.
#[derive(Debug)]
pub struct AuthRequestClaims {
    pub iss: String,
    pub sub: String,
    pub aud: String,
    pub exp: u64,
    pub iat: u64,
}

impl AuthRequestClaims {
    /// Accepted at `now` under `cfg`.
    pub open spec fn accepted(&self, cfg: AuthConfig, now: u64) -> bool {
        claims_accepted(self.iss@, self.aud@, self.exp, self.iat, cfg, now)
    }

    /// Request claims for a subject, issued at `now`; no store lookup.
    pub fn new(cfg: &AuthConfig, uuid: String, now: u64) -> (r: AuthRequestClaims)
        requires
            now + cfg.request_token_lifetime <= u64::MAX,
        ensures
            r.sub@ == uuid@,
            r.iss@ == cfg.issuer@,
            r.aud@ == cfg.audience@,
            r.exp == now + cfg.request_token_lifetime,
            r.iat == now,
    {
        AuthRequestClaims {
            iss: cfg.issuer.clone(),
            sub: uuid,
            aud: cfg.audience.clone(),
            exp: now + cfg.request_token_lifetime,
            iat: now,
        }
    }

    /// Template claims with an empty subject.
    pub fn default(cfg: &AuthConfig, now: u64) -> (r: AuthRequestClaims)
        requires
            now + cfg.request_token_lifetime <= u64::MAX,
        ensures
            r.sub@.len() == 0,
            r.iss@ == cfg.issuer@,
            r.aud@ == cfg.audience@,
            r.exp == now + cfg.request_token_lifetime,
            r.iat == now,
    {
        AuthRequestClaims::new(cfg, String::new(), now)
    }

    /// Checks issuer, audience and lifetime of decoded claims.
    pub fn check(&self, cfg: &AuthConfig, now: u64) -> (r: Result<(), AuthError>)
        ensures
            r is Ok <==> self.accepted(*cfg, now),
            r matches Err(e) ==> e.is_of(AuthErrorType::InvalidToken),
    {
        check_claims(&self.iss, &self.aud, self.exp, self.iat, cfg, now)
    }
}

/// Claims issued at `issued` with the configured issuer and audience are
/// accepted at every time from `issued - LEEWAY` to `issued + lifetime + LEEWAY`.
pub proof fn lemma_fresh_claims_accepted(cfg: AuthConfig, lifetime: u64, issued: u64, now: u64)
    requires
        issued + lifetime <= u64::MAX,
        issued <= now + LEEWAY,
        now <= issued + lifetime + LEEWAY,
    ensures
        claims_accepted(cfg.issuer@, cfg.audience@, (issued + lifetime) as u64, issued, cfg, now),
{
}

/// Claims issued `lifetime + LEEWAY + 1` seconds before `now`, with expiry
/// `lifetime` after issue, are rejected at `now`.
pub proof fn lemma_expired_rejected(
    iss: Seq<char>,
    aud: Seq<char>,
    cfg: AuthConfig,
    lifetime: u64,
    now: u64,
)
    requires
        now >= lifetime + LEEWAY + 1,
    ensures
        !claims_accepted(
            iss,
            aud,
            (now - LEEWAY - 1) as u64,
            (now - (lifetime + LEEWAY + 1)) as u64,
            cfg,
            now,
        ),
{
}

/// With matching issuer and audience and `iat <= exp`, claims are accepted
/// exactly `LEEWAY` seconds after expiry and rejected one second later.
pub proof fn lemma_leeway_boundary(cfg: AuthConfig, exp: u64, iat: u64)
    requires
        iat <= exp,
        exp + LEEWAY + 1 <= u64::MAX,
    ensures
        claims_accepted(cfg.issuer@, cfg.audience@, exp, iat, cfg, (exp + LEEWAY) as u64),
        !claims_accepted(cfg.issuer@, cfg.audience@, exp, iat, cfg, (exp + LEEWAY + 1) as u64),
{
}

/// Claims for another audience, or from another issuer, are never accepted,
/// whatever their lifetime says.
pub proof fn lemma_identity_mismatch_rejected(
    iss: Seq<char>,
    aud: Seq<char>,
    exp: u64,
    iat: u64,
    cfg: AuthConfig,
    now: u64,
)
    requires
        aud != cfg.audience@ || iss != cfg.issuer@,
    ensures
        !claims_accepted(iss, aud, exp, iat, cfg, now),
{
}

} // verus!
