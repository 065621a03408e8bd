//! The identity-token refresh flow: which refresh cookie to trust, what to
//! do when the refresh fails, how to fall back to a fresh user, and how the
//! response is assembled. Token issuance itself and cookie transport are the
//! edge's business; these are the decisions between them.
use vstd::prelude::*;

use crate::auth::{has_refresh, Claims, UserRecord};
use crate::ctx::AccessKind;
use crate::error::EngineError;
use crate::ids::{gen_uuid_v4, lemma_uuid_hyphenated_len, uuid_hyphenated, uuid_string};

verus! {

/// How long an issued identity token lives, in milliseconds.
pub const TOKEN_TTL: i64 = 15 * 60 * 1000;

/// How long an issued refresh token lives, in milliseconds.
pub const REFRESH_TOKEN_TTL: i64 = 90 * 24 * 60 * 60 * 1000;

/// The cookie the refresh token travels in.
pub const USER_REFRESH_TOKEN_COOKIE: &'static str = "user_refresh_token";

/// What decoding one presented cookie yielded: garbage (skipped, the next
/// cookie may still decode), a decodable but no longer valid token, or valid
/// claims.
pub enum DecodeOutcome {
    Undecodable,
    Invalid,
    Valid(Claims),
}

/// One presented refresh-token cookie with its decode outcome.
pub struct RefreshCookie {
    pub token: String,
    pub outcome: DecodeOutcome,
}

/// The index of the first cookie at or after `i` that decoded at all.
pub open spec fn first_decodable(cookies: Seq<RefreshCookie>, i: int) -> Option<int>
    decreases cookies.len() - i,
{
    if i < 0 || i >= cookies.len() {
        None
    } else if !(cookies[i].outcome is Undecodable) {
        Some(i)
    } else {
        first_decodable(cookies, i + 1)
    }
}

/// Pick the refresh token to renew with: none on logout; otherwise the first
/// cookie that decodes decides — it is used exactly when it is valid and
/// carries a refresh entitlement, and a failure of that one cookie is final.
pub fn select_refresh_token(logout: bool, cookies: &Vec<RefreshCookie>) -> (r: Option<String>)
    ensures
        logout ==> r is None,
        !logout ==> match first_decodable(cookies@, 0) {
            None => r is None,
            Some(i) => match cookies@[i].outcome {
                DecodeOutcome::Undecodable => true,
                DecodeOutcome::Invalid => r is None,
                DecodeOutcome::Valid(c) => if has_refresh(c.entitlements@) {
                    r matches Some(t) && t@ == cookies@[i].token@
                } else {
                    r is None
                },
            },
        },
{
    if logout {
        return None;
    }
    let n = cookies.len();
    let mut i: usize = 0;
    while i < n
        invariant
            n == cookies@.len(),
            0 <= i <= n,
            !logout,
            first_decodable(cookies@, 0) == first_decodable(cookies@, i as int),
        decreases n - i,
    {
        match &cookies[i].outcome {
            DecodeOutcome::Undecodable => {
                i += 1;
            },
            DecodeOutcome::Invalid => {
                return None;
            },
            DecodeOutcome::Valid(claims) => {
                if claims.as_refresh().is_ok() {
                    return Some(cookies[i].token.clone());
                }
                return None;
            },
        }
    }
    None
}

/// Whether a failed token refresh must clear the stored refresh cookie: only
/// when the refresh token is unknown to the issuer or already revoked.
pub fn refresh_failure_clears_cookie(e: &EngineError) -> (r: bool)
    ensures
        r == (*e == EngineError::TokenRefreshNotFound || *e == EngineError::TokenRevoked),
{
    match e {
        EngineError::TokenRefreshNotFound => true,
        EngineError::TokenRevoked => true,
        _ => false,
    }
}

/// How a session is established when no refresh token can be used.
#[derive(Clone, Copy, Debug, PartialEq, Eq, Structural)]
pub enum FallbackUserPlan {
    /// Register a new guest user under a fresh id, then issue its token.
    RegisterGuest { user_id: u128 },
    /// Look up the deployment's default user (development access only).
    ResolveDefaultUser,
}

/// Decide the fallback: development deployments resolve the default user,
/// all others register a fresh guest.
pub fn fallback_user_plan(access_kind: AccessKind) -> (r: FallbackUserPlan)
    ensures
        (access_kind == AccessKind::Development) <==> (r == FallbackUserPlan::ResolveDefaultUser),
{
    match access_kind {
        AccessKind::Public => FallbackUserPlan::RegisterGuest { user_id: gen_uuid_v4() },
        AccessKind::Private => FallbackUserPlan::RegisterGuest { user_id: gen_uuid_v4() },
        AccessKind::Development => FallbackUserPlan::ResolveDefaultUser,
    }
}

/// An issued token pair must carry a refresh token; an empty one is a bug in
/// the issuance path, not something to hand to a client.
pub fn require_refresh_token(refresh_token: &String) -> (r: Result<(), EngineError>)
    ensures
        r is Ok <==> refresh_token@.len() > 0,
        r matches Err(e) ==> e is Validation,
{
    if refresh_token.as_str().is_empty() {
        Err(EngineError::Validation { message: "missing refresh token".to_owned() })
    } else {
        Ok(())
    }
}

/// Whether the freshly authenticated user turns out deleted and the session
/// must be revoked instead of served: only when the session came from a
/// refresh token and deletion has completed.
pub fn deleted_user_must_revoke(has_refresh_token: bool, user: &UserRecord) -> (r: bool)
    ensures
        r == (has_refresh_token && user.delete_complete_ts is Some),
{
    has_refresh_token && user.delete_complete_ts.is_some()
}

/// The response of the identity-token endpoint.
pub struct IdentityTokenResponse {
    pub token: String,
    pub exp: i64,
    pub identity_id: String,
}

/// Assemble the response: the issued token, its expiry (zero when the claims
/// carry none), and the user id rendered canonically.
pub fn identity_response(token: String, exp: Option<i64>, user_id: u128) -> (r:
    IdentityTokenResponse)
    ensures
        r.token == token,
        r.exp == (match exp {
            Some(e) => e,
            None => 0i64,
        }),
        r.identity_id@ == uuid_hyphenated(user_id),
        r.identity_id@.len() == 36,
{
    let exp: i64 = match exp {
        Some(e) => e,
        None => 0,
    };
    proof {
        lemma_uuid_hyphenated_len(user_id);
    }
    IdentityTokenResponse { token, exp, identity_id: uuid_string(user_id) }
}

} // verus!
