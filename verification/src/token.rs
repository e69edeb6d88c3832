//! Log-in tokens: the claims they carry, when they are issued, and when they are
//! accepted.
use vstd::prelude::*;

verus! {

/// For how many days a user token stays valid.
pub const TOKEN_EXPIRATION_DAYS: u64 = 7;

/// Hours in a day.
pub const HOURS_PER_DAY: u64 = 24;

/// How long a user token stays valid, in milliseconds: seven days.
pub open spec fn token_lifetime_millis() -> int {
    TOKEN_EXPIRATION_DAYS * HOURS_PER_DAY * 3_600_000
}

/// A user token stays valid for seven days of 24 hours, counted in milliseconds.
pub proof fn lemma_token_lifetime_is_a_week()
    ensures
        token_lifetime_millis() == 7 * 24 * 60 * 60 * 1000,
{
}

/// Why a token was refused.
#[derive(Debug)]
pub enum TokenError {
    /// The token could not be encoded, decoded or verified.
    JwtError(jsonwebtoken::errors::Error),
    /// The token's expiry time has passed.
    TokenExpired,
}

#[verifier::external_type_specification]
#[verifier::external_body]
pub struct ExJwtError(jsonwebtoken::errors::Error);

/// The claims of a user token: whose it is (`sub`, the user's id) and until when it is
/// valid (`exp`, in milliseconds since the Unix epoch).
#[derive(Clone, Copy, Debug, PartialEq, Eq)]
pub struct UserClaims {
    sub: i64,
    exp: u64,
}

impl UserClaims {
    /// The claims with the given subject and expiry time.
    pub fn new(sub: i64, exp: u64) -> (r: Self)
        ensures
            r.spec_sub() == sub,
            r.spec_exp() == exp,
    {
        UserClaims { sub, exp }
    }

    /// The user id that the claims are about.
    pub closed spec fn spec_sub(self) -> i64 {
        self.sub
    }

    /// The expiry time, in milliseconds since the Unix epoch.
    pub closed spec fn spec_exp(self) -> u64 {
        self.exp
    }

    /// The user id that the claims are about.
    pub fn sub(&self) -> (r: i64)
        ensures
            r == self.spec_sub(),
    {
        self.sub
    }

    /// The expiry time, in milliseconds since the Unix epoch.
    pub fn exp(&self) -> (r: u64)
        ensures
            r == self.spec_exp(),
    {
        self.exp
    }
}

/// How long a user token stays valid, in milliseconds.
pub fn token_lifetime() -> (r: u128)
    ensures
        r == token_lifetime_millis(),
        r == 7 * 24 * 60 * 60 * 1000,
{
    (TOKEN_EXPIRATION_DAYS * HOURS_PER_DAY) as u128 * 3_600_000
}

/// The claims of a token for the user `user_id` issued at `now_millis` (milliseconds since
/// the Unix epoch): it expires `token_lifetime` later, a time kept in 64 bits, so that the
/// bits above those are dropped.
pub fn user_claims(user_id: i64, now_millis: u128) -> (r: UserClaims)
    requires
        now_millis + token_lifetime_millis() <= u128::MAX,
    ensures
        r.spec_sub() == user_id,
        r.spec_exp() as int == (now_millis + token_lifetime_millis()) % 0x1_0000_0000_0000_0000,
        r.spec_exp() as int == (now_millis + 7 * 24 * 60 * 60 * 1000) % 0x1_0000_0000_0000_0000,
        now_millis + 7 * 24 * 60 * 60 * 1000 < 0x1_0000_0000_0000_0000
            ==> r.spec_exp() as int == now_millis + 7 * 24 * 60 * 60 * 1000,
{
    let exp = (now_millis + token_lifetime()) as u64;
    assert(exp as int == (now_millis + token_lifetime_millis()) % 0x1_0000_0000_0000_0000) by (bit_vector)
        requires
            exp == (now_millis + 604_800_000u128) as u64,
            now_millis + 604_800_000u128 <= u128::MAX,
    ;
    UserClaims { sub: user_id, exp }
}

/// Checks decoded `claims` at `now_millis`: `TokenExpired` where the expiry time lies
/// before now, the user id otherwise.
pub fn check_user_claims(claims: &UserClaims, now_millis: u128) -> (r: Result<i64, TokenError>)
    ensures
        r is Ok <==> now_millis <= claims.spec_exp(),
        r matches Ok(id) ==> id == claims.spec_sub(),
        r matches Err(e) ==> e is TokenExpired,
{
    if (claims.exp as u128) < now_millis {
        Err(TokenError::TokenExpired)
    } else {
        Ok(claims.sub)
    }
}

/// A token is accepted from the moment it is issued until its lifetime has passed, and
/// refused after that, wherever the expiry time fits in 64 bits: the claims issued for
/// `user_id` at `issued` pass the check at `now` exactly when `now` lies no later than
/// `token_lifetime_millis()` after `issued`, and then they give back `user_id`.
pub proof fn lemma_token_accepted_within_lifetime(user_id: i64, issued: u128, now: u128, claims: UserClaims)
    requires
        issued + token_lifetime_millis() < 0x1_0000_0000_0000_0000,
        claims.spec_sub() == user_id,
        claims.spec_exp() as int == (issued + token_lifetime_millis()) % 0x1_0000_0000_0000_0000,
    ensures
        (now <= claims.spec_exp()) <==> now <= issued + token_lifetime_millis(),
        claims.spec_sub() == user_id,
{
}

} // verus!
