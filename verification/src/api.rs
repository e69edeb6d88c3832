//! The API's Discord sign-in: what a user who comes back from Discord is answered.
use vstd::prelude::*;


verus! {

/// For how many days the token of a signed-in user is valid.
pub const AUTH_TOKEN_EXPIRATION_DAYS: i64 = 7;

/// For how many days the token that lets a new Discord user finish signing up is valid.
pub const DISCORD_SIGN_UP_TOKEN_EXPIRATION_DAYS: i64 = 1;

/// Seconds in a day (in UTC, every day has as many).
pub const SECONDS_PER_DAY: i64 = 86_400;

/// The claims of the token of a signed-in user: whose it is (`sub`, the user's id) and
/// until when it is valid (`exp`, a Unix timestamp).
#[derive(Debug)]
pub struct AuthTokenClaims {
    pub exp: usize,
    pub sub: i64,
}

/// The claims of the token that lets a new Discord user finish signing up: their Discord
/// id (`sub`), name and avatar, and until when it is valid (`exp`, a Unix timestamp).
#[derive(Debug)]
pub struct DiscordSignUpTokenClaims {
    pub exp: usize,
    pub sub: i64,
    pub username: String,
    pub avatar_hash: Option<String>,
}

/// The claims of the token that a user who comes back from Discord is given.
#[derive(Debug)]
pub enum DiscordTokenClaims {
    Auth(AuthTokenClaims),
    SignUp(DiscordSignUpTokenClaims),
}

/// What a user who comes back from Discord is answered: a message, where to go next, and
/// the claims of the token they are given.
#[derive(Debug)]
pub struct DiscordAuthorization {
    pub message: String,
    pub next_location: String,
    pub claims: DiscordTokenClaims,
}

/// When a browser sends a cookie along with a request that another site started.
#[derive(Clone, Copy, Debug, PartialEq, Eq)]
pub enum CookieSameSite {
    /// Only with requests that the cookie's own site started.
    Strict,
    /// Also when the user follows a link from another site.
    Lax,
    /// With every request; such a cookie is also marked `Secure`.
    Unrestricted,
}

/// The attributes that a cookie's same-site policy adds to its `Set-Cookie` header.
pub open spec fn same_site_attributes(same_site: CookieSameSite) -> Seq<char> {
    match same_site {
        CookieSameSite::Strict => "; SameSite=Strict"@,
        CookieSameSite::Lax => "; SameSite=Lax"@,
        CookieSameSite::Unrestricted => "; SameSite=None; Secure"@,
    }
}

/// The value of a `Set-Cookie` header for a cookie named `name`, holding `value`, with the
/// policy `same_site`, for the paths under `path`.
pub open spec fn same_site_cookie(name: Seq<char>, value: Seq<char>, same_site: CookieSameSite, path: Seq<char>) -> Seq<
    char,
> {
    name + "="@ + value + same_site_attributes(same_site) + "; Path="@ + path
}

/// Builds a cookie with a same-site policy and a path through
/// `axum_extra::extract::cookie::Cookie::build`, and renders it with `to_string`.
///
/// Trusted: the crate renders such a cookie as its name, `=`, its value, then
/// `; SameSite=` with the policy's name, `; Secure` where the policy is unrestricted (`SameSite=None`; no
/// `secure` flag was set, and the crate adds it for that policy alone), and `; Path=`
/// with the path; neither a domain nor an age was set.
#[verifier::external_body]
fn same_site_cookie_header(name: &str, value: &str, same_site: CookieSameSite, path: &str) -> (r: String)
    ensures
        r@ == same_site_cookie(name@, value@, same_site, path@),
{
    let same_site = match same_site {
        CookieSameSite::Strict => axum_extra::extract::cookie::SameSite::Strict,
        CookieSameSite::Lax => axum_extra::extract::cookie::SameSite::Lax,
        CookieSameSite::Unrestricted => axum_extra::extract::cookie::SameSite::None,
    };
    axum_extra::extract::cookie::Cookie::build((name, value)).same_site(same_site).path(path).build().to_string()
}

/// The `Set-Cookie` header value that hands a user who came back from Discord their token:
/// a same-site-strict cookie named `token` for the whole site.
pub fn discord_token_cookie(token: &str) -> (r: String)
    ensures
        r@ == same_site_cookie("token"@, token@, CookieSameSite::Strict, "/"@),
        r@ == "token="@ + token@ + "; SameSite=Strict; Path=/"@,
{
    let r = same_site_cookie_header("token", token, CookieSameSite::Strict, "/");
    proof {
        reveal_strlit("token");
        reveal_strlit("=");
        reveal_strlit("token=");
        reveal_strlit("; SameSite=Strict");
        reveal_strlit("; Path=");
        reveal_strlit("/");
        reveal_strlit("; SameSite=Strict; Path=/");
        assert(r@ =~= "token="@ + token@ + "; SameSite=Strict; Path=/"@);
    }
    r
}

/// The Unix timestamp `days` days after `now`, kept as a `usize` (as the token's `exp`
/// claim is), which drops the bits above its width and wraps negative timestamps.
pub open spec fn expiry_after_days(now: i64, days: i64) -> usize {
    (now + days * SECONDS_PER_DAY) as usize
}

/// A token's expiry time is the moment `days` whole days of 86 400 seconds after `now`,
/// wherever that moment is not before 1970 and fits in a `usize`.
pub proof fn lemma_expiry_is_days_later(now: i64, days: i64)
    requires
        0 <= days,
        0 <= now + days * 86_400 <= usize::MAX,
    ensures
        expiry_after_days(now, days) as int == now + days * 86_400,
{
}

/// The answer to the Discord user `discord_user_id` (named `username`, with the avatar
/// `avatar_hash`), who comes back from Discord at the Unix timestamp `now`, to the server
/// at `server_uri`. Where the database already holds an account with their Discord id
/// (`existing_user_id`, its primary key), they are signed in with a token for a week;
/// otherwise they are sent on to the sign-up page with a token for a day that carries what
/// Discord told about them.
pub fn authorize_discord_outcome(
    existing_user_id: Option<i64>,
    discord_user_id: u64,
    username: String,
    avatar_hash: Option<String>,
    server_uri: &str,
    now: i64,
) -> (r: DiscordAuthorization)
    requires
        now <= i64::MAX - AUTH_TOKEN_EXPIRATION_DAYS * SECONDS_PER_DAY,
    ensures
        existing_user_id matches Some(id) ==> {
            &&& r.message@ == "signed in :3"@
            &&& r.next_location@ == server_uri@
            &&& r.claims matches DiscordTokenClaims::Auth(c)
            &&& c.sub == id
            &&& c.exp == expiry_after_days(now, AUTH_TOKEN_EXPIRATION_DAYS)
            &&& 0 <= now + 7 * 86_400 <= usize::MAX ==> c.exp as int == now + 7 * 86_400
        },
        existing_user_id is None ==> {
            &&& r.message@ == "continue!"@
            &&& r.next_location@ == server_uri@ + "/sign-up/discord"@
            &&& r.claims matches DiscordTokenClaims::SignUp(c)
            &&& c.sub == discord_user_id as i64
            &&& c.username@ == username@
            &&& c.avatar_hash == avatar_hash
            &&& c.exp == expiry_after_days(now, DISCORD_SIGN_UP_TOKEN_EXPIRATION_DAYS)
            &&& 0 <= now + 86_400 <= usize::MAX ==> c.exp as int == now + 86_400
        },
{
    match existing_user_id {
        Some(id) => {
            // this account has already been set up
            let exp = (now + AUTH_TOKEN_EXPIRATION_DAYS * SECONDS_PER_DAY) as usize;
            DiscordAuthorization {
                message: String::from_str("signed in :3"),
                next_location: String::from_str(server_uri),
                claims: DiscordTokenClaims::Auth(AuthTokenClaims { exp, sub: id }),
            }
        },
        None => {
            let exp = (now + DISCORD_SIGN_UP_TOKEN_EXPIRATION_DAYS * SECONDS_PER_DAY) as usize;
            let mut next_location = String::from_str(server_uri);
            next_location.append("/sign-up/discord");
            DiscordAuthorization {
                message: String::from_str("continue!"),
                next_location,
                claims: DiscordTokenClaims::SignUp(
                    DiscordSignUpTokenClaims { exp, sub: discord_user_id as i64, username, avatar_hash },
                ),
            }
        },
    }
}

} // verus!
