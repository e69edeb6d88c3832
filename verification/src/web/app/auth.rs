//! The log-in and sign-up pages.
use vstd::prelude::*;

use crate::web::app::AUTH_PATH;
use crate::APP_PATH;

verus! {

/// The path of the log-in page.
pub const LOG_IN_PATH: &'static str = "/log-in";

/// The path that Discord sends a user back to after they authorized the app.
pub const DISCORD_AUTH_PATH: &'static str = "/log-in/discord";

/// The path of the sign-up page.
pub const SIGN_UP_PATH: &'static str = "/sign-up";

/// The decimal digit `d` (below ten) as a character.
pub open spec fn digit_char(d: nat) -> char {
    (d + 48) as char
}

/// The decimal digits of `n`, most significant first, without leading zeros.
pub open spec fn decimal_digits(n: nat) -> Seq<char>
    decreases n,
{
    if n < 10 {
        seq![digit_char(n)]
    } else {
        decimal_digits(n / 10) + seq![digit_char(n % 10)]
    }
}

/// `i` written in decimal, with a leading `-` where it is negative.
pub open spec fn decimal(i: int) -> Seq<char> {
    if i < 0 {
        seq!['-'] + decimal_digits((-i) as nat)
    } else {
        decimal_digits(i as nat)
    }
}

/// The whole seconds in `ms` milliseconds, truncated toward zero.
pub open spec fn whole_seconds(ms: int) -> int {
    if ms < 0 {
        -((-ms) / 1000)
    } else {
        ms / 1000
    }
}

/// The number that the decimal digits `s` write, most significant first.
pub open spec fn digits_value(s: Seq<char>) -> int
    decreases s.len(),
{
    if s.len() == 0 {
        0
    } else {
        digits_value(s.drop_last()) * 10 + (s.last() as int - 48)
    }
}

/// Whether `c` is one of the digits `0` to `9`.
pub open spec fn is_digit(c: char) -> bool {
    '0' <= c <= '9'
}

/// The digits that `decimal_digits` writes read back the number: they are all decimal
/// digits, the first is `0` only for the number 0, and together they are worth `n`.
pub proof fn lemma_decimal_digits_read_back(n: nat)
    ensures
        decimal_digits(n).len() >= 1,
        forall|i: int| 0 <= i < decimal_digits(n).len() ==> is_digit(#[trigger] decimal_digits(n)[i]),
        decimal_digits(n)[0] == '0' ==> n == 0,
        digits_value(decimal_digits(n)) == n,
    decreases n,
{
    let s = decimal_digits(n);
    let d = (n % 10) as nat;
    assert(digit_char(d) as int == d + 48);
    if n >= 10 {
        lemma_decimal_digits_read_back(n / 10);
        assert(s.drop_last() =~= decimal_digits(n / 10));
        assert(s[0] == decimal_digits(n / 10)[0]);
        assert(s.last() == digit_char(d));
        assert(n == (n / 10) * 10 + d);
        assert(digits_value(s) == digits_value(s.drop_last()) * 10 + (s.last() as int - 48));
    } else {
        assert(d == n);
        assert(s.drop_last() =~= Seq::<char>::empty());
        assert(digits_value(s.drop_last()) == 0);
        assert(s.last() == digit_char(d));
        assert(digits_value(s) == digits_value(s.drop_last()) * 10 + (s.last() as int - 48));
    }
}

/// `decimal` writes a negative number as `-` followed by the digits of its magnitude, and
/// any other number as its digits alone.
pub proof fn lemma_decimal_sign(i: int)
    ensures
        i < 0 ==> decimal(i)[0] == '-' && decimal(i).drop_first() == decimal_digits((-i) as nat),
        i >= 0 ==> decimal(i) == decimal_digits(i as nat),
{
    if i < 0 {
        assert(decimal(i).drop_first() =~= decimal_digits((-i) as nat));
    }
}

/// `whole_seconds` truncates toward zero: it is the count of whole seconds in `ms`, and
/// what it leaves over is less than a second and has the sign of `ms`.
pub proof fn lemma_whole_seconds_truncates(ms: int)
    ensures
        ms >= 0 ==> whole_seconds(ms) >= 0 && 0 <= ms - whole_seconds(ms) * 1000 < 1000,
        ms < 0 ==> whole_seconds(ms) <= 0 && -1000 < ms - whole_seconds(ms) * 1000 <= 0,
{
}

/// The value of a `Set-Cookie` header for a cookie named `name`, holding `value`, for the
/// paths under `path`, kept for the whole seconds in `max_age_ms` milliseconds.
pub open spec fn cookie_with_max_age(name: Seq<char>, value: Seq<char>, path: Seq<char>, max_age_ms: int) -> Seq<char> {
    name + "="@ + value + "; Path="@ + path + "; Max-Age="@ + decimal(whole_seconds(max_age_ms))
}

/// Builds a cookie with a path and a maximum age through
/// `axum_extra::extract::cookie::Cookie::build`, and renders it with `to_string`.
///
/// Trusted: `time::SignedDuration::milliseconds` keeps the whole seconds of the count,
/// truncated toward zero, and the crate renders the cookie as its name, `=`, its value,
/// then `; Path=` with the path and `; Max-Age=` with those seconds in decimal.
#[verifier::external_body]
fn cookie_header_with_max_age(name: &str, value: &str, path: &str, max_age_ms: i64) -> (r: String)
    ensures
        r@ == cookie_with_max_age(name@, value@, path@, max_age_ms as int),
{
    axum_extra::extract::cookie::Cookie::build((name, value)).path(path).max_age(
        time::SignedDuration::milliseconds(max_age_ms),
    ).build().to_string()
}

/// The `Set-Cookie` header value that hands a user their token: a cookie named `token`
/// for the whole site, kept for `max_age_millis` (as a signed 64-bit count of
/// milliseconds, which drops the bits above those).
pub fn user_token_cookie(token: &str, max_age_millis: u128) -> (r: String)
    ensures
        r@ == cookie_with_max_age("token"@, token@, "/"@, (max_age_millis as i64) as int),
        r@ == "token="@ + token@ + "; Path=/; Max-Age="@ + decimal(whole_seconds((max_age_millis as i64) as int)),
{
    let r = cookie_header_with_max_age("token", token, "/", max_age_millis as i64);
    proof {
        reveal_strlit("token");
        reveal_strlit("=");
        reveal_strlit("token=");
        reveal_strlit("; Path=");
        reveal_strlit("/");
        reveal_strlit("; Max-Age=");
        reveal_strlit("; Path=/; Max-Age=");
        assert(r@ =~= "token="@ + token@ + "; Path=/; Max-Age="@ + decimal(whole_seconds((max_age_millis as i64) as int)));
    }
    r
}

/// The URL that Discord sends a user back to, for the server at `server_url`.
pub fn discord_auth_url(server_url: &str) -> (r: String)
    ensures
        r@ == server_url@ + APP_PATH@ + AUTH_PATH@ + DISCORD_AUTH_PATH@,
{
    let mut url = String::from_str(server_url);
    url.append(APP_PATH);
    url.append(AUTH_PATH);
    url.append(DISCORD_AUTH_PATH);
    url
}

} // verus!
