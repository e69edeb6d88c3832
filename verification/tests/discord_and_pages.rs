use grand_music_cup::api::{authorize_discord_outcome, DiscordTokenClaims};
use grand_music_cup::discord::{DiscordClient, DiscordUser, DISCORD_URL, SCOPES};
use grand_music_cup::spotify::SpotifyClientConfig;
use grand_music_cup::web::api::html::player_cap_enabled;
use grand_music_cup::web::app::auth::{discord_auth_url, DISCORD_AUTH_PATH, LOG_IN_PATH, SIGN_UP_PATH};

fn client() -> DiscordClient {
    DiscordClient { client_id: "abc".to_string(), client_secret: "shh".to_string() }
}

#[test]
fn authorization_url_carries_the_query() {
    let url = client().get_authorization_url("http://localhost:8464/log-in/discord", None);
    assert_eq!(
        url,
        "https://discord.com/oauth2/authorize?client_id=abc&response_type=code&redirect_uri=http%3A%2F%2Flocalhost%3A8464%2Flog-in%2Fdiscord&scope=identify"
    );
}

#[test]
fn authorization_url_carries_the_state() {
    let url = client().get_authorization_url("cb", Some("x y"));
    assert_eq!(url, "https://discord.com/oauth2/authorize?client_id=abc&response_type=code&redirect_uri=cb&scope=identify&state=x+y");
}

#[test]
fn discord_constants() {
    assert_eq!(DISCORD_URL, "https://discord.com");
    assert_eq!(SCOPES, ["identify"]);
    let user = DiscordUser { id: "1".to_string(), username: "u".to_string(), avatar: "a".to_string() };
    assert_eq!(user.clone().username, "u");
}

#[test]
fn discord_auth_url_appends_the_callback_path() {
    assert_eq!(discord_auth_url("http://127.0.0.1:8464"), "http://127.0.0.1:8464/log-in/discord");
    assert_eq!(DISCORD_AUTH_PATH, "/log-in/discord");
    assert_eq!(LOG_IN_PATH, "/log-in");
    assert_eq!(SIGN_UP_PATH, "/sign-up");
}

#[test]
fn player_cap_follows_the_checkbox() {
    assert!(player_cap_enabled(Some("on")));
    assert!(!player_cap_enabled(Some("off")));
    assert!(!player_cap_enabled(Some("on ")));
    assert!(!player_cap_enabled(None));
}

#[test]
fn a_known_discord_user_is_signed_in() {
    let r = authorize_discord_outcome(Some(12), 900, "u".to_string(), None, "http://s", 1_000);
    assert_eq!(r.message, "signed in :3");
    assert_eq!(r.next_location, "http://s");
    match r.claims {
        DiscordTokenClaims::Auth(c) => {
            assert_eq!(c.sub, 12);
            assert_eq!(c.exp, 1_000 + 7 * 86_400);
        }
        DiscordTokenClaims::SignUp(_) => panic!("expected a sign-in"),
    }
}

#[test]
fn a_new_discord_user_is_sent_to_sign_up() {
    let r = authorize_discord_outcome(None, u64::MAX, "u".to_string(), Some("h".to_string()), "http://s", 1_000);
    assert_eq!(r.message, "continue!");
    assert_eq!(r.next_location, "http://s/sign-up/discord");
    match r.claims {
        DiscordTokenClaims::SignUp(c) => {
            assert_eq!(c.sub, -1);
            assert_eq!(c.exp, 1_000 + 86_400);
            assert_eq!(c.username, "u");
            assert_eq!(c.avatar_hash.as_deref(), Some("h"));
        }
        DiscordTokenClaims::Auth(_) => panic!("expected a sign-up"),
    }
}

#[test]
fn spotify_config_holds_its_values() {
    let c = SpotifyClientConfig {
        client_id: "i".to_string(),
        client_secret: "s".to_string(),
        oauth_callback_url: "http://127.0.0.1:8463".to_string(),
        authorization_code: None,
        refresh_interval: std::time::Duration::from_secs(30 * 60),
    };
    assert_eq!(c.refresh_interval.as_secs(), 1800);
}

#[test]
fn token_cookies_are_rendered_for_headers() {
    assert_eq!(
        grand_music_cup::web::app::auth::user_token_cookie("abc", 604_800_000),
        "token=abc; Path=/; Max-Age=604800"
    );
    assert_eq!(grand_music_cup::api::discord_token_cookie("abc"), "token=abc; SameSite=Strict; Path=/");
}

#[test]
fn token_cookie_ages_are_whole_seconds() {
    assert_eq!(grand_music_cup::web::app::auth::user_token_cookie("t", 1_999), "token=t; Path=/; Max-Age=1");
    assert_eq!(grand_music_cup::web::app::auth::user_token_cookie("t", 999), "token=t; Path=/; Max-Age=0");
    assert_eq!(
        grand_music_cup::web::app::auth::user_token_cookie("t", u64::MAX as u128),
        "token=t; Path=/; Max-Age=0"
    );
    assert_eq!(
        grand_music_cup::web::app::auth::user_token_cookie("t", (u64::MAX - 2_499) as u128),
        "token=t; Path=/; Max-Age=-2"
    );
}
