use grand_music_cup::auth::Auth;
use grand_music_cup::config::{server_url, web_settings};
use grand_music_cup::crypto::{new_jwt_secret, random_bytes, SECRET_LEN};
use grand_music_cup::token::{check_user_claims, token_lifetime, user_claims, TokenError, UserClaims};
use rand::rngs::StdRng;
use rand::SeedableRng;

#[test]
fn token_lifetime_is_seven_days() {
    assert_eq!(token_lifetime(), 7 * 24 * 60 * 60 * 1000);
}

#[test]
fn user_claims_expire_a_week_after_issue() {
    let claims = user_claims(42, 1_700_000_000_000);
    assert_eq!(claims.sub(), 42);
    assert_eq!(claims.exp(), 1_700_000_000_000 + 604_800_000);
}

#[test]
fn user_claims_keep_the_low_64_bits_of_the_expiry() {
    let claims = user_claims(1, u64::MAX as u128);
    assert_eq!(claims.exp(), 604_800_000 - 1);
}

#[test]
fn claims_are_accepted_until_they_expire() {
    let issued = 1_700_000_000_000u128;
    let claims = user_claims(7, issued);
    assert_eq!(check_user_claims(&claims, issued).unwrap(), 7);
    assert_eq!(check_user_claims(&claims, issued + 604_800_000).unwrap(), 7);
    assert!(matches!(check_user_claims(&claims, issued + 604_800_001), Err(TokenError::TokenExpired)));
}

#[test]
fn claims_can_be_rebuilt() {
    let claims = UserClaims::new(-3, 9);
    assert_eq!(claims.sub(), -3);
    assert_eq!(claims.exp(), 9);
    assert!(matches!(check_user_claims(&claims, 10), Err(TokenError::TokenExpired)));
}

#[test]
fn auth_keeps_its_secret() {
    let auth = Auth::new(vec![1u8, 2, 3].into_boxed_slice());
    assert_eq!(auth.secret(), &[1u8, 2, 3][..]);
}

#[test]
fn random_bytes_are_drawn_from_the_rng() {
    let mut rng = StdRng::seed_from_u64(7);
    let a = random_bytes::<16>(&mut rng);
    let b = random_bytes::<16>(&mut rng);
    assert_eq!(a.len(), 16);
    assert_ne!(a, b);
    assert_ne!(a, [0u8; 16]);
}

#[test]
fn a_generated_secret_is_accepted_by_the_configuration() {
    let mut rng = StdRng::seed_from_u64(1);
    let secret = new_jwt_secret(&mut rng);
    assert_eq!(secret.len(), 44);
    assert!(secret.ends_with('='));
    let settings = web_settings(3, Some(&secret), "127.0.0.1:8464", false).unwrap();
    assert_eq!(settings.jwt_secret.len(), SECRET_LEN);
    assert_eq!(settings.machine_id.as_u16(), 3);
    assert_eq!(settings.server_url, "http://127.0.0.1:8464");
}

#[test]
fn web_settings_decode_the_secret() {
    let settings = web_settings(0, Some("aGVsbG8="), "example.org", true).unwrap();
    assert_eq!(settings.jwt_secret, b"hello".to_vec());
    assert_eq!(settings.server_url, "https://example.org");
    assert!(web_settings(0, Some("not base64!"), "example.org", true).is_err());
}

#[test]
fn server_url_follows_https() {
    assert_eq!(server_url("a:1", true), "https://a:1");
    assert_eq!(server_url("a:1", false), "http://a:1");
}
