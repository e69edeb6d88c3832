use grand_music_cup::model::cup::{Cup, CupRecord, Participant, PositiveU32};
use grand_music_cup::model::i64_to_bool;
use grand_music_cup::model::user::{new_credentials, LoginParams, User, UserId, UserWithPassword, SALT_LEN};
use grand_music_cup::model::ModelError;
use rand::rngs::StdRng;
use rand::SeedableRng;

fn account(password: &str) -> UserWithPassword {
    let mut rng = StdRng::seed_from_u64(11);
    let (hash, salt) = new_credentials(password, &mut rng).unwrap();
    UserWithPassword::from_row(
        12,
        "Twelve".to_string(),
        None,
        Some("twelve".to_string()),
        Some(hash),
        Some(salt.to_vec()),
    )
}

fn log_in(password: &str) -> LoginParams {
    LoginParams { login_name: "twelve".to_string(), password: password.to_string() }
}

#[test]
fn sign_up_then_log_in_with_the_same_password() {
    let user = User::authenticate(Some(account("hunter42")), &log_in("hunter42")).unwrap().unwrap();
    assert_eq!(user.id(), 12);
    assert_eq!(user.display_name(), "Twelve");
    assert_eq!(user.login_name(), Some("twelve"));
    assert_eq!(user.discord_id(), None);
}

#[test]
fn log_in_with_another_password_is_refused() {
    assert!(User::authenticate(Some(account("hunter42")), &log_in("hunter43")).unwrap().is_none());
}

#[test]
fn log_in_without_an_account_is_refused() {
    assert!(User::authenticate(None, &log_in("hunter42")).unwrap().is_none());
}

#[test]
fn credentials_hold_a_hash_not_the_password() {
    let mut rng = StdRng::seed_from_u64(3);
    let (hash, salt) = new_credentials("hunter42", &mut rng).unwrap();
    assert_eq!(salt.len(), SALT_LEN);
    assert_eq!(hash.len(), 32);
    assert_ne!(hash, b"hunter42".to_vec());
    let mut rng = StdRng::seed_from_u64(4);
    let (other_hash, other_salt) = new_credentials("hunter42", &mut rng).unwrap();
    assert_ne!(salt, other_salt);
    assert_ne!(hash, other_hash);
}

#[test]
fn check_password_compares_hashes() {
    let account = UserWithPassword::from_row(1, "One".to_string(), Some("99".to_string()), None, Some(vec![1, 2, 3]), Some(vec![0; 16]));
    assert!(account.clone().check_password(&[1, 2, 4]).is_none());
    assert!(account.clone().check_password(&[1, 2]).is_none());
    let user = account.check_password(&[1, 2, 3]).unwrap();
    assert_eq!(user.discord_id(), Some("99"));
    assert_eq!(User::from(UserWithPassword::from_row(2, "Two".to_string(), None, None, None, None)).id(), 2);
}

#[test]
fn hashing_errors_become_model_errors() {
    let err: ModelError = argon2::password_hash::Error::SaltInvalid.into();
    assert!(matches!(err, ModelError::PasswordHashError(_)));
}

#[test]
fn database_flags() {
    assert!(i64_to_bool(1));
    assert!(i64_to_bool(-1));
    assert!(!i64_to_bool(0));
}

#[test]
fn participants_are_active_or_not() {
    let active = Participant::from_row(UserId::PrimaryKey(5), 1);
    let inactive = Participant::from_row(UserId::PrimaryKey(6), 0);
    assert!(active.is_active());
    assert!(!active.is_inactive());
    assert!(inactive.is_inactive());
    assert!(!inactive.is_active());
    assert!(matches!(active.as_ref(), UserId::PrimaryKey(5)));
    assert!(matches!(inactive.as_owned(), UserId::PrimaryKey(6)));
    let p = Participant::Active(User::from_row(3, "Three".to_string(), None, None));
    assert_eq!(p.as_owned().display_name(), "Three");
}

fn record(next: Option<i64>) -> CupRecord {
    CupRecord {
        id: 77,
        name: "summer".to_string(),
        description: "songs of summer".to_string(),
        owner_id: 12,
        max_players: Some(0x1_0000_0010),
        current_round_number: Some(2),
        submission_time_ms: 60_000,
        voting_time_ms: 30_000,
        next_action_timestamp_ms: next,
        vote_allocation: 10,
    }
}

#[test]
fn cups_are_read_from_records() {
    let cup = Cup::from_record(record(Some(1_700_000_000)));
    assert_eq!(cup.id(), 77);
    let shown = format!("{:?}", cup);
    assert!(shown.contains("max_players: Some(16)"));
    assert!(shown.contains("current_round_number: Some(2)"));
    assert!(shown.contains("unix_timestamp: 1700000000"));
    assert!(shown.contains("owner: PrimaryKey(12)"));
    let cup = Cup::from_record(record(None));
    assert!(format!("{:?}", cup).contains("next_action_timestamp: None"));
}

#[test]
fn a_salt_that_argon2_refuses_is_a_hashing_error() {
    let account = UserWithPassword::from_row(1, "One".to_string(), None, Some("one".to_string()), Some(vec![0; 32]), Some(vec![1, 2, 3]));
    let r = User::authenticate(Some(account), &LoginParams { login_name: "one".to_string(), password: "pw".to_string() });
    assert!(matches!(r, Err(ModelError::PasswordHashError(_))));
}

#[test]
fn credentials_are_always_made_for_an_ordinary_password() {
    let mut rng = StdRng::seed_from_u64(8);
    let (hash, salt) = new_credentials("", &mut rng).unwrap();
    assert_eq!(salt.len(), 16);
    assert_eq!(hash.len(), 32);
}

#[test]
fn a_salt_longer_than_argon2_takes_is_a_hashing_error() {
    let account = UserWithPassword::from_row(1, "One".to_string(), None, Some("one".to_string()), Some(vec![0; 32]), Some(vec![1; 49]));
    let r = User::authenticate(Some(account), &LoginParams { login_name: "one".to_string(), password: "pw".to_string() });
    assert!(matches!(r, Err(ModelError::PasswordHashError(_))));
}

#[test]
fn a_wrong_password_with_an_eight_byte_salt_is_refused_without_error() {
    let account = UserWithPassword::from_row(1, "One".to_string(), None, Some("one".to_string()), Some(vec![0; 32]), Some(vec![1; 8]));
    let r = User::authenticate(Some(account), &LoginParams { login_name: "one".to_string(), password: "pw".to_string() });
    assert!(matches!(r, Ok(None)));
}

#[test]
fn positive_numbers_refuse_zero() {
    assert!(PositiveU32::new(0).is_none());
    assert_eq!(PositiveU32::new(1).unwrap().get(), 1);
    assert_eq!(PositiveU32::new(u32::MAX).unwrap().get(), u32::MAX);
}
