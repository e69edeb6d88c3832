//! User accounts, and the passwords of those that log in with a login name.
use vstd::prelude::*;
use vstd::utf8::encode_utf8;

use crate::bytes_equal;
use crate::crypto::random_bytes;
use crate::model::ModelError;

verus! {

/// The length, in bytes, of the salt that a password is hashed with.
pub const SALT_LEN: usize = 16;

/// What `argon2::Argon2::default()` hashes `password` with `salt` to: the raw hash bytes.
pub uninterp spec fn argon2_default_hash(password: Seq<u8>, salt: Seq<u8>) -> Seq<u8>;

/// Whether Argon2 takes `password` and `salt` as they are: a salt of 8 to 48 bytes and a
/// password of at most `u32::MAX` bytes.
pub open spec fn argon2_accepts(password: Seq<u8>, salt: Seq<u8>) -> bool {
    &&& 8 <= salt.len() <= 48
    &&& password.len() <= 0xFFFF_FFFF
}

/// Calls `argon2::PasswordHasher::hash_password_with_salt` on `argon2::Argon2::default()`
/// and keeps the hash bytes of the result.
///
/// Trusted: the call succeeds exactly where the crate accepts the password and the salt
/// (its only checks are the salt's length, 8 to 48 bytes, and the password's, at most
/// `u32::MAX` bytes), and a success holds the hash bytes (the crate always fills them in),
/// which are a function of the password and the salt alone. Left unsaid: the crate also
/// answers an error where the allocator cannot give it its working memory; that failure,
/// as every failed allocation, is outside what this contract speaks of.
#[verifier::external_body]
fn argon2_hash_password_with_salt(password: &[u8], salt: &[u8]) -> (r: Result<
    Option<Vec<u8>>,
    argon2::password_hash::Error,
>)
    ensures
        r is Ok <==> argon2_accepts(password@, salt@),
        r matches Ok(h) ==> (h matches Some(v) && v@ == argon2_default_hash(password@, salt@)),
{
    argon2::PasswordHasher::hash_password_with_salt(&argon2::Argon2::default(), password, salt).map(
        |h: argon2::password_hash::phc::PasswordHash| h.hash.map(|o| o.as_bytes().to_vec()),
    )
}

/// Whether `password` is the one whose hash with `salt` is `stored`.
pub open spec fn password_matches(stored: Seq<u8>, salt: Seq<u8>, password: Seq<u8>) -> bool {
    stored == argon2_default_hash(password, salt)
}

/// Whether logging in to `account` with `password` succeeds: Argon2 takes the password
/// and the stored salt, and their hash is the stored one.
pub open spec fn login_accepted(account: UserWithPassword, password: Seq<u8>) -> bool {
    &&& argon2_accepts(password, account.spec_salt().unwrap())
    &&& password_matches(account.spec_password_hash().unwrap(), account.spec_salt().unwrap(), password)
}

/// Whether logging in to `account` with `password` is refused: Argon2 takes the password
/// and the stored salt, and their hash is not the stored one.
pub open spec fn login_refused(account: UserWithPassword, password: Seq<u8>) -> bool {
    &&& argon2_accepts(password, account.spec_salt().unwrap())
    &&& !password_matches(account.spec_password_hash().unwrap(), account.spec_salt().unwrap(), password)
}

/// A user account.
#[derive(Clone, Debug)]
pub struct User {
    id: i64,
    display_name: String,
    discord_id: Option<String>,
    login_name: Option<String>,
}

/// A user account together with its password hash and salt, as the database stores it.
#[derive(Clone, Debug)]
pub struct UserWithPassword {
    id: i64,
    display_name: String,
    discord_id: Option<String>,
    login_name: Option<String>,
    password_hash: Option<Vec<u8>>,
    salt: Option<Vec<u8>>,
}

/// The ways to name a user: by primary key, by login name, or by Discord id.
#[derive(Debug)]
pub enum UserId<'a> {
    PrimaryKey(i64),
    LoginName(&'a str),
    DiscordId(&'a str),
}

/// What a user enters to log in.
#[derive(Debug)]
pub struct LoginParams {
    pub login_name: String,
    pub password: String,
}

/// What a user enters to sign up with a login name.
#[derive(Debug)]
pub struct SignUpParams {
    pub login_name: String,
    pub display_name: String,
    pub password: String,
}

/// The view of an optional string.
pub open spec fn opt_view(s: Option<String>) -> Option<Seq<char>> {
    match s {
        Some(s) => Some(s@),
        None => None,
    }
}

/// The view of optional bytes.
pub open spec fn opt_bytes(b: Option<Vec<u8>>) -> Option<Seq<u8>> {
    match b {
        Some(b) => Some(b@),
        None => None,
    }
}

fn as_deref(s: &Option<String>) -> (r: Option<&str>)
    ensures
        r is Some <==> s is Some,
        r matches Some(t) ==> t@ == s.unwrap()@,
{
    match s {
        Some(s) => Some(s.as_str()),
        None => None,
    }
}

impl User {
    /// The user with the given columns, as a database row holds them.
    pub fn from_row(id: i64, display_name: String, discord_id: Option<String>, login_name: Option<String>) -> (r:
        Self)
        ensures
            r.spec_id() == id,
            r.spec_display_name() == display_name@,
            r.spec_discord_id() == opt_view(discord_id),
            r.spec_login_name() == opt_view(login_name),
    {
        User { id, display_name, discord_id, login_name }
    }

    /// The user's primary key.
    pub closed spec fn spec_id(&self) -> i64 {
        self.id
    }

    /// The name the user is shown with.
    pub closed spec fn spec_display_name(&self) -> Seq<char> {
        self.display_name@
    }

    /// The user's Discord id, where the account is linked to Discord.
    pub closed spec fn spec_discord_id(&self) -> Option<Seq<char>> {
        opt_view(self.discord_id)
    }

    /// The user's login name, where the account logs in with one.
    pub closed spec fn spec_login_name(&self) -> Option<Seq<char>> {
        opt_view(self.login_name)
    }

    /// The user's primary key.
    pub fn id(&self) -> (r: i64)
        ensures
            r == self.spec_id(),
    {
        self.id
    }

    /// The name the user is shown with.
    pub fn display_name(&self) -> (r: &str)
        ensures
            r@ == self.spec_display_name(),
    {
        self.display_name.as_str()
    }

    /// The user's login name, where the account logs in with one.
    pub fn login_name(&self) -> (r: Option<&str>)
        ensures
            r is Some <==> self.spec_login_name() is Some,
            r matches Some(s) ==> Some(s@) == self.spec_login_name(),
    {
        as_deref(&self.login_name)
    }

    /// The user's Discord id, where the account is linked to Discord.
    pub fn discord_id(&self) -> (r: Option<&str>)
        ensures
            r is Some <==> self.spec_discord_id() is Some,
            r matches Some(s) ==> Some(s@) == self.spec_discord_id(),
    {
        as_deref(&self.discord_id)
    }

    /// Logs in with `params`, given the account that the database holds under the login
    /// name (`fetched`): `Ok(None)` where there is no such account or the password does not
    /// match, the account where it does, and the hashing error where the password and the
    /// stored salt cannot be hashed together.
    pub fn authenticate(fetched: Option<UserWithPassword>, params: &LoginParams) -> (r: Result<
        Option<Self>,
        ModelError,
    >)
        requires
            fetched matches Some(u) ==> u.has_credentials(),
        ensures
            fetched is None ==> r matches Ok(None),
            fetched matches Some(u) ==> (r matches Ok(Some(_)) <==> login_accepted(u, encode_utf8(params.password@))),
            fetched matches Some(u) ==> (r matches Ok(None) <==> login_refused(u, encode_utf8(params.password@))),
            r matches Ok(Some(user)) ==> fetched matches Some(u) && user.same_account(u),
            r matches Err(e) ==> e is PasswordHashError,
    {
        let user = match fetched {
            Some(user) => user,
            None => return Ok(None),
        };
        let salt = match &user.salt {
            Some(salt) => salt,
            None => vstd::pervasive::unreached(),
        };
        let computed = match argon2_hash_password_with_salt(params.password.as_str().as_bytes(), salt.as_slice()) {
            Ok(Some(hash)) => hash,
            Ok(None) => vstd::pervasive::unreached(),
            Err(e) => return Err(ModelError::PasswordHashError(e)),
        };
        Ok(user.check_password(computed.as_slice()))
    }

    /// Whether this user is the account `u` without its password.
    pub open spec fn same_account(self, u: UserWithPassword) -> bool {
        &&& self.spec_id() == u.spec_id()
        &&& self.spec_display_name() == u.spec_display_name()
        &&& self.spec_discord_id() == u.spec_discord_id()
        &&& self.spec_login_name() == u.spec_login_name()
    }
}

impl UserWithPassword {
    /// The account with the given columns, as a database row holds them.
    pub fn from_row(
        id: i64,
        display_name: String,
        discord_id: Option<String>,
        login_name: Option<String>,
        password_hash: Option<Vec<u8>>,
        salt: Option<Vec<u8>>,
    ) -> (r: Self)
        ensures
            r.spec_id() == id,
            r.spec_display_name() == display_name@,
            r.spec_discord_id() == opt_view(discord_id),
            r.spec_login_name() == opt_view(login_name),
            r.spec_password_hash() == opt_bytes(password_hash),
            r.spec_salt() == opt_bytes(salt),
    {
        UserWithPassword { id, display_name, discord_id, login_name, password_hash, salt }
    }

    /// The account's primary key.
    pub closed spec fn spec_id(&self) -> i64 {
        self.id
    }

    /// The name the account is shown with.
    pub closed spec fn spec_display_name(&self) -> Seq<char> {
        self.display_name@
    }

    /// The account's Discord id, where it is linked to Discord.
    pub closed spec fn spec_discord_id(&self) -> Option<Seq<char>> {
        opt_view(self.discord_id)
    }

    /// The account's login name, where it logs in with one.
    pub closed spec fn spec_login_name(&self) -> Option<Seq<char>> {
        opt_view(self.login_name)
    }

    /// The stored password hash.
    pub closed spec fn spec_password_hash(&self) -> Option<Seq<u8>> {
        opt_bytes(self.password_hash)
    }

    /// The salt that the password was hashed with.
    pub closed spec fn spec_salt(&self) -> Option<Seq<u8>> {
        opt_bytes(self.salt)
    }

    /// Whether the account has both a password hash and a salt, as every account with a
    /// login name has.
    pub open spec fn has_credentials(&self) -> bool {
        self.spec_password_hash() is Some && self.spec_salt() is Some
    }

    /// The account, where `computed` (the hash of the password entered) equals the stored
    /// hash; `None` where it does not.
    pub fn check_password(self, computed: &[u8]) -> (r: Option<User>)
        requires
            self.has_credentials(),
        ensures
            r is Some <==> self.spec_password_hash() == Some(computed@),
            r matches Some(user) ==> user.same_account(self),
    {
        let matches = match &self.password_hash {
            Some(stored) => bytes_equal(stored.as_slice(), computed),
            None => vstd::pervasive::unreached(),
        };
        if matches {
            Some(User::from(self))
        } else {
            None
        }
    }
}

impl From<UserWithPassword> for User {
    fn from(value: UserWithPassword) -> (r: Self) {
        Self {
            id: value.id,
            display_name: value.display_name,
            discord_id: value.discord_id,
            login_name: value.login_name,
        }
    }
}

impl vstd::std_specs::convert::FromSpecImpl<UserWithPassword> for User {
    open spec fn obeys_from_spec() -> bool {
        true
    }

    closed spec fn from_spec(v: UserWithPassword) -> Self {
        User {
            id: v.id,
            display_name: v.display_name,
            discord_id: v.discord_id,
            login_name: v.login_name,
        }
    }
}

/// The credentials of a new account: a fresh random salt of `SALT_LEN` bytes from `rng`,
/// and the hash of `password` with it; the hashing error where the password cannot be
/// hashed (where it is longer than `u32::MAX` bytes).
pub fn new_credentials(password: &str, rng: &mut rand::rngs::StdRng) -> (r: Result<
    (Vec<u8>, [u8; SALT_LEN]),
    ModelError,
>)
    ensures
        r is Ok <==> encode_utf8(password@).len() <= 0xFFFF_FFFF,
        r matches Ok((hash, salt)) ==> salt@.len() == SALT_LEN && password_matches(
            hash@,
            salt@,
            encode_utf8(password@),
        ),
        r matches Err(e) ==> e is PasswordHashError,
{
    let salt = random_bytes::<SALT_LEN>(rng);
    match argon2_hash_password_with_salt(password.as_bytes(), salt.as_slice()) {
        Ok(Some(hash)) => Ok((hash, salt)),
        Ok(None) => vstd::pervasive::unreached(),
        Err(e) => Err(ModelError::PasswordHashError(e)),
    }
}

/// Signing up and then logging in with the same password gives back the account: where an
/// account stores a hash and a salt that `new_credentials` made for `password` (a salt of
/// `SALT_LEN` bytes and the hash of `password` with it), logging in with `password` is
/// accepted.
pub proof fn lemma_sign_up_then_log_in(
    account: UserWithPassword,
    hash: Seq<u8>,
    salt: Seq<u8>,
    password: Seq<u8>,
)
    requires
        salt.len() == SALT_LEN,
        password_matches(hash, salt, password),
        account.spec_password_hash() == Some(hash),
        account.spec_salt() == Some(salt),
    ensures
        password.len() <= 0xFFFF_FFFF ==> login_accepted(account, password),
        !login_refused(account, password),
{
}

/// A wrong password is refused: where the password entered is not the one that the stored
/// hash was made from with the stored salt, logging in answers no account (and no error)
/// wherever Argon2 takes the password and the salt.
pub proof fn lemma_wrong_password_refused(account: UserWithPassword, password: Seq<u8>)
    requires
        account.has_credentials(),
        argon2_accepts(password, account.spec_salt().unwrap()),
        account.spec_password_hash().unwrap() != argon2_default_hash(password, account.spec_salt().unwrap()),
    ensures
        login_refused(account, password),
        !login_accepted(account, password),
{
}

} // verus!
