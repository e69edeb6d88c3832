//! An authenticator that holds the secret which user tokens are signed with.
use vstd::prelude::*;

pub use crate::token::UserClaims;

verus! {

/// Why a user token was refused by an `Auth`.
#[derive(Debug)]
pub enum AuthError {
    /// The token could not be encoded, decoded or verified.
    JwtError(jsonwebtoken::errors::Error),
    /// The token's expiry time has passed.
    TokenExpired,
}

/// Holds the secret that user tokens are signed and checked with.
pub struct Auth {
    secret: Box<[u8]>,
}

impl View for Auth {
    /// The secret.
    type V = Seq<u8>;

    closed spec fn view(&self) -> Seq<u8> {
        self.secret@
    }
}

impl Auth {
    /// An authenticator with the given secret.
    pub fn new(secret: Box<[u8]>) -> (r: Self)
        ensures
            r@ == secret@,
    {
        Self { secret }
    }

    /// The secret that tokens are signed with.
    pub fn secret(&self) -> (r: &[u8])
        ensures
            r@ == self@,
    {
        &*self.secret
    }
}

} // verus!
