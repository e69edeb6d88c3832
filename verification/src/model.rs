//! The records that the server keeps: users and cups.
use vstd::prelude::*;

use crate::snowflake::SnowflakeError;

pub mod cup;
pub mod user;

verus! {

#[verifier::external_type_specification]
#[verifier::external_body]
pub struct ExSqlError(sqlx::Error);

#[verifier::external_type_specification]
#[verifier::external_body]
pub struct ExPasswordHashError(argon2::password_hash::Error);

/// Why reading or writing a record failed.
#[derive(Debug)]
pub enum ModelError {
    /// The database refused the query.
    SqlError(sqlx::Error),
    /// A password could not be hashed.
    PasswordHashError(argon2::password_hash::Error),
    /// A snowflake id could not be made.
    SnowflakeError(SnowflakeError),
}

impl From<argon2::password_hash::Error> for ModelError {
    fn from(value: argon2::password_hash::Error) -> (r: Self) {
        ModelError::PasswordHashError(value)
    }
}

impl vstd::std_specs::convert::FromSpecImpl<argon2::password_hash::Error> for ModelError {
    open spec fn obeys_from_spec() -> bool {
        true
    }

    open spec fn from_spec(v: argon2::password_hash::Error) -> Self {
        ModelError::PasswordHashError(v)
    }
}

/// How the database stores a flag: any value but 0 is true.
pub open spec fn flag_of(value: i64) -> bool {
    value != 0
}

/// The flag that the database value `value` stands for.
pub fn i64_to_bool(value: i64) -> (r: bool)
    ensures
        r == flag_of(value),
{
    value != 0
}

} // verus!
