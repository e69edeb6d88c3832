//! The logic of the grand music cup web server: snowflake ids, user accounts and their
//! passwords, log-in tokens, cups and their participants, and the Discord sign-in flow.
use vstd::prelude::*;

pub mod api;
pub mod auth;
pub mod config;
pub mod crypto;
pub mod discord;
pub mod model;
pub mod snowflake;
pub mod spotify;
pub mod token;
pub mod utc;
pub mod web;

verus! {

/// Where the pages of the web app are served, below the server's URL.
pub const APP_PATH: &'static str = "";

/// Where the API is served, below the server's URL.
pub const API_PATH: &'static str = "/api";

/// Whether `a` and `b` hold the same bytes.
pub fn bytes_equal(a: &[u8], b: &[u8]) -> (r: bool)
    ensures
        r == (a@ == b@),
{
    if a.len() != b.len() {
        return false;
    }
    let mut i: usize = 0;
    while i < a.len()
        invariant
            i <= a@.len(),
            a@.len() == b@.len(),
            forall|j: int| 0 <= j < i ==> a@[j] == b@[j],
        decreases a@.len() - i,
    {
        if a[i] != b[i] {
            return false;
        }
        i = i + 1;
    }
    assert(a@ =~= b@);
    true
}

/// Whether `a` and `b` are the same text.
pub fn str_equal(a: &str, b: &str) -> (r: bool)
    ensures
        r == (a@ == b@),
{
    proof {
        vstd::utf8::encode_utf8_decode_utf8(a@);
        vstd::utf8::encode_utf8_decode_utf8(b@);
    }
    bytes_equal(a.as_bytes(), b.as_bytes())
}

/// An unsigned integer that fits in ten bits.
#[derive(Clone, Copy, Debug)]
pub struct U10(u16);

impl View for U10 {
    type V = u16;

    closed spec fn view(&self) -> u16 {
        self.0
    }
}

impl U10 {
    pub const BITS: usize = 10;
    pub const MAX: u16 = 0b11111_11111;
    pub const MIN: u16 = 0;

    #[verifier::type_invariant]
    closed spec fn fits(self) -> bool {
        self.0 <= 0x3FF
    }

    /// `value` as a `U10`; `None` where it does not fit in ten bits.
    pub fn new(value: u16) -> (r: Option<Self>)
        ensures
            r is Some <==> value <= 0x3FF,
            r matches Some(v) ==> v@ == value,
    {
        if value > Self::MAX {
            None
        } else {
            Some(Self(value))
        }
    }

    /// The value, as a `u16`.
    pub fn as_u16(&self) -> (r: u16)
        ensures
            r == self@,
            r <= 0x3FF,
    {
        proof { use_type_invariant(self); }
        self.0
    }
}

#[verifier::external_type_specification]
#[verifier::external_body]
pub struct ExSystemTime(std::time::SystemTime);

#[verifier::external_type_specification]
#[verifier::external_body]
pub struct ExSystemTimeError(std::time::SystemTimeError);

/// Calls `std::time::SystemTime::now`. Nothing is claimed of the instant it returns,
/// which depends on the clock.
#[verifier::external_body]
fn system_time_now() -> std::time::SystemTime {
    std::time::SystemTime::now()
}

/// Calls `std::time::SystemTime::duration_since` with `std::time::UNIX_EPOCH`. Nothing
/// is claimed of the outcome: the instant is opaque here.
#[verifier::external_body]
fn duration_since_unix_epoch(t: &std::time::SystemTime) -> Result<
    core::time::Duration,
    std::time::SystemTimeError,
> {
    t.duration_since(std::time::UNIX_EPOCH)
}

/// Calls `core::time::Duration::as_millis`. Nothing is claimed of the number it returns:
/// the duration is opaque here.
#[verifier::external_body]
fn duration_as_millis(d: &core::time::Duration) -> u128 {
    d.as_millis()
}

/// Milliseconds since the Unix epoch, as the system clock reports them; `None` where the
/// clock reads a time before the epoch.
pub fn current_millis() -> (r: Option<u128>) {
    match duration_since_unix_epoch(&system_time_now()) {
        Ok(d) => Some(duration_as_millis(&d)),
        Err(_) => None,
    }
}

} // verus!
