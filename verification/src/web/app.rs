//! The pages of the web app.
use vstd::prelude::*;

pub mod auth;

verus! {

/// Where the log-in and sign-up pages are, below the app's path.
pub const AUTH_PATH: &'static str = "";

} // verus!
