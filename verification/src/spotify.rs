//! The configuration of the Spotify client.
use vstd::prelude::*;

verus! {

/// The OAuth scopes that the app asks Spotify for.
pub const SCOPES: [&'static str; 1] = ["playlist-modify-public"];

/// How to set up the Spotify client: the app's credentials, the URL that Spotify sends the
/// user back to, an authorization code where one is at hand, and how often the access
/// token is refreshed.
#[derive(Debug)]
pub struct SpotifyClientConfig {
    pub client_id: String,
    pub client_secret: String,
    pub oauth_callback_url: String,
    pub authorization_code: Option<String>,
    pub refresh_interval: core::time::Duration,
}

} // verus!
