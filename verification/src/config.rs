//! What the server's configuration values become once they are read: the machine id for
//! snowflakes, the JWT secret and the server's own URL.
use vstd::prelude::*;

use crate::crypto::{base64_standard_decode, base64_standard_decoding, encodes_secret};
use crate::U10;

verus! {

/// The URL under which the server at `server_address` is reached: over `https` where it
/// is configured with a certificate, over `http` otherwise.
pub open spec fn server_url_of(server_address: Seq<char>, https: bool) -> Seq<char> {
    if https {
        "https://"@ + server_address
    } else {
        "http://"@ + server_address
    }
}

/// The scheme of the server's URL depends on the `https` flag alone: for every address,
/// the URL is `https://` followed by the address where the flag is set and `http://`
/// followed by it where it is not, and the two URLs differ.
pub proof fn lemma_scheme_follows_https(server_address: Seq<char>)
    ensures
        server_url_of(server_address, true) == "https://"@ + server_address,
        server_url_of(server_address, false) == "http://"@ + server_address,
        server_url_of(server_address, true) != server_url_of(server_address, false),
{
    reveal_strlit("https://");
    reveal_strlit("http://");
    let a = server_url_of(server_address, true);
    let b = server_url_of(server_address, false);
    assert(a[4] == 's');
    assert(b[4] == ':');
}

/// The JWT secret, as bytes, that `web_settings` takes from the configured text; `None`
/// where it refuses the text.
pub open spec fn configured_secret(text: Seq<char>) -> Option<Seq<u8>> {
    base64_standard_decoding(text)
}

/// A secret that `crate::crypto::new_jwt_secret` generates is one that `web_settings`
/// accepts, and the settings then hold the `SECRET_LEN` random bytes that it encodes.
pub proof fn lemma_generated_secret_accepted(secret: Seq<char>)
    requires
        exists|bytes: Seq<u8>| encodes_secret(secret, bytes),
    ensures
        configured_secret(secret) matches Some(bytes) && encodes_secret(secret, bytes),
        configured_secret(secret) matches Some(bytes) && bytes.len() == crate::crypto::SECRET_LEN,
{
    let bytes = choose|bytes: Seq<u8>| encodes_secret(secret, bytes);
    assert(configured_secret(secret) == Some(bytes));
}

/// The settings of the web app that follow from the configuration values.
#[derive(Debug)]
pub struct WebSettings {
    pub machine_id: U10,
    pub jwt_secret: Vec<u8>,
    pub server_url: String,
}

/// The URL under which the server at `server_address` is reached.
pub fn server_url(server_address: &str, https: bool) -> (r: String)
    ensures
        r@ == server_url_of(server_address@, https),
        https ==> r@ == "https://"@ + server_address@,
        !https ==> r@ == "http://"@ + server_address@,
{
    let mut url = if https {
        String::from_str("https://")
    } else {
        String::from_str("http://")
    };
    url.append(server_address);
    url
}

/// Turns the configured machine id, the Base64-encoded JWT secret and the server address
/// into the web app's settings; the secret's decoding error where it is not valid Base64.
/// Any machine id of ten bits is taken, but only its four lowest bits reach the snowflakes
/// made with it (see `crate::snowflake`), so servers that share a database should have
/// machine ids that differ modulo 16.
pub fn web_settings(machine_id: u16, jwt_secret: Option<&str>, server_address: &str, https: bool) -> (r:
    Result<WebSettings, base64::DecodeError>)
    requires
        machine_id <= U10::MAX,
        jwt_secret is Some,
    ensures
        r is Ok <==> configured_secret(jwt_secret.unwrap()@) is Some,
        r matches Ok(s) ==> {
            &&& s.machine_id@ == machine_id
            &&& Some(s.jwt_secret@) == configured_secret(jwt_secret.unwrap()@)
            &&& s.server_url@ == server_url_of(server_address@, https)
            &&& https ==> s.server_url@ == "https://"@ + server_address@
            &&& !https ==> s.server_url@ == "http://"@ + server_address@
        },
{
    let machine_id = match U10::new(machine_id) {
        Some(m) => m,
        None => vstd::pervasive::unreached(),
    };
    let jwt_secret = match jwt_secret {
        Some(s) => s,
        None => vstd::pervasive::unreached(),
    };
    let jwt_secret = match base64_standard_decode(jwt_secret) {
        Ok(bytes) => bytes,
        Err(e) => return Err(e),
    };
    let server_url = server_url(server_address, https);
    Ok(WebSettings { machine_id, jwt_secret, server_url })
}

} // verus!
