//! Random bytes, and the Base64 text that secrets travel in.
use vstd::prelude::*;

verus! {

/// The length, in bytes, of a freshly generated JWT secret.
pub const SECRET_LEN: usize = 32;

#[verifier::external_type_specification]
#[verifier::external_body]
pub struct ExStdRng(rand::rngs::StdRng);

#[verifier::external_type_specification]
#[verifier::external_body]
pub struct ExDecodeError(base64::DecodeError);

/// What `base64::engine::general_purpose::STANDARD` encodes `bytes` to.
pub uninterp spec fn base64_standard_encoding(bytes: Seq<u8>) -> Seq<char>;

/// What `base64::engine::general_purpose::STANDARD` decodes `text` to; `None` where it
/// rejects the text.
pub uninterp spec fn base64_standard_decoding(text: Seq<char>) -> Option<Seq<u8>>;

/// Calls `rand::Rng::fill_bytes` on a `StdRng`, which fills the buffer with random bytes.
/// Nothing is claimed of the bytes.
#[verifier::external_body]
fn std_rng_fill<const LEN: usize>(rng: &mut rand::rngs::StdRng, buffer: &mut [u8; LEN]) {
    rand::Rng::fill_bytes(rng, buffer)
}

/// Calls `base64::Engine::encode` with the standard engine (padded, with `+` and `/`).
///
/// Trusted: the text is the crate's encoding of `bytes`, which is a function of them alone,
/// and the same engine decodes it back to `bytes`.
#[verifier::external_body]
fn base64_standard_encode(bytes: &[u8]) -> (r: String)
    ensures
        r@ == base64_standard_encoding(bytes@),
        base64_standard_decoding(r@) == Some(bytes@),
{
    base64::Engine::encode(&base64::engine::general_purpose::STANDARD, bytes)
}

/// Calls `base64::Engine::decode` with the standard engine.
///
/// Trusted: it succeeds exactly where the crate's decoding of the text is defined, and
/// returns that decoding.
#[verifier::external_body]
pub(crate) fn base64_standard_decode(text: &str) -> (r: Result<Vec<u8>, base64::DecodeError>)
    ensures
        r is Ok <==> base64_standard_decoding(text@) is Some,
        r matches Ok(v) ==> base64_standard_decoding(text@) == Some(v@),
{
    base64::Engine::decode(&base64::engine::general_purpose::STANDARD, text)
}

/// `LEN` random bytes drawn from `rng`.
pub fn random_bytes<const LEN: usize>(rng: &mut rand::rngs::StdRng) -> (r: [u8; LEN])
    ensures
        r@.len() == LEN,
{
    let mut buffer: [u8; LEN] = [0; LEN];
    std_rng_fill(rng, &mut buffer);
    buffer
}

/// Whether `text` is the standard Base64 encoding of the secret `bytes`, one of
/// `SECRET_LEN` bytes, and decodes back to them.
pub open spec fn encodes_secret(text: Seq<char>, bytes: Seq<u8>) -> bool {
    &&& bytes.len() == SECRET_LEN
    &&& text == base64_standard_encoding(bytes)
    &&& base64_standard_decoding(text) == Some(bytes)
}

/// A fresh JWT secret: `SECRET_LEN` random bytes from `rng`, as standard Base64 text.
pub fn new_jwt_secret(rng: &mut rand::rngs::StdRng) -> (r: String)
    ensures
        exists|bytes: Seq<u8>| encodes_secret(r@, bytes),
{
    let bytes = random_bytes::<SECRET_LEN>(rng);
    let r = base64_standard_encode(bytes.as_slice());
    assert(encodes_secret(r@, bytes@));
    r
}

} // verus!
