use vstd::prelude::*;

use ring::rand::SecureRandom;

verus! {

/// The standard, padded base64 text of `bytes`.
pub uninterp spec fn base64_standard(bytes: Seq<u8>) -> Seq<char>;

/// Relies on base64's `encode`: the standard alphabet with padding, four
/// characters for each started group of three bytes. It panics only where that
/// length overflows `usize`.
#[verifier::external_body]
#[allow(deprecated)]
fn encode_base64(bytes: &[u8]) -> (r: String)
    requires
        bytes@.len() <= usize::MAX / 2,
    ensures
        r@ == base64_standard(bytes@),
        r@.len() == 4 * ((bytes@.len() + 2) / 3),
{
    base64::encode(bytes)
}

/// Relies on ring's `SystemRandom::fill`: on success the buffer was filled from
/// the system's secure generator; nothing is known of the values.
#[verifier::external_body]
fn secure_random_bytes(len: usize) -> (r: Option<Vec<u8>>)
    ensures
        r matches Some(b) ==> b@.len() == len,
{
    let mut buf = vec![0u8; len];
    ring::rand::SystemRandom::new().fill(&mut buf).ok().map(|_| buf)
}

/// Bytes of randomness in an API key.
pub const API_KEY_BYTES: usize = 32;

/// Characters in the text of an API key.
pub const API_KEY_CHARS: usize = 44;

/// A new API key: 256 random bits in standard base64 text. `None` when the
/// system's generator fails.
pub fn generate_api_key() -> (r: Option<String>)
    ensures
        r matches Some(k) ==> k@.len() == API_KEY_CHARS && exists|b: Seq<u8>|
            b.len() == API_KEY_BYTES && k@ == #[trigger] base64_standard(b),
{
    match secure_random_bytes(API_KEY_BYTES) {
        Some(bytes) => {
            let key = encode_base64(bytes.as_slice());
            Some(key)
        },
        None => None,
    }
}

} // verus!
