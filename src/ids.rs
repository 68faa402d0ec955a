//! Fresh identifiers and secrets.

use vstd::prelude::*;
use base64::Engine;
use rand::Rng;

verus! {

/// One of the 32 characters of Crockford's base-32 alphabet, in which ULIDs are
/// written: the digits and the capital letters but I, L, O and U.
pub open spec fn is_ulid_char(c: char) -> bool {
    let n = c as u32;
    (0x30 <= n <= 0x39) || (0x41 <= n <= 0x5a && n != 0x49 && n != 0x4c && n != 0x4f && n != 0x55)
}

/// The text of a ULID: 26 characters of the base-32 alphabet.
pub open spec fn is_ulid_text(s: Seq<char>) -> bool {
    s.len() == 26 && forall|i: int| 0 <= i < s.len() ==> is_ulid_char(#[trigger] s[i])
}

/// Relies on ulid's `Ulid::new` and `Ulid::to_string`: a fresh identifier made
/// from the clock and a random source, written as 26 characters of the base-32
/// alphabet.
#[verifier::external_body]
pub fn generate_ulid() -> (r: String)
    ensures
        is_ulid_text(r@),
{
    ulid::Ulid::new().to_string()
}

/// Padded base64 text of `bytes` in the URL-safe alphabet.
pub uninterp spec fn base64_url_of(bytes: Seq<u8>) -> Seq<char>;

/// Relies on base64's `URL_SAFE` engine and `Engine::encode`: padded base64 in
/// the URL-safe alphabet, four characters for each started group of three bytes.
#[verifier::external_body]
fn encode_base64_url(bytes: &Vec<u8>) -> (r: String)
    ensures
        r@ == base64_url_of(bytes@),
        r@.len() == 4 * ((bytes@.len() + 2) / 3),
{
    base64::engine::general_purpose::URL_SAFE.encode(bytes)
}

/// Relies on rand's `thread_rng` and `Rng::gen` for an array of 16 bytes.
#[verifier::external_body]
fn random_bytes() -> (r: Vec<u8>)
    ensures
        r@.len() == 16,
{
    rand::thread_rng().gen::<[u8; 16]>().to_vec()
}

/// A random 128-bit secret, as URL-safe base64 text.
pub fn generate_random_u128() -> (r: String)
    ensures
        exists|b: Seq<u8>| b.len() == 16 && r@ == base64_url_of(b),
        r@.len() == 24,
{
    let bytes = random_bytes();
    encode_base64_url(&bytes)
}

} // verus!
