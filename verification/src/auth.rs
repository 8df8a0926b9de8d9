//! The authenticator: a keyed signature over the request metadata, hex
//! encoded.

use vstd::prelude::*;
use vstd::string::StringSliceAdditionalSpecFns;

use crate::error::CryptoError;
use crate::jsontext::hex_lower_digit;
use crate::numfmt::{dec_digits, u128_to_dec};

verus! {

/// The SHA-256 keyed hash of `msg` under `key`; a function of the two
/// arguments alone.
pub uninterp spec fn hmac_sha256_of(key: Seq<u8>, msg: Seq<u8>) -> Seq<u8>;

/// Lowercase hexadecimal rendering of a byte string, two digits per byte,
/// high nibble first.
pub open spec fn hex_lower(bytes: Seq<u8>) -> Seq<char>
    decreases bytes.len(),
{
    if bytes.len() == 0 {
        Seq::empty()
    } else {
        hex_lower(bytes.drop_last()) + seq![
            hex_lower_digit((bytes.last() / 16) as nat),
            hex_lower_digit((bytes.last() % 16) as nat),
        ]
    }
}

/// Relies on hmac's Hmac<Sha256> (new_from_slice, update, finalize): the
/// 32-byte SHA-256 HMAC of `msg` keyed by `key`. new_from_slice accepts
/// keys of every length (long keys are hashed first), so the call always
/// succeeds.
#[verifier::external_body]
fn hmac_sha256(key: &[u8], msg: &[u8]) -> (r: Result<Vec<u8>, ()>)
    ensures
        r is Ok,
        r matches Ok(v) ==> v@ == hmac_sha256_of(key@, msg@) && v@.len() == 32,
{
    let mut mac = match <hmac::Hmac<sha2::Sha256> as hmac::KeyInit>::new_from_slice(key) {
        Ok(mac) => mac,
        Err(_) => {
            return Err(());
        },
    };
    hmac::Mac::update(&mut mac, msg);
    Ok(hmac::Mac::finalize(mac).into_bytes().to_vec())
}

/// Relies on hex::encode: two lowercase hexadecimal digits per byte, high
/// nibble first.
#[verifier::external_body]
fn hex_encode(b: &[u8]) -> (r: String)
    ensures
        r@ == hex_lower(b@),
{
    hex::encode(b)
}

/// The text signed for an authentication request: the method name, the
/// message id, the api key and the nonce, concatenated.
pub open spec fn auth_payload(id: u64, api_key: Seq<char>, nonce: u128) -> Seq<char> {
    "public/auth"@ + dec_digits(id as nat) + api_key + dec_digits(nonce as nat)
}

/// The signature string for an authentication request: the keyed hash of
/// the UTF-8 bytes of the payload under the secret's UTF-8 bytes, in
/// lowercase hex.
pub open spec fn signature_chars(api_key: Seq<char>, secret_bytes: Seq<u8>, id: u64, nonce: u128) -> Seq<char> {
    hex_lower(hmac_sha256_of(secret_bytes, vstd::utf8::encode_utf8(auth_payload(id, api_key, nonce))))
}

/// Computes the signature of an authentication request from the
/// credentials and the request metadata. Always succeeds: the keyed hash
/// accepts secrets of every length. The error arm remains in the result
/// type for a dedicated invalid-key error, should the hash ever refuse
/// one.
pub fn sign(api_key: &str, api_secret: &str, id: u64, nonce: u128) -> (r: Result<
    String,
    CryptoError,
>)
    ensures
        r is Ok,
        r matches Ok(s) ==> s@ == signature_chars(api_key@, api_secret.spec_bytes(), id, nonce),
{
    let mut payload = "public/auth".to_owned();
    let id_digits = u128_to_dec(id as u128);
    payload.append(id_digits.as_str());
    payload.append(api_key);
    let nonce_digits = u128_to_dec(nonce);
    payload.append(nonce_digits.as_str());
    proof {
        assert(payload@ =~= auth_payload(id, api_key@, nonce));
    }
    match hmac_sha256(api_secret.as_bytes(), payload.as_str().as_bytes()) {
        Ok(digest) => Ok(hex_encode(digest.as_slice())),
        Err(_) => Err(CryptoError::ShaInvalidLength),
    }
}

} // verus!
