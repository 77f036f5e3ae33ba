//! Key material for signing claims and for keying the cipher.

use vstd::prelude::*;
use vstd::utf8::{encode_utf8, is_ascii_chars, is_ascii_chars_encode_utf8};
use crate::security::crypto::key_of;
use crate::security::primitives::{base64_bytes, base64_encode, base64_text, random_bytes};

verus! {

/// The number of random bytes in a service secret: the key length of
/// HMAC-SHA-512.
pub const SECRET_BYTES: usize = 64;

/// The number of characters of a service secret's text, and of its bytes.
pub const SECRET_TEXT_LEN: usize = 88;

/// High-entropy key material, held as base64 text.
pub struct ServiceSecret {
    pub value: String,
}

/// The random source did not deliver.
#[derive(Debug, Clone, Copy)]
pub struct EntropyError;

/// Says that `text` is the secret that stands for `bytes`: the base64 text of
/// these `SECRET_BYTES` bytes, which is ASCII, has `SECRET_TEXT_LEN`
/// characters and decodes back to the bytes.
pub open spec fn is_secret_of(text: Seq<char>, bytes: Seq<u8>) -> bool {
    &&& bytes.len() == SECRET_BYTES
    &&& text == base64_text(bytes)
    &&& base64_bytes(encode_utf8(text)) == Some(bytes)
    &&& is_ascii_chars(text)
    &&& text.len() == SECRET_TEXT_LEN
}

/// Says that `text` is the text of a secret: the secret that stands for some
/// `SECRET_BYTES` bytes.
pub open spec fn is_secret_text(text: Seq<char>) -> bool {
    exists|bytes: Seq<u8>| #[trigger] is_secret_of(text, bytes)
}

/// The secret whose text stands for the given random bytes.
pub fn secret_from_bytes(bytes: &[u8]) -> (secret: ServiceSecret)
    requires
        bytes@.len() == SECRET_BYTES,
    ensures
        secret.value@ == base64_text(bytes@),
        secret.value@.len() == SECRET_TEXT_LEN,
        is_ascii_chars(secret.value@),
        base64_bytes(encode_utf8(secret.value@)) == Some(bytes@),
        encode_utf8(secret.value@).len() == SECRET_TEXT_LEN,
        is_secret_of(secret.value@, bytes@),
        is_secret_text(secret.value@),
{
    let value = base64_encode(bytes);
    proof {
        is_ascii_chars_encode_utf8(value@);
    }
    ServiceSecret { value }
}

/// Makes a new secret from `SECRET_BYTES` bytes of the secure random source.
///
/// Fails only where the random source fails. Two calls give different
/// secrets, so the contract describes the shape of the result, not its value:
/// ASCII text of `SECRET_TEXT_LEN` characters that is the base64 text of some
/// `SECRET_BYTES` bytes and decodes back to them.
pub fn create_service_secret() -> (made: Result<ServiceSecret, EntropyError>)
    ensures
        made matches Ok(secret) ==> {
            &&& is_ascii_chars(secret.value@)
            &&& secret.value@.len() == SECRET_TEXT_LEN
            &&& encode_utf8(secret.value@).len() == SECRET_TEXT_LEN
            &&& exists|bytes: Seq<u8>|
                bytes.len() == SECRET_BYTES && secret.value@ == #[trigger] base64_text(bytes)
                    && base64_bytes(encode_utf8(secret.value@)) == Some(bytes)
            &&& is_secret_text(secret.value@)
        },
{
    match random_bytes(SECRET_BYTES) {
        Some(bytes) => {
            let secret = secret_from_bytes(bytes.as_slice());
            assert(secret.value@ == base64_text(bytes@));
            Ok(secret)
        },
        None => Err(EntropyError),
    }
}

/// A secret decodes to its bytes, and to no others: the text of a secret
/// stands for exactly one string of `SECRET_BYTES` bytes.
pub proof fn lemma_secret_names_its_bytes(text: Seq<char>, first: Seq<u8>, second: Seq<u8>)
    requires
        is_secret_of(text, first),
        is_secret_of(text, second),
    ensures
        first == second,
        base64_bytes(encode_utf8(text)) == Some(first),
        first.len() == SECRET_BYTES,
{
}

/// Different bytes give different secrets.
pub proof fn lemma_distinct_bytes_distinct_secrets(
    text_a: Seq<char>,
    bytes_a: Seq<u8>,
    text_b: Seq<char>,
    bytes_b: Seq<u8>,
)
    requires
        is_secret_of(text_a, bytes_a),
        is_secret_of(text_b, bytes_b),
        bytes_a != bytes_b,
    ensures
        text_a != text_b,
{
}

/// Every secret keys the cipher: its text has `SECRET_TEXT_LEN` bytes, more
/// than the key takes.
pub proof fn lemma_secret_keys_cipher(text: Seq<char>)
    requires
        is_secret_text(text),
    ensures
        encode_utf8(text).len() == SECRET_TEXT_LEN,
        key_of(text) is Some,
{
    is_ascii_chars_encode_utf8(text);
}

} // verus!
