//! Authenticated encryption of short texts under a service secret.
//!
//! A payload is the base64 text of a nonce of twelve bytes followed by the
//! AES-256-GCM ciphertext and its tag. The key is the first 32 bytes of the
//! secret's text. Every failure, whatever its cause, is the one `CipherError`.

use vstd::prelude::*;
use vstd::slice::slice_subrange;
use vstd::utf8::{decode_utf8, encode_utf8, valid_utf8};
use vstd::utf8::{
    encode_utf8_decode_utf8, encode_utf8_valid_utf8, is_ascii_chars, is_ascii_chars_encode_utf8,
};
use crate::security::primitives::{
    aes256_gcm_open, aes256_gcm_opened, aes256_gcm_seal, aes256_gcm_sealed, base64_bytes,
    base64_decode, base64_encode, base64_len, base64_text, random_bytes, text_from_utf8, KEY_BYTES,
    MAX_PLAIN_BYTES, NONCE_BYTES, TAG_BYTES,
};

verus! {

/// The cipher could not do what was asked. The value says nothing of the
/// cause, so that a caller cannot tell a wrong key from a damaged payload.
#[derive(Debug, Clone, Copy)]
pub struct CipherError;

/// The cipher key that a secret stands for: the first `KEY_BYTES` bytes of its
/// text, or `None` where the text is shorter.
pub open spec fn key_of(secret: Seq<char>) -> Option<Seq<u8>> {
    let bytes = encode_utf8(secret);
    if bytes.len() >= KEY_BYTES {
        Some(bytes.subrange(0, KEY_BYTES as int))
    } else {
        None
    }
}

/// Says that a plaintext of `len` bytes is short enough for the cipher and
/// for the encoder of the payload.
pub open spec fn fits_payload(len: nat) -> bool {
    len <= MAX_PLAIN_BYTES && NONCE_BYTES + len + TAG_BYTES <= usize::MAX / 512
}

/// The payload that encrypting `plain` under `secret` with `nonce` gives, or
/// `None` where the secret is too short, the nonce has not `NONCE_BYTES`
/// bytes, or the plaintext is too long.
pub open spec fn sealed_payload(plain: Seq<char>, secret: Seq<char>, nonce: Seq<u8>) -> Option<
    Seq<char>,
> {
    let message = encode_utf8(plain);
    match key_of(secret) {
        Some(key) if nonce.len() == NONCE_BYTES && fits_payload(message.len()) => {
            match aes256_gcm_sealed(key, nonce, message) {
                Some(sealed) => Some(base64_text(nonce + sealed)),
                None => None,
            }
        },
        _ => None,
    }
}

/// What decrypting `payload` under `secret` gives, or `None` where the secret
/// is too short, the payload is no base64 text or holds fewer bytes than a
/// nonce and a tag, the tag does not authenticate the ciphertext, or the
/// plaintext is no UTF-8.
pub open spec fn opened_payload(payload: Seq<char>, secret: Seq<char>) -> Option<Seq<char>> {
    let text = encode_utf8(payload);
    match key_of(secret) {
        Some(key) if text.len() <= usize::MAX / 8 => {
            match base64_bytes(text) {
                Some(data) if data.len() >= NONCE_BYTES + TAG_BYTES => {
                    let nonce = data.subrange(0, NONCE_BYTES as int);
                    let sealed = data.subrange(NONCE_BYTES as int, data.len() as int);
                    match aes256_gcm_opened(key, nonce, sealed) {
                        Some(message) if valid_utf8(message) => Some(decode_utf8(message)),
                        _ => None,
                    }
                },
                _ => None,
            }
        },
        _ => None,
    }
}

/// Says that `payload` holds `plain`, encrypted under `secret` with `nonce`:
/// it is the base64 text of the nonce followed by what the cipher made of the
/// plaintext, which is the ciphertext, as long as the plaintext, and a tag of
/// `TAG_BYTES` bytes; it is ASCII, and the cipher recovers the plaintext from
/// what it decodes to.
pub open spec fn seals(
    payload: Seq<char>,
    plain: Seq<char>,
    secret: Seq<char>,
    nonce: Seq<u8>,
) -> bool {
    let message = encode_utf8(plain);
    let text = encode_utf8(payload);
    &&& sealed_payload(plain, secret, nonce) == Some(payload)
    &&& is_ascii_chars(payload)
    &&& payload.len() == base64_len((NONCE_BYTES + message.len() + TAG_BYTES) as nat)
    &&& text.len() == payload.len()
    &&& text.len() <= usize::MAX / 8
    &&& key_of(secret) matches Some(key) && aes256_gcm_sealed(key, nonce, message) matches Some(
        sealed,
    ) && sealed.len() == message.len() + TAG_BYTES && base64_bytes(text) == Some(nonce + sealed)
        && aes256_gcm_opened(key, nonce, sealed) == Some(message)
}

/// Says that `payload` is an encryption of `plain` under `secret`, with some
/// nonce.
pub open spec fn is_encryption_of(
    payload: Seq<char>,
    plain: Seq<char>,
    secret: Seq<char>,
) -> bool {
    exists|nonce: Seq<u8>| #[trigger] seals(payload, plain, secret, nonce)
}

/// Derives the cipher key from a secret.
fn derive_key(secret: &str) -> (key: Option<&[u8]>)
    ensures
        match key {
            Some(k) => key_of(secret@) == Some(k@),
            None => key_of(secret@) is None,
        },
{
    let bytes = secret.as_bytes();
    if bytes.len() >= KEY_BYTES {
        Some(slice_subrange(bytes, 0, KEY_BYTES))
    } else {
        None
    }
}

/// Encrypts `plain_text` under `secret` with the given nonce.
///
/// Succeeds exactly where the secret has `KEY_BYTES` bytes or more, the nonce
/// has `NONCE_BYTES` bytes and the plaintext is short enough; the payload is
/// then fixed by the three arguments. A nonce must never be used twice under
/// one secret: `encrypt_string_aes256_gcm` draws a fresh one.
pub fn encrypt_with_nonce(plain_text: &str, secret: &str, nonce: &[u8]) -> (payload: Result<
    String,
    CipherError,
>)
    ensures
        match payload {
            Ok(p) => seals(p@, plain_text@, secret@, nonce@),
            Err(_) => sealed_payload(plain_text@, secret@, nonce@) is None,
        },
        payload is Ok <==> key_of(secret@) is Some && nonce@.len() == NONCE_BYTES && fits_payload(
            encode_utf8(plain_text@).len(),
        ),
{
    let key = match derive_key(secret) {
        Some(key) => key,
        None => { return Err(CipherError); },
    };
    let message = plain_text.as_bytes();
    if nonce.len() != NONCE_BYTES || message.len() > usize::MAX / 512 - (NONCE_BYTES + TAG_BYTES) {
        return Err(CipherError);
    }
    if message.len() as u64 > MAX_PLAIN_BYTES {
        return Err(CipherError);
    }
    match aes256_gcm_seal(key, nonce, message) {
        Some(sealed) => {
            let mut data: Vec<u8> = Vec::new();
            data.extend_from_slice(nonce);
            data.extend_from_slice(sealed.as_slice());
            let text = base64_encode(data.as_slice());
            proof {
                assert(data@ == nonce@ + sealed@);
                is_ascii_chars_encode_utf8(text@);
                assert(encode_utf8(text@).len() == text@.len());
            }
            Ok(text)
        },
        None => Err(CipherError),
    }
}

/// Encrypts `plain_text` under `secret` with a nonce drawn from the secure
/// random source.
///
/// Fails where the secret has fewer than `KEY_BYTES` bytes or the plaintext
/// is too long, and where the random source fails. The nonce differs from
/// call to call, and so does the payload: the contract says what every
/// payload is, an encryption of the plaintext that `decrypt_string_aes256_gcm`
/// undoes.
pub fn encrypt_string_aes256_gcm(plain_text: &str, secret: &str) -> (payload: Result<
    String,
    CipherError,
>)
    ensures
        payload matches Ok(p) ==> is_encryption_of(p@, plain_text@, secret@),
        payload is Ok ==> key_of(secret@) is Some && fits_payload(encode_utf8(plain_text@).len()),
{
    if derive_key(secret).is_none() {
        return Err(CipherError);
    }
    match random_bytes(NONCE_BYTES) {
        Some(nonce) => encrypt_with_nonce(plain_text, secret, nonce.as_slice()),
        None => Err(CipherError),
    }
}

/// Decrypts a payload under `secret`.
///
/// Returns the plaintext exactly where `opened_payload` gives one, and the
/// one error in every other case.
pub fn decrypt_string_aes256_gcm(encrypted_text: &str, secret: &str) -> (plain: Result<
    String,
    CipherError,
>)
    ensures
        match plain {
            Ok(p) => opened_payload(encrypted_text@, secret@) == Some(p@),
            Err(_) => opened_payload(encrypted_text@, secret@) is None,
        },
{
    let key = match derive_key(secret) {
        Some(key) => key,
        None => { return Err(CipherError); },
    };
    let text = encrypted_text.as_bytes();
    if text.len() > usize::MAX / 8 {
        return Err(CipherError);
    }
    let data = match base64_decode(text) {
        Some(data) => data,
        None => { return Err(CipherError); },
    };
    if data.len() < NONCE_BYTES {
        return Err(CipherError);
    }
    let nonce = slice_subrange(data.as_slice(), 0, NONCE_BYTES);
    let sealed = slice_subrange(data.as_slice(), NONCE_BYTES, data.len());
    let message = match aes256_gcm_open(key, nonce, sealed) {
        Some(message) => message,
        None => { return Err(CipherError); },
    };
    match text_from_utf8(message) {
        Some(plain) => {
            proof {
                encode_utf8_decode_utf8(plain@);
            }
            Ok(plain)
        },
        None => Err(CipherError),
    }
}

/// Decryption undoes encryption: a payload that holds `plain` under `secret`
/// decrypts, under the same secret, to `plain`.
pub proof fn lemma_decrypt_inverts_encrypt(payload: Seq<char>, plain: Seq<char>, secret: Seq<char>)
    requires
        is_encryption_of(payload, plain, secret),
    ensures
        opened_payload(payload, secret) == Some(plain),
{
    let nonce = choose|nonce: Seq<u8>| #[trigger] seals(payload, plain, secret, nonce);
    let key = key_of(secret).unwrap();
    let sealed = aes256_gcm_sealed(key, nonce, encode_utf8(plain)).unwrap();
    let data = nonce + sealed;
    assert(data.subrange(0, NONCE_BYTES as int) == nonce);
    assert(data.subrange(NONCE_BYTES as int, data.len() as int) == sealed);
    encode_utf8_valid_utf8(plain);
    encode_utf8_decode_utf8(plain);
}

/// A payload shows its nonce: two payloads made for the same plaintext and
/// secret under different nonces are different texts. Fresh nonces therefore
/// give fresh payloads.
pub proof fn lemma_distinct_nonces_distinct_payloads(
    first: Seq<char>,
    second: Seq<char>,
    plain: Seq<char>,
    secret: Seq<char>,
    nonce_a: Seq<u8>,
    nonce_b: Seq<u8>,
)
    requires
        seals(first, plain, secret, nonce_a),
        seals(second, plain, secret, nonce_b),
        nonce_a != nonce_b,
    ensures
        first != second,
{
    if first == second {
        let key = key_of(secret).unwrap();
        let sealed_a = aes256_gcm_sealed(key, nonce_a, encode_utf8(plain)).unwrap();
        let sealed_b = aes256_gcm_sealed(key, nonce_b, encode_utf8(plain)).unwrap();
        assert(nonce_a + sealed_a == nonce_b + sealed_b);
        assert((nonce_a + sealed_a).subrange(0, NONCE_BYTES as int) == nonce_a);
        assert((nonce_b + sealed_b).subrange(0, NONCE_BYTES as int) == nonce_b);
    }
}

} // verus!
