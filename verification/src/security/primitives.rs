//! The randomness, the text encodings and the cipher that the rest of the
//! crate builds on.
//!
//! Nothing in this file is proved: each function hands its arguments to a
//! library outside this crate, and its contract records what that library
//! documents.

use vstd::prelude::*;
use vstd::utf8::*;
use aes_gcm::aead::{Aead, KeyInit};
use aes_gcm::{Aes256Gcm, Nonce};

verus! {

/// The standard padded base64 text of a byte string.
pub uninterp spec fn base64_text(bytes: Seq<u8>) -> Seq<char>;

/// The byte string that a base64 text stands for, or `None` where the text is
/// not well formed.
pub uninterp spec fn base64_bytes(text: Seq<u8>) -> Option<Seq<u8>>;

/// The length of the padded base64 text of `len` bytes: four characters for
/// every started group of three bytes.
pub open spec fn base64_len(len: nat) -> nat {
    ((len + 2) / 3 * 4) as nat
}

/// Draws `len` bytes from the operating system's secure random source, through
/// `ring::rand::SystemRandom` and `SecureRandom::fill`.
///
/// The bytes are different on every call, so nothing is claimed of them but
/// their number. `None` reports that the source failed.
#[verifier::external_body]
pub(crate) fn random_bytes(len: usize) -> (bytes: Option<Vec<u8>>)
    ensures
        bytes matches Some(b) ==> b@.len() == len,
{
    let mut buffer = vec![0u8; len];
    match ring::rand::SecureRandom::fill(&ring::rand::SystemRandom::new(), &mut buffer) {
        Ok(()) => Some(buffer),
        Err(_) => None,
    }
}

/// Encodes bytes with `data_encoding::BASE64.encode`.
///
/// The encoder is documented as deterministic and correct: its output is a
/// function of its input, and decoding the output gives the input back. The
/// output is ASCII and has four characters for every started group of three
/// input bytes. The encoder may panic on inputs longer than `usize::MAX / 512`
/// bytes, which `requires` leaves out.
#[verifier::external_body]
pub(crate) fn base64_encode(bytes: &[u8]) -> (text: String)
    requires
        bytes@.len() <= usize::MAX / 512,
    ensures
        text@ == base64_text(bytes@),
        text@.len() == base64_len(bytes@.len()),
        is_ascii_chars(text@),
        base64_bytes(encode_utf8(text@)) == Some(bytes@),
{
    data_encoding::BASE64.encode(bytes)
}

/// Decodes text with `data_encoding::BASE64.decode`.
///
/// The decoder is deterministic; it rejects input of a wrong length, with a
/// character outside the alphabet, with non-zero trailing bits or with wrong
/// padding. It may panic on inputs longer than `usize::MAX / 8` bytes, which
/// `requires` leaves out.
#[verifier::external_body]
pub(crate) fn base64_decode(text: &[u8]) -> (bytes: Option<Vec<u8>>)
    requires
        text@.len() <= usize::MAX / 8,
    ensures
        match bytes {
            Some(b) => base64_bytes(text@) == Some(b@),
            None => base64_bytes(text@) is None,
        },
{
    match data_encoding::BASE64.decode(text) {
        Ok(bytes) => Some(bytes),
        Err(_) => None,
    }
}

/// The length of an AES-256 key, in bytes.
pub const KEY_BYTES: usize = 32;

/// The length of the nonce that AES-GCM takes, in bytes.
pub const NONCE_BYTES: usize = 12;

/// The length of the authentication tag that follows the ciphertext, in bytes.
pub const TAG_BYTES: usize = 16;

/// The longest plaintext that AES-GCM takes under one nonce, in bytes.
pub const MAX_PLAIN_BYTES: u64 = 0x10_0000_0000;

/// What AES-256-GCM makes of a plaintext under a key and a nonce, with no
/// associated data: the ciphertext followed by its tag, or `None` where the
/// cipher refuses the plaintext.
pub uninterp spec fn aes256_gcm_sealed(key: Seq<u8>, nonce: Seq<u8>, plain: Seq<u8>) -> Option<
    Seq<u8>,
>;

/// What AES-256-GCM recovers from a ciphertext with its tag under a key and a
/// nonce, with no associated data, or `None` where the tag does not
/// authenticate the ciphertext.
pub uninterp spec fn aes256_gcm_opened(key: Seq<u8>, nonce: Seq<u8>, sealed: Seq<u8>) -> Option<
    Seq<u8>,
>;

/// Encrypts with `aes_gcm::Aes256Gcm`: `new_from_slice` on the key, then
/// `Aead::encrypt` under the nonce.
///
/// The cipher is deterministic. It refuses only a plaintext of more than
/// `MAX_PLAIN_BYTES` bytes; otherwise it returns the ciphertext, as long as
/// the plaintext, followed by a tag of `TAG_BYTES` bytes, and decrypting that
/// under the same key and nonce gives the plaintext back. A nonce of another
/// length makes the cipher panic, so `requires` leaves it out.
#[verifier::external_body]
pub(crate) fn aes256_gcm_seal(key: &[u8], nonce: &[u8], plain: &[u8]) -> (sealed: Option<Vec<u8>>)
    requires
        key@.len() == KEY_BYTES,
        nonce@.len() == NONCE_BYTES,
    ensures
        match sealed {
            Some(s) => aes256_gcm_sealed(key@, nonce@, plain@) == Some(s@),
            None => aes256_gcm_sealed(key@, nonce@, plain@) is None,
        },
        plain@.len() <= MAX_PLAIN_BYTES ==> sealed is Some,
        sealed matches Some(s) ==> s@.len() == plain@.len() + TAG_BYTES && aes256_gcm_opened(
            key@,
            nonce@,
            s@,
        ) == Some(plain@),
{
    match Aes256Gcm::new_from_slice(key) {
        Ok(cipher) => cipher.encrypt(Nonce::from_slice(nonce), plain).ok(),
        Err(_) => None,
    }
}

/// Decrypts with `aes_gcm::Aes256Gcm`: `new_from_slice` on the key, then
/// `Aead::decrypt` under the nonce.
///
/// The cipher is deterministic. It returns the plaintext only where the tag at
/// the end of the input authenticates the rest under this key and nonce; an
/// input shorter than a tag holds none and is refused. A nonce of another
/// length makes the cipher panic, so `requires` leaves it out.
#[verifier::external_body]
pub(crate) fn aes256_gcm_open(key: &[u8], nonce: &[u8], sealed: &[u8]) -> (plain: Option<Vec<u8>>)
    requires
        key@.len() == KEY_BYTES,
        nonce@.len() == NONCE_BYTES,
    ensures
        match plain {
            Some(p) => aes256_gcm_opened(key@, nonce@, sealed@) == Some(p@),
            None => aes256_gcm_opened(key@, nonce@, sealed@) is None,
        },
        sealed@.len() < TAG_BYTES ==> plain is None,
{
    match Aes256Gcm::new_from_slice(key) {
        Ok(cipher) => cipher.decrypt(Nonce::from_slice(nonce), sealed).ok(),
        Err(_) => None,
    }
}

/// Reads bytes as text with `String::from_utf8`.
///
/// The standard library documents that the call succeeds exactly on valid
/// UTF-8 and that the string then holds the given bytes.
#[verifier::external_body]
pub(crate) fn text_from_utf8(bytes: Vec<u8>) -> (text: Option<String>)
    ensures
        text is Some <==> valid_utf8(bytes@),
        text matches Some(t) ==> encode_utf8(t@) == bytes@,
{
    String::from_utf8(bytes).ok()
}

} // verus!
