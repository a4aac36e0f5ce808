use aes_gcm::aead::{Aead, KeyInit};
use base64::Engine;
use rand::RngCore;
use vstd::prelude::*;
use vstd::utf8::{decode_utf8, encode_utf8, encode_utf8_decode_utf8, encode_utf8_valid_utf8, valid_utf8};
use crate::error::AppError;
use crate::text::owned;

verus! {

/// The length of an AES-256 key in bytes.
pub const KEY_LENGTH: usize = 32;

/// The length of a GCM nonce in bytes.
pub const NONCE_LENGTH: usize = 12;

/// The bytes that a text stands for in standard base64 with padding, or
/// `None` where the text is no such encoding.
pub uninterp spec fn base64_decoded(text: Seq<char>) -> Option<Seq<u8>>;

/// The standard base64 encoding, with padding, of the bytes.
pub uninterp spec fn base64_encoded(bytes: Seq<u8>) -> Seq<char>;

/// The ciphertext with its tag that AES-256-GCM makes of `data` under `key`
/// and `nonce`, or `None` where the cipher reports an error.
pub uninterp spec fn sealed(key: Seq<u8>, nonce: Seq<u8>, data: Seq<u8>) -> Option<Seq<u8>>;

/// The plaintext that AES-256-GCM recovers from `data` under `key` and
/// `nonce`, or `None` where the tag does not match.
pub uninterp spec fn opened(key: Seq<u8>, nonce: Seq<u8>, data: Seq<u8>) -> Option<Seq<u8>>;

/// The contents of optional bytes.
pub open spec fn bytes_of(bytes: Option<Vec<u8>>) -> Option<Seq<u8>> {
    match bytes {
        Some(b) => Some(b@),
        None => None,
    }
}

/// Decodes with `base64::engine::general_purpose::STANDARD.decode`. The
/// contract names the outcome.
#[verifier::external_body]
fn base64_decode(text: &str) -> (r: Option<Vec<u8>>)
    ensures
        bytes_of(r) == base64_decoded(text@),
{
    base64::engine::general_purpose::STANDARD.decode(text).ok()
}

/// Encodes with `base64::engine::general_purpose::STANDARD.encode`. The
/// contract names the outcome and adds what the engine is for: decoding
/// gives the bytes back.
#[verifier::external_body]
fn base64_encode(bytes: &Vec<u8>) -> (r: String)
    ensures
        r@ == base64_encoded(bytes@),
        base64_decoded(r@) == Some(bytes@),
{
    base64::engine::general_purpose::STANDARD.encode(bytes)
}

/// Encrypts with `Aes256Gcm::new_from_slice` and `Aead::encrypt`. The
/// contract names the outcome and adds what the cipher is for: opening what
/// it sealed, under the same key and nonce, gives the data back. Key and
/// nonce must have the cipher's lengths, else the nonce cannot be built.
#[verifier::external_body]
fn seal(key: &Vec<u8>, nonce: &Vec<u8>, data: &[u8]) -> (r: Option<Vec<u8>>)
    requires
        key@.len() == KEY_LENGTH,
        nonce@.len() == NONCE_LENGTH,
    ensures
        bytes_of(r) == sealed(key@, nonce@, data@),
        r is Some ==> opened(key@, nonce@, r->Some_0@) == Some(data@),
{
    let cipher = aes_gcm::Aes256Gcm::new_from_slice(key).ok()?;
    cipher.encrypt(aes_gcm::Nonce::from_slice(nonce), data).ok()
}

/// Decrypts with `Aes256Gcm::new_from_slice` and `Aead::decrypt`. The
/// contract names the outcome. Key and nonce must have the cipher's lengths.
#[verifier::external_body]
fn open(key: &Vec<u8>, nonce: &Vec<u8>, data: &Vec<u8>) -> (r: Option<Vec<u8>>)
    requires
        key@.len() == KEY_LENGTH,
        nonce@.len() == NONCE_LENGTH,
    ensures
        bytes_of(r) == opened(key@, nonce@, data@),
{
    let cipher = aes_gcm::Aes256Gcm::new_from_slice(key).ok()?;
    cipher.decrypt(aes_gcm::Nonce::from_slice(nonce), data.as_slice()).ok()
}

/// std's `String::from_utf8`: the text that the bytes encode, if they are
/// valid UTF-8.
#[verifier::external_body]
fn utf8_text(bytes: Vec<u8>) -> (r: Option<String>)
    ensures
        r is Some <==> valid_utf8(bytes@),
        r is Some ==> r->Some_0@ == decode_utf8(bytes@),
{
    String::from_utf8(bytes).ok()
}

/// Draws a key with `Aes256Gcm::generate_key` from `rand::thread_rng`. The
/// key is random; only its length is known.
#[verifier::external_body]
fn random_key() -> (r: Vec<u8>)
    ensures
        r@.len() == KEY_LENGTH,
{
    aes_gcm::Aes256Gcm::generate_key(rand::thread_rng()).to_vec()
}

/// Draws twelve bytes with `RngCore::fill_bytes` from `rand::thread_rng`.
/// The bytes are random; only their number is known.
#[verifier::external_body]
fn random_nonce() -> (r: Vec<u8>)
    ensures
        r@.len() == NONCE_LENGTH,
{
    let mut nonce = [0u8; NONCE_LENGTH];
    rand::thread_rng().fill_bytes(&mut nonce);
    nonce.to_vec()
}

/// Encrypts and decrypts credentials with AES-256-GCM under one key and one
/// nonce.
pub struct Encryptor {
    key: Vec<u8>,
    nonce: Vec<u8>,
}

/// What the settings of an encryptor amount to: the key and the nonce that
/// the two texts encode, or the message that refuses them.
pub open spec fn settings_of(key: Seq<char>, nonce: Seq<char>) -> Result<(Seq<u8>, Seq<u8>), Seq<char>> {
    match base64_decoded(key) {
        None => Err("Invalid encryption key format"@),
        Some(k) => match base64_decoded(nonce) {
            None => Err("Invalid nonce format"@),
            Some(n) => if n.len() != NONCE_LENGTH {
                Err("Invalid nonce length"@)
            } else if k.len() != KEY_LENGTH {
                Err("Invalid key length"@)
            } else {
                Ok((k, n))
            },
        },
    }
}

/// What encrypting `data` gives: the base64 text of the sealed bytes of its
/// UTF-8 form.
pub open spec fn encrypted(key: Seq<u8>, nonce: Seq<u8>, data: Seq<char>) -> Option<Seq<char>> {
    match sealed(key, nonce, encode_utf8(data)) {
        Some(bytes) => Some(base64_encoded(bytes)),
        None => None,
    }
}

/// What decrypting `text` gives: the text that the opened bytes encode, or
/// the message that says which step failed.
pub open spec fn decrypted(key: Seq<u8>, nonce: Seq<u8>, text: Seq<char>) -> Result<Seq<char>, Seq<char>> {
    match base64_decoded(text) {
        None => Err("Invalid encrypted data format"@),
        Some(bytes) => match opened(key, nonce, bytes) {
            None => Err("Decryption failed"@),
            Some(plain) => if valid_utf8(plain) {
                Ok(decode_utf8(plain))
            } else {
                Err("Invalid UTF-8 in decrypted data"@)
            },
        },
    }
}

fn refused(message: &str) -> (r: AppError)
    ensures
        r is InternalError,
        r->InternalError_0@ == message@,
{
    AppError::InternalError(owned(message))
}

impl Encryptor {
    #[verifier::type_invariant]
    spec fn well_formed(self) -> bool {
        self.key@.len() == KEY_LENGTH && self.nonce@.len() == NONCE_LENGTH
    }

    /// The key of the encryptor.
    pub closed spec fn key_bytes(self) -> Seq<u8> {
        self.key@
    }

    /// The nonce of the encryptor.
    pub closed spec fn nonce_bytes(self) -> Seq<u8> {
        self.nonce@
    }

    /// An encryptor for a key of 32 bytes and a nonce of 12 bytes, both
    /// given in base64. Anything else is refused with an internal error.
    pub fn new(key: &str, nonce: &str) -> (r: Result<Self, AppError>)
        ensures
            match settings_of(key@, nonce@) {
                Ok(settings) => r is Ok && r->Ok_0.key_bytes() == settings.0
                    && r->Ok_0.nonce_bytes() == settings.1,
                Err(message) => r is Err && r->Err_0 is InternalError
                    && r->Err_0->InternalError_0@ == message,
            },
    {
        let key_bytes = match base64_decode(key) {
            Some(bytes) => bytes,
            None => {
                return Err(refused("Invalid encryption key format"));
            },
        };
        let nonce_bytes = match base64_decode(nonce) {
            Some(bytes) => bytes,
            None => {
                return Err(refused("Invalid nonce format"));
            },
        };
        if nonce_bytes.len() != NONCE_LENGTH {
            return Err(refused("Invalid nonce length"));
        }
        if key_bytes.len() != KEY_LENGTH {
            return Err(refused("Invalid key length"));
        }
        Ok(Encryptor { key: key_bytes, nonce: nonce_bytes })
    }

    /// Encrypts a text. What comes out decrypts to the text again.
    pub fn encrypt(&self, data: &str) -> (r: Result<String, AppError>)
        ensures
            match encrypted(self.key_bytes(), self.nonce_bytes(), data@) {
                Some(text) => r is Ok && r->Ok_0@ == text,
                None => r is Err && r->Err_0 is InternalError && r->Err_0->InternalError_0@
                    == "Encryption failed"@,
            },
            r is Ok ==> decrypted(self.key_bytes(), self.nonce_bytes(), r->Ok_0@) == Ok::<
                Seq<char>,
                Seq<char>,
            >(data@),
    {
        proof {
            use_type_invariant(self);
            encode_utf8_valid_utf8(data@);
            encode_utf8_decode_utf8(data@);
        }
        match seal(&self.key, &self.nonce, data.as_bytes()) {
            Some(bytes) => Ok(base64_encode(&bytes)),
            None => Err(refused("Encryption failed")),
        }
    }

    /// Decrypts a text that `encrypt` made under the same key and nonce.
    pub fn decrypt(&self, encrypted_data: &str) -> (r: Result<String, AppError>)
        ensures
            match decrypted(self.key_bytes(), self.nonce_bytes(), encrypted_data@) {
                Ok(text) => r is Ok && r->Ok_0@ == text,
                Err(message) => r is Err && r->Err_0 is InternalError
                    && r->Err_0->InternalError_0@ == message,
            },
    {
        proof {
            use_type_invariant(self);
        }
        let bytes = match base64_decode(encrypted_data) {
            Some(bytes) => bytes,
            None => {
                return Err(refused("Invalid encrypted data format"));
            },
        };
        let plain = match open(&self.key, &self.nonce, &bytes) {
            Some(plain) => plain,
            None => {
                return Err(refused("Decryption failed"));
            },
        };
        match utf8_text(plain) {
            Some(text) => Ok(text),
            None => Err(refused("Invalid UTF-8 in decrypted data")),
        }
    }

    /// A fresh random key in base64, fit for `new`.
    pub fn generate_key() -> (r: String)
        ensures
            base64_decoded(r@) is Some,
            base64_decoded(r@)->Some_0.len() == KEY_LENGTH,
    {
        let key = random_key();
        base64_encode(&key)
    }

    /// A fresh random nonce in base64, fit for `new`.
    pub fn generate_nonce() -> (r: String)
        ensures
            base64_decoded(r@) is Some,
            base64_decoded(r@)->Some_0.len() == NONCE_LENGTH,
    {
        let nonce = random_nonce();
        base64_encode(&nonce)
    }
}

} // verus!
