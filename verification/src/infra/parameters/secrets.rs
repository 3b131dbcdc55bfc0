//! Envelope encryption of secret parameters.
//!
//! Each value is encrypted with AES-256-GCM under a fresh data key; the
//! data key is itself encrypted ("wrapped") under the master key.  Both
//! nonces are fresh and random.

use aes_gcm::aead::{Aead, KeyInit};
use vstd::prelude::*;
use vstd::utf8::{decode_utf8, encode_utf8, valid_utf8};

use crate::text::{concat2, u64_to_decimal, decimal};
use crate::utils::system::random_bytes;

verus! {

broadcast use vstd::utf8::encode_utf8_valid_utf8, vstd::utf8::encode_utf8_decode_utf8;

/// The longest plaintext AES-GCM encrypts, in bytes.
pub const AES_GCM_P_MAX: u64 = 68719476736;

/// The length of an AES-256 key, in bytes.
pub const KEY_LEN: usize = 32;

/// The length of an AES-GCM nonce, in bytes.
pub const NONCE_LEN: usize = 12;

/// The ciphertext AES-256-GCM produces for `plaintext` under `key` and
/// `nonce`, with no associated data.
pub uninterp spec fn aes256gcm_encrypt(key: Seq<u8>, nonce: Seq<u8>, plaintext: Seq<u8>) -> Seq<u8>;

/// The plaintext AES-256-GCM recovers from `ciphertext` under `key` and
/// `nonce`, with no associated data, or `None` when it does not authenticate.
pub uninterp spec fn aes256gcm_decrypt(key: Seq<u8>, nonce: Seq<u8>, ciphertext: Seq<u8>) -> Option<
    Seq<u8>,
>;

/// Encrypts `plaintext` under `key` and `nonce`.
///
/// Trusted: `aes_gcm::Aes256Gcm`'s `Aead::encrypt`.  Its source refuses only
/// plaintexts longer than `P_MAX` bytes.  The ciphertext is named by
/// [`aes256gcm_encrypt`]; that decrypting it under the same key and nonce
/// gives the plaintext back is the correctness of the AEAD construction.
#[verifier::external_body]
fn aes_encrypt(key: &[u8], nonce: &[u8], plaintext: &[u8]) -> (r: Option<Vec<u8>>)
    requires
        key@.len() == KEY_LEN,
        nonce@.len() == NONCE_LEN,
    ensures
        r is Some <==> plaintext@.len() <= AES_GCM_P_MAX,
        r matches Some(c) ==> c@ == aes256gcm_encrypt(key@, nonce@, plaintext@),
        r matches Some(c) ==> aes256gcm_decrypt(key@, nonce@, c@) == Some(plaintext@),
{
    let cipher = aes_gcm::Aes256Gcm::new(aes_gcm::Key::<aes_gcm::Aes256Gcm>::from_slice(key));
    cipher.encrypt(aes_gcm::Nonce::from_slice(nonce), plaintext).ok()
}

/// Decrypts `ciphertext` under `key` and `nonce`.
///
/// Trusted: `aes_gcm::Aes256Gcm`'s `Aead::decrypt`; the outcome is named by
/// [`aes256gcm_decrypt`].
#[verifier::external_body]
fn aes_decrypt(key: &[u8], nonce: &[u8], ciphertext: &[u8]) -> (r: Option<Vec<u8>>)
    requires
        key@.len() == KEY_LEN,
        nonce@.len() == NONCE_LEN,
    ensures
        match r {
            Some(p) => aes256gcm_decrypt(key@, nonce@, ciphertext@) == Some(p@),
            None => aes256gcm_decrypt(key@, nonce@, ciphertext@) is None,
        },
{
    let cipher = aes_gcm::Aes256Gcm::new(aes_gcm::Key::<aes_gcm::Aes256Gcm>::from_slice(key));
    cipher.decrypt(aes_gcm::Nonce::from_slice(nonce), ciphertext).ok()
}

/// The string `bytes` encode, or `None` when they are not UTF-8.
///
/// Trusted: `String::from_utf8`, which accepts exactly the valid UTF-8
/// byte strings and decodes them.
#[verifier::external_body]
fn utf8_string(bytes: Vec<u8>) -> (r: Option<String>)
    ensures
        r is Some <==> valid_utf8(bytes@),
        r matches Some(s) ==> s@ == decode_utf8(bytes@),
{
    String::from_utf8(bytes).ok()
}

/// Why a secret could not be loaded, encrypted or decrypted.
#[derive(Debug, Clone, Copy, PartialEq, Eq, Structural)]
pub enum SecretError {
    InvalidMasterKeyLength { len: usize },
    RandomDekFailed,
    RandomNonceFailed,
    EncryptFailed,
    WrapDekFailed,
    InvalidNonceLength,
    UnwrapDekFailed,
    InvalidDekLength,
    DecryptFailed,
    InvalidUtf8,
}

/// The text of each error.
pub open spec fn secret_error_text(e: SecretError) -> Seq<char> {
    match e {
        SecretError::InvalidMasterKeyLength { len } => "master key must be 32 bytes, got "@
            + decimal(len as nat),
        SecretError::RandomDekFailed => "failed to generate dek"@,
        SecretError::RandomNonceFailed => "failed to generate nonce"@,
        SecretError::EncryptFailed => "failed to encrypt value"@,
        SecretError::WrapDekFailed => "failed to wrap dek"@,
        SecretError::InvalidNonceLength => "invalid nonce length"@,
        SecretError::UnwrapDekFailed => "failed to unwrap dek"@,
        SecretError::InvalidDekLength => "invalid dek length"@,
        SecretError::DecryptFailed => "failed to decrypt value"@,
        SecretError::InvalidUtf8 => "decrypted value was not valid utf-8"@,
    }
}

impl SecretError {
    /// The text of this error.
    pub fn message(&self) -> (m: String)
        ensures
            m@ == secret_error_text(*self),
    {
        match self {
            SecretError::InvalidMasterKeyLength { len } => concat2(
                "master key must be 32 bytes, got ",
                u64_to_decimal(*len as u64).as_str(),
            ),
            SecretError::RandomDekFailed => String::from_str("failed to generate dek"),
            SecretError::RandomNonceFailed => String::from_str("failed to generate nonce"),
            SecretError::EncryptFailed => String::from_str("failed to encrypt value"),
            SecretError::WrapDekFailed => String::from_str("failed to wrap dek"),
            SecretError::InvalidNonceLength => String::from_str("invalid nonce length"),
            SecretError::UnwrapDekFailed => String::from_str("failed to unwrap dek"),
            SecretError::InvalidDekLength => String::from_str("invalid dek length"),
            SecretError::DecryptFailed => String::from_str("failed to decrypt value"),
            SecretError::InvalidUtf8 => String::from_str("decrypted value was not valid utf-8"),
        }
    }
}

/// An encrypted value as stored: the value under the data key, and the
/// data key under the master key, each with its nonce.
#[derive(Debug)]
pub struct EncryptedValue {
    pub ciphertext: Vec<u8>,
    pub nonce: Vec<u8>,
    pub wrapped_dek: Vec<u8>,
    pub dek_nonce: Vec<u8>,
}

/// [`EncryptedValue`] as plain values.
pub struct EncryptedView {
    pub ciphertext: Seq<u8>,
    pub nonce: Seq<u8>,
    pub wrapped_dek: Seq<u8>,
    pub dek_nonce: Seq<u8>,
}

impl View for EncryptedValue {
    type V = EncryptedView;

    open spec fn view(&self) -> EncryptedView {
        EncryptedView {
            ciphertext: self.ciphertext@,
            nonce: self.nonce@,
            wrapped_dek: self.wrapped_dek@,
            dek_nonce: self.dek_nonce@,
        }
    }
}

/// Whether `enc` is `plaintext` sealed under `key` with data key `dek`:
/// both nonces have the AES-GCM length, the data key is wrapped under the
/// master key, the value is encrypted under the data key, and each of
/// these decrypts back.
pub open spec fn sealed_with(key: Seq<u8>, plaintext: Seq<char>, dek: Seq<u8>, enc: EncryptedView) -> bool {
    &&& dek.len() == KEY_LEN
    &&& enc.nonce.len() == NONCE_LEN
    &&& enc.dek_nonce.len() == NONCE_LEN
    &&& enc.wrapped_dek == aes256gcm_encrypt(key, enc.dek_nonce, dek)
    &&& enc.ciphertext == aes256gcm_encrypt(dek, enc.nonce, encode_utf8(plaintext))
    &&& aes256gcm_decrypt(key, enc.dek_nonce, enc.wrapped_dek) == Some(dek)
    &&& aes256gcm_decrypt(dek, enc.nonce, enc.ciphertext) == Some(encode_utf8(plaintext))
}

/// Whether `enc` is `plaintext` sealed under `key` with some data key.
pub open spec fn sealed(key: Seq<u8>, plaintext: Seq<char>, enc: EncryptedView) -> bool {
    exists|dek: Seq<u8>| sealed_with(key, plaintext, dek, enc)
}

/// What opening `enc` under `key` gives: the data key is unwrapped and
/// must be a key; the value is decrypted under it and must be UTF-8.
pub open spec fn open_envelope(key: Seq<u8>, enc: EncryptedView) -> Result<Seq<char>, SecretError> {
    if enc.dek_nonce.len() != NONCE_LEN {
        Err(SecretError::InvalidNonceLength)
    } else {
        match aes256gcm_decrypt(key, enc.dek_nonce, enc.wrapped_dek) {
            None => Err(SecretError::UnwrapDekFailed),
            Some(dek) => if dek.len() != KEY_LEN {
                Err(SecretError::InvalidDekLength)
            } else if enc.nonce.len() != NONCE_LEN {
                Err(SecretError::InvalidNonceLength)
            } else {
                match aes256gcm_decrypt(dek, enc.nonce, enc.ciphertext) {
                    None => Err(SecretError::DecryptFailed),
                    Some(p) => if valid_utf8(p) {
                        Ok(decode_utf8(p))
                    } else {
                        Err(SecretError::InvalidUtf8)
                    },
                }
            },
        }
    }
}

/// The 32-byte master key.
pub struct MasterKey([u8; 32]);

impl MasterKey {
    /// The bytes of this key.
    pub closed spec fn key_bytes(&self) -> Seq<u8> {
        self.0@
    }

    /// The key made of `bytes`, which must be exactly 32 bytes long.
    pub fn from_bytes(bytes: &[u8]) -> (r: Result<MasterKey, SecretError>)
        ensures
            r is Ok <==> bytes@.len() == KEY_LEN,
            r matches Ok(k) ==> k.key_bytes() == bytes@,
            r matches Err(e) ==> e == (SecretError::InvalidMasterKeyLength { len: bytes@.len() as usize }),
    {
        if bytes.len() != KEY_LEN {
            return Err(SecretError::InvalidMasterKeyLength { len: bytes.len() });
        }
        let mut key: [u8; 32] = [0u8; 32];
        let mut i: usize = 0;
        while i < KEY_LEN
            invariant
                bytes@.len() == KEY_LEN,
                key@.len() == KEY_LEN,
                i <= KEY_LEN,
                forall|j: int| 0 <= j < i ==> key@[j] == bytes@[j],
            decreases KEY_LEN - i,
        {
            key[i] = bytes[i];
            i = i + 1;
        }
        assert(key@ =~= bytes@);
        Ok(MasterKey(key))
    }

    /// Seals `plaintext` under this key with data key `dek`: the value is
    /// encrypted under `dek` with `nonce`, and `dek` is wrapped under this
    /// key with `dek_nonce`.  It fails only when the value is longer than
    /// AES-GCM encrypts.
    pub fn seal(&self, plaintext: &str, dek: &[u8], nonce: &[u8], dek_nonce: &[u8]) -> (r: Result<
        EncryptedValue,
        SecretError,
    >)
        requires
            dek@.len() == KEY_LEN,
            nonce@.len() == NONCE_LEN,
            dek_nonce@.len() == NONCE_LEN,
        ensures
            r is Ok <==> encode_utf8(plaintext@).len() <= AES_GCM_P_MAX,
            r matches Ok(enc) ==> sealed_with(self.key_bytes(), plaintext@, dek@, enc@)
                && enc.nonce@ == nonce@ && enc.dek_nonce@ == dek_nonce@,
            r matches Err(e) ==> e == SecretError::EncryptFailed,
    {
        let bytes = plaintext.as_bytes();
        let ciphertext = match aes_encrypt(dek, nonce, bytes) {
            Some(c) => c,
            None => return Err(SecretError::EncryptFailed),
        };
        let key = vstd::array::array_as_slice(&self.0);
        let wrapped_dek = match aes_encrypt(key, dek_nonce, dek) {
            Some(w) => w,
            None => return Err(SecretError::WrapDekFailed),
        };
        let enc = EncryptedValue {
            ciphertext,
            nonce: vstd::slice::slice_to_vec(nonce),
            wrapped_dek,
            dek_nonce: vstd::slice::slice_to_vec(dek_nonce),
        };
        assert(sealed_with(self.key_bytes(), plaintext@, dek@, enc@));
        Ok(enc)
    }

    /// Seals `plaintext` under this key with a fresh random data key and
    /// fresh random nonces (see [`MasterKey::seal`]).  Besides the failures
    /// of `seal`, it fails when randomness is not available.
    pub fn encrypt(&self, plaintext: &str) -> (r: Result<EncryptedValue, SecretError>)
        ensures
            r matches Ok(enc) ==> sealed(self.key_bytes(), plaintext@, enc@),
            r matches Err(e) ==> e == SecretError::RandomDekFailed || e
                == SecretError::RandomNonceFailed || (e == SecretError::EncryptFailed
                && encode_utf8(plaintext@).len() > AES_GCM_P_MAX),
    {
        let dek = match random_bytes(KEY_LEN) {
            Some(d) => d,
            None => return Err(SecretError::RandomDekFailed),
        };
        let nonce = match random_bytes(NONCE_LEN) {
            Some(n) => n,
            None => return Err(SecretError::RandomNonceFailed),
        };
        let dek_nonce = match random_bytes(NONCE_LEN) {
            Some(n) => n,
            None => return Err(SecretError::RandomNonceFailed),
        };
        self.seal(plaintext, dek.as_slice(), nonce.as_slice(), dek_nonce.as_slice())
    }

    /// Opens `enc` under this key.
    pub fn decrypt(&self, enc: &EncryptedValue) -> (r: Result<String, SecretError>)
        ensures
            match r {
                Ok(s) => open_envelope(self.key_bytes(), enc@) == Ok::<Seq<char>, SecretError>(s@),
                Err(e) => open_envelope(self.key_bytes(), enc@) == Err::<Seq<char>, SecretError>(e),
            },
    {
        if enc.dek_nonce.len() != NONCE_LEN {
            return Err(SecretError::InvalidNonceLength);
        }
        let key = vstd::array::array_as_slice(&self.0);
        let dek = match aes_decrypt(key, enc.dek_nonce.as_slice(), enc.wrapped_dek.as_slice()) {
            Some(d) => d,
            None => return Err(SecretError::UnwrapDekFailed),
        };
        if dek.len() != KEY_LEN {
            return Err(SecretError::InvalidDekLength);
        }
        if enc.nonce.len() != NONCE_LEN {
            return Err(SecretError::InvalidNonceLength);
        }
        let plaintext = match aes_decrypt(dek.as_slice(), enc.nonce.as_slice(), enc.ciphertext.as_slice()) {
            Some(p) => p,
            None => return Err(SecretError::DecryptFailed),
        };
        match utf8_string(plaintext) {
            Some(s) => Ok(s),
            None => Err(SecretError::InvalidUtf8),
        }
    }
}

/// What is sealed under a key opens under that key to the same value.
pub proof fn law_decrypt_undoes_encrypt(key: Seq<u8>, plaintext: Seq<char>, enc: EncryptedView)
    requires
        sealed(key, plaintext, enc),
    ensures
        open_envelope(key, enc) == Ok::<Seq<char>, SecretError>(plaintext),
{
    let dek = choose|dek: Seq<u8>| sealed_with(key, plaintext, dek, enc);
    assert(valid_utf8(encode_utf8(plaintext)));
    assert(decode_utf8(encode_utf8(plaintext)) == plaintext);
}

} // verus!
