//! Encryption support for a local database: a provider interface with a
//! no-op implementation for deployments without encryption, and an
//! AES-256-GCM implementation whose key and nonce are expanded from a
//! caller-supplied password hash.
//!
//! The cipher and the digest are outside crates; their calls stand behind
//! trusted wrappers, and everything around them — password bookkeeping, key
//! expansion, the exact error for each input — is verified.

use vstd::prelude::*;
use vstd::slice::slice_subrange;
use vstd::slice::slice_to_vec;
use aes_gcm::KeyInit;
use aes_gcm::aead::Aead;
use blake2::Digest;

verus! {

/// Domain tag mixed into the password digest for database-wide encryption.
pub const MOBILECOIND_DB_KEY_DOMAIN_TAG: &'static str = "mc_account_key";

/// The domain tag's characters, as the digest name speaks of them.
pub open spec fn spec_db_key_domain_tag() -> Seq<char> {
    MOBILECOIND_DB_KEY_DOMAIN_TAG@
}

/// Required password length, in bytes: callers pass a 32-byte hash of the
/// user's password, not the password itself.
pub const AES_PASSWORD_LEN: usize = 32;

/// The largest plaintext the cipher seals in one call: beyond it the
/// underlying AES-GCM implementation refuses the input.
pub const AES_PLAINTEXT_MAX: u64 = 68719476704;

/// Ways database encryption can fail.
#[derive(Clone, Copy, PartialEq, Eq, Structural, Debug)]
pub enum DbCryptoError {
    /// The database is encrypted and no encryption key was provided yet.
    MissingEncryptionKey,
    /// Database encryption is not enabled.
    EncryptionNotEnabled,
    /// An encryption key was already set.
    EncryptionKeyAlreadySet,
    /// The provided encryption key has the wrong length.
    EncryptionInvalidKeyLength,
    /// The cipher rejected the input: an oversized plaintext, or a
    /// ciphertext that failed authentication.
    Aead,
}

#[verifier::external_type_specification]
#[verifier::external_body]
pub struct ExAeadError(aes_gcm::Error);

/// The 64-byte digest the password expansion is built on.
pub uninterp spec fn blake2b512_of(tag: Seq<char>, data: Seq<u8>) -> Seq<u8>;

/// Relies on blake2::Blake2b512 through digest::Digest: feeding the tag's
/// bytes and then the data yields a 512-bit digest that depends on those
/// bytes alone.
#[verifier::external_body]
fn blake2b512_tagged(tag: &str, data: &Vec<u8>) -> (r: Vec<u8>)
    ensures
        r@ == blake2b512_of(tag@, data@),
        r@.len() == 64,
{
    let mut hasher = blake2::Blake2b512::new();
    hasher.update(tag.as_bytes());
    hasher.update(&data[..]);
    hasher.finalize().to_vec()
}

/// What AES-256-GCM sealing produces for this key, nonce and plaintext.
pub uninterp spec fn aes256_gcm_sealed(key: Seq<u8>, nonce: Seq<u8>, plaintext: Seq<u8>) -> Seq<
    u8,
>;

/// What AES-256-GCM opening recovers from this key, nonce and ciphertext:
/// the plaintext when the ciphertext is authentic, nothing otherwise.
pub uninterp spec fn aes256_gcm_opened(key: Seq<u8>, nonce: Seq<u8>, ciphertext: Seq<u8>) -> Option<
    Seq<u8>,
>;

/// Relies on aes_gcm::Aes256Gcm (KeyInit::new_from_slice and Aead::encrypt):
/// sealing is a function of key, nonce and plaintext alone; it refuses
/// exactly the plaintexts longer than the cipher's limit; and opening what
/// was sealed, under the same key and nonce, recovers the plaintext.
#[verifier::external_body]
fn aes256_gcm_seal(key: &Vec<u8>, nonce: &Vec<u8>, plaintext: &Vec<u8>) -> (r: Result<
    Vec<u8>,
    aes_gcm::Error,
>)
    requires
        key@.len() == 32,
        nonce@.len() == 12,
    ensures
        r is Ok <==> plaintext@.len() <= AES_PLAINTEXT_MAX,
        r matches Ok(ct) ==> ct@ == aes256_gcm_sealed(key@, nonce@, plaintext@)
            && aes256_gcm_opened(key@, nonce@, ct@) == Some(plaintext@),
{
    let cipher = match aes_gcm::Aes256Gcm::new_from_slice(&key[..]) {
        Ok(c) => c,
        Err(_) => return Err(aes_gcm::Error),
    };
    let nonce_arr = match aes_gcm::Nonce::<aes_gcm::aead::consts::U12>::try_from(&nonce[..]) {
        Ok(n) => n,
        Err(_) => return Err(aes_gcm::Error),
    };
    cipher.encrypt(&nonce_arr, &plaintext[..])
}

/// Relies on aes_gcm::Aes256Gcm (KeyInit::new_from_slice and Aead::decrypt):
/// opening is a function of key, nonce and ciphertext alone, and it fails
/// exactly when that function recovers nothing.
#[verifier::external_body]
fn aes256_gcm_open(key: &Vec<u8>, nonce: &Vec<u8>, ciphertext: &Vec<u8>) -> (r: Result<
    Vec<u8>,
    aes_gcm::Error,
>)
    requires
        key@.len() == 32,
        nonce@.len() == 12,
    ensures
        r matches Ok(pt) ==> aes256_gcm_opened(key@, nonce@, ciphertext@) == Some(pt@),
        r is Err ==> aes256_gcm_opened(key@, nonce@, ciphertext@) is None,
{
    let cipher = match aes_gcm::Aes256Gcm::new_from_slice(&key[..]) {
        Ok(c) => c,
        Err(_) => return Err(aes_gcm::Error),
    };
    let nonce_arr = match aes_gcm::Nonce::<aes_gcm::aead::consts::U12>::try_from(&nonce[..]) {
        Ok(n) => n,
        Err(_) => return Err(aes_gcm::Error),
    };
    cipher.decrypt(&nonce_arr, &ciphertext[..])
}

/// The cipher key expanded from a stored password: the first 32 digest bytes.
pub open spec fn spec_expanded_key(password: Seq<u8>) -> Seq<u8> {
    blake2b512_of(spec_db_key_domain_tag(), password).subrange(0, 32)
}

/// The nonce expanded from a stored password: the next 12 digest bytes.
pub open spec fn spec_expanded_nonce(password: Seq<u8>) -> Seq<u8> {
    blake2b512_of(spec_db_key_domain_tag(), password).subrange(32, 44)
}

/// Interface for database encryption support.
pub trait DbCryptoProvider: Sized {
    /// The provider's current key state, if it keeps one.
    spec fn spec_key(&self) -> Option<Seq<u8>>;

    /// The key state and result that setting this password owes.
    spec fn spec_password_outcome(&self, password: Seq<u8>) -> (
        Option<Seq<u8>>,
        Result<(), DbCryptoError>,
    );

    /// The key state and result that clearing the password owes.
    spec fn spec_clear_outcome(&self) -> (Option<Seq<u8>>, Result<(), DbCryptoError>);

    /// Whether a password is needed: distinguishes an encrypting backend
    /// from the no-op one.
    spec fn spec_requires_password(&self) -> bool;

    /// What encrypting this data returns, given the provider's state.
    spec fn spec_encrypt(&self, data: Seq<u8>) -> Result<Seq<u8>, DbCryptoError>;

    /// What decrypting this data returns, given the provider's state.
    spec fn spec_decrypt(&self, data: Seq<u8>) -> Result<Seq<u8>, DbCryptoError>;

    /// Sets the password to use.
    fn set_password(&mut self, password: &[u8]) -> (r: Result<(), DbCryptoError>)
        ensures
            ({
                let (key2, owed) = old(self).spec_password_outcome(password@);
                final(self).spec_key() == key2 && r == owed
            }),
    ;

    /// Clears the password.
    fn clear_password(&mut self) -> (r: Result<(), DbCryptoError>)
        ensures
            ({
                let (key2, owed) = old(self).spec_clear_outcome();
                final(self).spec_key() == key2 && r == owed
            }),
    ;

    /// Whether a password is needed or not.
    fn requires_password(&self) -> (r: bool)
        ensures
            r == self.spec_requires_password(),
    ;

    /// Encrypts data. What comes back decrypts to the data again.
    fn encrypt(&self, data: &[u8]) -> (r: Result<Vec<u8>, DbCryptoError>)
        ensures
            match (r, self.spec_encrypt(data@)) {
                (Ok(v), Ok(owed)) => v@ == owed,
                (Err(e), Err(owed)) => e == owed,
                _ => false,
            },
            r matches Ok(v) ==> self.spec_decrypt(v@) == Ok::<Seq<u8>, DbCryptoError>(data@),
    ;

    /// Decrypts data.
    fn decrypt(&self, data: &[u8]) -> (r: Result<Vec<u8>, DbCryptoError>)
        ensures
            match (r, self.spec_decrypt(data@)) {
                (Ok(v), Ok(owed)) => v@ == owed,
                (Err(e), Err(owed)) => e == owed,
                _ => false,
            },
    ;
}

/// A no-op crypto provider, used when encryption is disabled: data passes
/// through unchanged and password operations are refused.
#[derive(Clone, Copy, Default)]
pub struct NullDbCryptoProvider;

impl DbCryptoProvider for NullDbCryptoProvider {
    open spec fn spec_key(&self) -> Option<Seq<u8>> {
        None
    }

    open spec fn spec_password_outcome(&self, password: Seq<u8>) -> (
        Option<Seq<u8>>,
        Result<(), DbCryptoError>,
    ) {
        (None, Err(DbCryptoError::EncryptionNotEnabled))
    }

    open spec fn spec_clear_outcome(&self) -> (Option<Seq<u8>>, Result<(), DbCryptoError>) {
        (None, Err(DbCryptoError::EncryptionNotEnabled))
    }

    open spec fn spec_requires_password(&self) -> bool {
        false
    }

    open spec fn spec_encrypt(&self, data: Seq<u8>) -> Result<Seq<u8>, DbCryptoError> {
        Ok(data)
    }

    open spec fn spec_decrypt(&self, data: Seq<u8>) -> Result<Seq<u8>, DbCryptoError> {
        Ok(data)
    }

    fn set_password(&mut self, password: &[u8]) -> (r: Result<(), DbCryptoError>) {
        Err(DbCryptoError::EncryptionNotEnabled)
    }

    fn clear_password(&mut self) -> (r: Result<(), DbCryptoError>) {
        Err(DbCryptoError::EncryptionNotEnabled)
    }

    fn requires_password(&self) -> (r: bool) {
        false
    }

    fn encrypt(&self, data: &[u8]) -> (r: Result<Vec<u8>, DbCryptoError>) {
        Ok(slice_to_vec(data))
    }

    fn decrypt(&self, data: &[u8]) -> (r: Result<Vec<u8>, DbCryptoError>) {
        Ok(slice_to_vec(data))
    }
}

/// AES-256-GCM crypto provider: holds at most one 32-byte password hash,
/// from which the cipher key and nonce are expanded per call.
#[derive(Clone)]
pub struct AesDbCryptoProvider {
    encryption_key: Option<Vec<u8>>,
}

impl Default for AesDbCryptoProvider {
    /// A provider with no password set.
    fn default() -> (r: AesDbCryptoProvider)
        ensures
            r.spec_key() is None,
    {
        AesDbCryptoProvider { encryption_key: None }
    }
}

impl AesDbCryptoProvider {
    /// A provider with no password set.
    pub fn new() -> (r: AesDbCryptoProvider)
        ensures
            r.spec_key() is None,
    {
        AesDbCryptoProvider { encryption_key: None }
    }

    /// The stored encryption key if available, or an error when one is
    /// needed and has not been provided yet.
    pub fn get_encryption_key(&self) -> (r: Result<Vec<u8>, DbCryptoError>)
        ensures
            match (r, self.spec_key()) {
                (Ok(k), Some(owed)) => k@ == owed,
                (Err(e), None) => e == DbCryptoError::MissingEncryptionKey,
                _ => false,
            },
    {
        match &self.encryption_key {
            Some(key) => Ok(key.clone()),
            None => Err(DbCryptoError::MissingEncryptionKey),
        }
    }

    /// Expands the stored password into a cipher key and a nonce: a 64-byte
    /// digest of the domain tag and the password, split 32 bytes for the key
    /// and 12 for the nonce.
    fn expand_password(&self) -> (r: Result<(Vec<u8>, Vec<u8>), DbCryptoError>)
        ensures
            match (r, self.spec_key()) {
                (Ok(pair), Some(pw)) => pair.0@ == spec_expanded_key(pw) && pair.1@
                    == spec_expanded_nonce(pw) && pair.0@.len() == 32 && pair.1@.len() == 12,
                (Err(e), None) => e == DbCryptoError::MissingEncryptionKey,
                _ => false,
            },
    {
        let password = match &self.encryption_key {
            Some(key) => key,
            None => { return Err(DbCryptoError::MissingEncryptionKey) },
        };
        let digest = blake2b512_tagged(MOBILECOIND_DB_KEY_DOMAIN_TAG, password);
        let key = slice_to_vec(slice_subrange(digest.as_slice(), 0, 32));
        let nonce = slice_to_vec(slice_subrange(digest.as_slice(), 32, 44));
        Ok((key, nonce))
    }
}

impl DbCryptoProvider for AesDbCryptoProvider {
    closed spec fn spec_key(&self) -> Option<Seq<u8>> {
        match self.encryption_key {
            Some(k) => Some(k@),
            None => None,
        }
    }

    open spec fn spec_password_outcome(&self, password: Seq<u8>) -> (
        Option<Seq<u8>>,
        Result<(), DbCryptoError>,
    ) {
        if self.spec_key() is Some {
            (self.spec_key(), Err(DbCryptoError::EncryptionKeyAlreadySet))
        } else if password.len() != AES_PASSWORD_LEN {
            (None, Err(DbCryptoError::EncryptionInvalidKeyLength))
        } else {
            (Some(password), Ok(()))
        }
    }

    open spec fn spec_clear_outcome(&self) -> (Option<Seq<u8>>, Result<(), DbCryptoError>) {
        (None, Ok(()))
    }

    open spec fn spec_requires_password(&self) -> bool {
        true
    }

    open spec fn spec_encrypt(&self, data: Seq<u8>) -> Result<Seq<u8>, DbCryptoError> {
        match self.spec_key() {
            None => Err(DbCryptoError::MissingEncryptionKey),
            Some(pw) => {
                if data.len() <= AES_PLAINTEXT_MAX {
                    Ok(aes256_gcm_sealed(spec_expanded_key(pw), spec_expanded_nonce(pw), data))
                } else {
                    Err(DbCryptoError::Aead)
                }
            },
        }
    }

    open spec fn spec_decrypt(&self, data: Seq<u8>) -> Result<Seq<u8>, DbCryptoError> {
        match self.spec_key() {
            None => Err(DbCryptoError::MissingEncryptionKey),
            Some(pw) => {
                match aes256_gcm_opened(
                    spec_expanded_key(pw),
                    spec_expanded_nonce(pw),
                    data,
                ) {
                    Some(pt) => Ok(pt),
                    None => Err(DbCryptoError::Aead),
                }
            },
        }
    }

    fn set_password(&mut self, password: &[u8]) -> (r: Result<(), DbCryptoError>) {
        if self.encryption_key.is_some() {
            Err(DbCryptoError::EncryptionKeyAlreadySet)
        } else if password.len() != AES_PASSWORD_LEN {
            Err(DbCryptoError::EncryptionInvalidKeyLength)
        } else {
            self.encryption_key = Some(slice_to_vec(password));
            Ok(())
        }
    }

    fn clear_password(&mut self) -> (r: Result<(), DbCryptoError>) {
        self.encryption_key = None;
        Ok(())
    }

    fn requires_password(&self) -> (r: bool) {
        true
    }

    fn encrypt(&self, data: &[u8]) -> (r: Result<Vec<u8>, DbCryptoError>) {
        let (key, nonce) = match self.expand_password() {
            Ok(pair) => pair,
            Err(e) => { return Err(e) },
        };
        let plaintext = slice_to_vec(data);
        match aes256_gcm_seal(&key, &nonce, &plaintext) {
            Ok(ct) => Ok(ct),
            Err(_) => Err(DbCryptoError::Aead),
        }
    }

    fn decrypt(&self, data: &[u8]) -> (r: Result<Vec<u8>, DbCryptoError>) {
        let (key, nonce) = match self.expand_password() {
            Ok(pair) => pair,
            Err(e) => { return Err(e) },
        };
        let ciphertext = slice_to_vec(data);
        match aes256_gcm_open(&key, &nonce, &ciphertext) {
            Ok(pt) => Ok(pt),
            Err(_) => Err(DbCryptoError::Aead),
        }
    }
}

} // verus!
