//! Key derivation, authenticated encryption, base64 and random bytes.
//!
//! The algorithms themselves are those of the `argon2`, `aes-gcm`, `base64`
//! and `rand` crates. Each is reached through one function of this module
//! whose contract is taken on trust; the results of the deterministic ones
//! are given names, so that the contracts built on them are exact.

use aes_gcm::aead::Aead;
use aes_gcm::aead::KeyInit;
use base64::Engine;
use rand::RngCore;
use vstd::prelude::*;

use crate::errors::VaultError;
use crate::model::KdfParams;
use crate::model::KdfParamsView;

verus! {

/// The length of an AES-256 key, in bytes.
pub const KEY_LENGTH: usize = 32;

/// The length of an AES-GCM nonce, in bytes.
pub const NONCE_LENGTH: usize = 12;

/// The length of the authentication tag that AES-GCM appends, in bytes.
pub const TAG_LENGTH: usize = 16;

/// The largest degree of parallelism Argon2 accepts.
pub const MAX_PARALLELISM: u32 = 0xFF_FFFF;

/// The output of Argon2id, version 0x13, without secret or associated data:
/// what `argon2::Argon2::hash_password_into` writes for these inputs, or
/// `None` where `argon2::Params::new` or the hashing reports an error.
pub uninterp spec fn argon2id_output(
    password: Seq<u8>,
    salt: Seq<u8>,
    memory_kib: u32,
    time_cost: u32,
    parallelism: u32,
    length: nat,
) -> Option<Seq<u8>>;

/// What AES-256-GCM encryption without associated data returns: the
/// ciphertext followed by its tag, or `None` where the cipher reports an error.
pub uninterp spec fn aes256gcm_sealed(key: Seq<u8>, nonce: Seq<u8>, plaintext: Seq<u8>) -> Option<
    Seq<u8>,
>;

/// What AES-256-GCM decryption without associated data returns: the
/// plaintext, or `None` where the tag does not authenticate the ciphertext.
pub uninterp spec fn aes256gcm_opened(key: Seq<u8>, nonce: Seq<u8>, sealed: Seq<u8>) -> Option<
    Seq<u8>,
>;

/// The standard base64 text, with padding, of a byte string.
pub uninterp spec fn base64_text(bytes: Seq<u8>) -> Seq<char>;

/// The bytes that a standard base64 text stands for, or `None` where the
/// text is not valid base64.
pub uninterp spec fn base64_bytes(text: Seq<char>) -> Option<Seq<u8>>;

/// The ranges Argon2 documents for its inputs: at least 8 KiB of memory for
/// each lane, at least one pass, between 1 and 2^24 - 1 lanes, at least 4
/// bytes of output and at least 8 bytes of salt.
pub open spec fn argon2_inputs_in_range(
    salt_length: nat,
    memory_kib: u32,
    time_cost: u32,
    parallelism: u32,
    length: nat,
) -> bool {
    &&& 1 <= parallelism <= MAX_PARALLELISM
    &&& memory_kib >= 8 * parallelism
    &&& time_cost >= 1
    &&& length >= 4
    &&& salt_length >= 8
}

/// `argon2::Params::new`, `argon2::Argon2::new` with `Algorithm::Argon2id`
/// and `Version::V0x13`, and `argon2::Argon2::hash_password_into` on a fresh
/// buffer of `length` bytes.
///
/// Trusted: the outcome is `argon2id_output` of the arguments; a derived key
/// has the requested length; inputs outside the documented ranges are
/// refused. `Params::new` multiplies the parallelism by 8 in 32 bits before
/// it checks it, so callers keep it within the documented maximum.
#[verifier::external_body]
fn argon2id_hash(
    password: &[u8],
    salt: &[u8],
    memory_kib: u32,
    time_cost: u32,
    parallelism: u32,
    length: usize,
) -> (r: Option<Vec<u8>>)
    requires
        parallelism <= MAX_PARALLELISM,
    ensures
        match r {
            Some(key) => argon2id_output(
                password@,
                salt@,
                memory_kib,
                time_cost,
                parallelism,
                length as nat,
            ) == Some(key@) && key@.len() == length,
            None => argon2id_output(
                password@,
                salt@,
                memory_kib,
                time_cost,
                parallelism,
                length as nat,
            ) is None,
        },
        !argon2_inputs_in_range(salt@.len(), memory_kib, time_cost, parallelism, length as nat)
            ==> r is None,
{
    let params = argon2::Params::new(memory_kib, time_cost, parallelism, Some(length)).ok()?;
    let hasher = argon2::Argon2::new(argon2::Algorithm::Argon2id, argon2::Version::V0x13, params);
    let mut key = vec![0u8; length];
    hasher.hash_password_into(password, salt, &mut key).ok()?;
    Some(key)
}

/// `aes_gcm::Aes256Gcm::new_from_slice` and `aes_gcm::aead::Aead::encrypt`.
///
/// Trusted: the outcome is `aes256gcm_sealed` of the arguments; the sealed
/// bytes are the plaintext's length plus the tag; and decryption under the
/// same key and nonce gives the plaintext back. The nonce is converted with
/// `Nonce::from_slice`, which accepts 12 bytes only.
#[verifier::external_body]
fn aes256gcm_encrypt(key: &[u8], nonce: &[u8], plaintext: &[u8]) -> (r: Option<Vec<u8>>)
    requires
        key@.len() == KEY_LENGTH,
        nonce@.len() == NONCE_LENGTH,
    ensures
        match r {
            Some(sealed) => {
                &&& aes256gcm_sealed(key@, nonce@, plaintext@) == Some(sealed@)
                &&& sealed@.len() == plaintext@.len() + TAG_LENGTH
                &&& aes256gcm_opened(key@, nonce@, sealed@) == Some(plaintext@)
            },
            None => aes256gcm_sealed(key@, nonce@, plaintext@) is None,
        },
{
    let cipher = aes_gcm::Aes256Gcm::new_from_slice(key).ok()?;
    cipher.encrypt(aes_gcm::Nonce::from_slice(nonce), plaintext).ok()
}

/// `aes_gcm::Aes256Gcm::new_from_slice` and `aes_gcm::aead::Aead::decrypt`.
///
/// Trusted: the outcome is `aes256gcm_opened` of the arguments, and input
/// shorter than a tag is refused. The nonce is converted with
/// `Nonce::from_slice`, which accepts 12 bytes only.
#[verifier::external_body]
fn aes256gcm_decrypt(key: &[u8], nonce: &[u8], sealed: &[u8]) -> (r: Option<Vec<u8>>)
    requires
        key@.len() == KEY_LENGTH,
        nonce@.len() == NONCE_LENGTH,
    ensures
        match r {
            Some(plaintext) => aes256gcm_opened(key@, nonce@, sealed@) == Some(plaintext@),
            None => aes256gcm_opened(key@, nonce@, sealed@) is None,
        },
        sealed@.len() < TAG_LENGTH ==> r is None,
{
    let cipher = aes_gcm::Aes256Gcm::new_from_slice(key).ok()?;
    cipher.decrypt(aes_gcm::Nonce::from_slice(nonce), sealed).ok()
}

/// `base64::Engine::encode` of `base64::engine::general_purpose::STANDARD`.
///
/// Trusted: the result is `base64_text` of the bytes, and decoding it gives
/// the bytes back.
#[verifier::external_body]
pub(crate) fn base64_encode(bytes: &[u8]) -> (text: String)
    ensures
        text@ == base64_text(bytes@),
        base64_bytes(text@) == Some(bytes@),
{
    base64::engine::general_purpose::STANDARD.encode(bytes)
}

/// `base64::Engine::decode` of `base64::engine::general_purpose::STANDARD`.
///
/// Trusted: the outcome is `base64_bytes` of the text.
#[verifier::external_body]
pub(crate) fn base64_decode(text: &str) -> (r: Option<Vec<u8>>)
    ensures
        match r {
            Some(bytes) => base64_bytes(text@) == Some(bytes@),
            None => base64_bytes(text@) is None,
        },
{
    base64::engine::general_purpose::STANDARD.decode(text).ok()
}

/// `rand::RngCore::try_fill_bytes` of `rand::rngs::OsRng` on a fresh buffer.
///
/// Trusted: on success the buffer has the requested length. Nothing is
/// claimed of its content, which differs from call to call.
#[verifier::external_body]
pub(crate) fn random_bytes(length: usize) -> (r: Option<Vec<u8>>)
    ensures
        r matches Some(bytes) ==> bytes@.len() == length,
{
    let mut bytes = vec![0u8; length];
    rand::rngs::OsRng.try_fill_bytes(&mut bytes).ok()?;
    Some(bytes)
}

/// The key that a password, a salt and the recorded parameters derive, or
/// `None` where the derivation fails.
pub open spec fn derived_key(password: Seq<u8>, salt: Seq<u8>, params: KdfParamsView) -> Option<
    Seq<u8>,
> {
    if params.parallelism > MAX_PARALLELISM {
        None
    } else {
        argon2id_output(
            password,
            salt,
            params.memory_kib,
            params.time_cost,
            params.parallelism,
            params.hash_length as nat,
        )
    }
}

/// Whether Argon2 accepts the recorded parameters with a salt of the given
/// length.
pub open spec fn kdf_inputs_in_range(salt_length: nat, params: KdfParamsView) -> bool {
    argon2_inputs_in_range(
        salt_length,
        params.memory_kib,
        params.time_cost,
        params.parallelism,
        params.hash_length as nat,
    )
}

/// Derives the symmetric key from the master password with Argon2id.
///
/// The same inputs always give the same key. Inputs outside the ranges that
/// Argon2 accepts fail with `VaultError::KeyDerivation`.
pub fn derive_key(password: &[u8], salt: &[u8], params: &KdfParams) -> (r: Result<
    Vec<u8>,
    VaultError,
>)
    ensures
        match r {
            Ok(key) => derived_key(password@, salt@, params@) == Some(key@) && key@.len()
                == params.hash_length,
            Err(e) => e == VaultError::KeyDerivation && derived_key(password@, salt@, params@)
                is None,
        },
        !kdf_inputs_in_range(salt@.len(), params@) ==> r is Err,
{
    if params.parallelism > MAX_PARALLELISM {
        return Err(VaultError::KeyDerivation);
    }
    match argon2id_hash(
        password,
        salt,
        params.memory_kib,
        params.time_cost,
        params.parallelism,
        params.hash_length as usize,
    ) {
        Some(key) => Ok(key),
        None => Err(VaultError::KeyDerivation),
    }
}

/// What `seal` returns.
pub open spec fn seal_spec(key: Seq<u8>, nonce: Seq<u8>, plaintext: Seq<u8>) -> Result<
    Seq<u8>,
    VaultError,
> {
    if key.len() != KEY_LENGTH {
        Err(VaultError::UnusableKey)
    } else if nonce.len() != NONCE_LENGTH {
        Err(VaultError::InvalidNonceEncoding)
    } else {
        match aes256gcm_sealed(key, nonce, plaintext) {
            Some(sealed) => Ok(sealed),
            None => Err(VaultError::EncryptionFailed),
        }
    }
}

/// What `open` returns.
pub open spec fn open_spec(key: Seq<u8>, nonce: Seq<u8>, sealed: Seq<u8>) -> Result<
    Seq<u8>,
    VaultError,
> {
    if key.len() != KEY_LENGTH {
        Err(VaultError::UnusableKey)
    } else if nonce.len() != NONCE_LENGTH {
        Err(VaultError::InvalidNonceEncoding)
    } else {
        match aes256gcm_opened(key, nonce, sealed) {
            Some(plaintext) => Ok(plaintext),
            None => Err(VaultError::Authentication),
        }
    }
}

/// The view of the outcome of `seal` or `open`.
pub open spec fn bytes_result_view(r: Result<Vec<u8>, VaultError>) -> Result<Seq<u8>, VaultError> {
    match r {
        Ok(bytes) => Ok(bytes@),
        Err(e) => Err(e),
    }
}

/// Encrypts and authenticates a plaintext with AES-256-GCM.
///
/// A key that is not 32 bytes long is refused with `UnusableKey`, a nonce
/// that is not 12 bytes long with `InvalidNonceEncoding`. The result is the
/// ciphertext followed by a tag of 16 bytes, and it opens again under the
/// same key and nonce.
pub fn seal(key: &[u8], nonce: &[u8], plaintext: &[u8]) -> (r: Result<Vec<u8>, VaultError>)
    ensures
        bytes_result_view(r) == seal_spec(key@, nonce@, plaintext@),
        r matches Ok(sealed) ==> sealed@.len() == plaintext@.len() + TAG_LENGTH,
        r matches Ok(sealed) ==> open_spec(key@, nonce@, sealed@) == Ok::<Seq<u8>, VaultError>(
            plaintext@,
        ),
{
    if key.len() != KEY_LENGTH {
        return Err(VaultError::UnusableKey);
    }
    if nonce.len() != NONCE_LENGTH {
        return Err(VaultError::InvalidNonceEncoding);
    }
    match aes256gcm_encrypt(key, nonce, plaintext) {
        Some(sealed) => Ok(sealed),
        None => Err(VaultError::EncryptionFailed),
    }
}

/// Decrypts what `seal` produced.
///
/// Every failure of the cipher is the one error `Authentication`: a wrong
/// key and altered data cannot be told apart. No plaintext is returned
/// unless the tag authenticates the ciphertext.
pub fn open(key: &[u8], nonce: &[u8], sealed: &[u8]) -> (r: Result<Vec<u8>, VaultError>)
    ensures
        bytes_result_view(r) == open_spec(key@, nonce@, sealed@),
        key@.len() == KEY_LENGTH && nonce@.len() == NONCE_LENGTH && sealed@.len() < TAG_LENGTH
            ==> r == Err::<Vec<u8>, VaultError>(VaultError::Authentication),
{
    if key.len() != KEY_LENGTH {
        return Err(VaultError::UnusableKey);
    }
    if nonce.len() != NONCE_LENGTH {
        return Err(VaultError::InvalidNonceEncoding);
    }
    match aes256gcm_decrypt(key, nonce, sealed) {
        Some(plaintext) => Ok(plaintext),
        None => Err(VaultError::Authentication),
    }
}

/// Overwrites a buffer that held a secret with zeros, so that the secret
/// does not linger in memory that is given back.
pub fn wipe(bytes: &mut Vec<u8>)
    ensures
        final(bytes)@.len() == old(bytes)@.len(),
        forall|i: int| 0 <= i < final(bytes)@.len() ==> final(bytes)@[i] == 0,
{
    let mut i: usize = 0;
    while i < bytes.len()
        invariant
            i <= bytes@.len(),
            bytes@.len() == old(bytes)@.len(),
            forall|j: int| 0 <= j < i ==> bytes@[j] == 0,
        decreases bytes.len() - i,
    {
        bytes.set(i, 0);
        i = i + 1;
    }
}

} // verus!
