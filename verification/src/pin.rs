//! The PIN of a secure folder: hashing it when the folder is made and
//! verifying it afterwards, apart from the master key.

use argon2::password_hash::PasswordHasher;
use argon2::password_hash::PasswordVerifier;
use vstd::prelude::*;
use vstd::string::StringSliceAdditionalSpecFns;

use crate::crypto::random_bytes;
use crate::errors::VaultError;
use crate::model::text_result_view;
use crate::text::ascii_digit;
use crate::text::is_ascii_digit;
use crate::text::to_chars;

verus! {

/// The length of the salt of a PIN hash, in bytes.
pub const PIN_SALT_LENGTH: usize = 16;

/// The most digits that a parallelism in a stored hash may have.
pub const MAX_PARALLELISM_DIGITS: usize = 8;

/// The hash text that Argon2 with its default parameters gives a PIN under
/// a salt: what `SaltString::encode_b64` and `PasswordHasher::hash_password`
/// produce, or `None` where either reports an error.
pub uninterp spec fn pin_hash_text(pin: Seq<u8>, salt: Seq<u8>) -> Option<Seq<char>>;

/// Whether `PasswordHash::new` reads a text as a password hash.
pub uninterp spec fn password_hash_readable(hash: Seq<char>) -> bool;

/// Whether `PasswordVerifier::verify_password` of Argon2 accepts a PIN for
/// a stored hash.
pub uninterp spec fn pin_hash_matches(hash: Seq<char>, pin: Seq<u8>) -> bool;

/// The number of ASCII digits that follow each other from `from` on.
pub open spec fn digit_run(s: Seq<char>, from: int) -> nat
    decreases s.len() - from,
{
    if 0 <= from < s.len() && ascii_digit(s[from]) {
        1 + digit_run(s, from + 1)
    } else {
        0
    }
}

/// Whether a `p=` stands at a position of a text.
pub open spec fn parallelism_at(s: Seq<char>, i: int) -> bool {
    0 <= i && i + 1 < s.len() && s[i] == 'p' && s[i + 1] == '='
}

/// Whether every parallelism that a stored hash could carry has at most
/// eight digits, so that Argon2 can check it without overflow.
pub open spec fn parallelism_bounded(hash: Seq<char>) -> bool {
    forall|i: int| #[trigger]
        parallelism_at(hash, i) ==> digit_run(hash, i + 2) <= MAX_PARALLELISM_DIGITS
}

/// `argon2::password_hash::SaltString::encode_b64`,
/// `PasswordHasher::hash_password` of `argon2::Argon2::default()` and the
/// hash's `to_string`.
///
/// Trusted: the outcome is `pin_hash_text` of the arguments; the text reads
/// as a password hash, and it matches the PIN it was made from. A salt whose
/// text is shorter than four characters makes `hash_password` panic, so
/// callers hand over 16 bytes.
#[verifier::external_body]
fn argon2_hash_pin(pin: &[u8], salt: &[u8]) -> (r: Option<String>)
    requires
        salt@.len() == PIN_SALT_LENGTH,
    ensures
        match r {
            Some(hash) => {
                &&& pin_hash_text(pin@, salt@) == Some(hash@)
                &&& password_hash_readable(hash@)
                &&& pin_hash_matches(hash@, pin@)
            },
            None => pin_hash_text(pin@, salt@) is None,
        },
{
    let salt_text = argon2::password_hash::SaltString::encode_b64(salt).ok()?;
    let hash = argon2::Argon2::default().hash_password(pin, &salt_text).ok()?;
    Some(hash.to_string())
}

/// `argon2::password_hash::PasswordHash::new`.
///
/// Trusted: the result says whether the text was read, which is
/// `password_hash_readable` of it.
#[verifier::external_body]
fn is_password_hash(hash: &str) -> (r: bool)
    ensures
        r == password_hash_readable(hash@),
{
    argon2::password_hash::PasswordHash::new(hash).is_ok()
}

/// `argon2::password_hash::PasswordHash::new` and
/// `PasswordVerifier::verify_password` of `argon2::Argon2::default()`.
///
/// Trusted: the result says whether the PIN was accepted, which is
/// `pin_hash_matches` of the arguments. Argon2 multiplies the parallelism
/// of the stored hash by 8 in 32 bits before it checks it, so callers keep
/// it to eight digits.
#[verifier::external_body]
fn argon2_verify_pin(pin: &[u8], hash: &str) -> (r: bool)
    requires
        password_hash_readable(hash@),
        parallelism_bounded(hash@),
    ensures
        r == pin_hash_matches(hash@, pin@),
{
    match argon2::password_hash::PasswordHash::new(hash) {
        Ok(parsed) => argon2::Argon2::default().verify_password(pin, &parsed).is_ok(),
        Err(_) => false,
    }
}

/// Counts the ASCII digits from `from` on, up to one more than `limit`.
fn count_digits(chars: &Vec<char>, from: usize, limit: usize) -> (r: usize)
    requires
        from <= chars@.len(),
        limit < usize::MAX,
    ensures
        r <= limit + 1,
        r <= limit ==> r == digit_run(chars@, from as int),
        r == limit + 1 ==> digit_run(chars@, from as int) > limit,
{
    let mut n: usize = 0;
    while n <= limit && n < chars.len() - from && is_ascii_digit(chars[from + n])
        invariant
            from <= chars@.len(),
            limit < usize::MAX,
            n <= limit + 1,
            n <= chars@.len() - from,
            digit_run(chars@, from as int) == n + digit_run(chars@, from + n),
        decreases limit + 1 - n,
    {
        n = n + 1;
    }
    n
}

/// Whether every `p=` in a stored hash is followed by at most eight digits.
pub fn has_bounded_parallelism(hash: &str) -> (r: bool)
    ensures
        r == parallelism_bounded(hash@),
{
    let chars = to_chars(hash);
    if chars.len() < 2 {
        return true;
    }
    let mut i: usize = 0;
    while i < chars.len() - 1
        invariant
            chars@ == hash@,
            chars@.len() >= 2,
            i <= chars@.len() - 1,
            forall|j: int|
                0 <= j < i && #[trigger] parallelism_at(chars@, j) ==> digit_run(chars@, j + 2)
                    <= MAX_PARALLELISM_DIGITS,
        decreases chars.len() - i,
    {
        if chars[i] == 'p' && chars[i + 1] == '=' {
            let digits: usize = count_digits(&chars, i + 2, MAX_PARALLELISM_DIGITS);
            if digits > MAX_PARALLELISM_DIGITS {
                assert(parallelism_at(chars@, i as int));
                return false;
            }
        }
        i = i + 1;
    }
    true
}

/// What `hash_pin_with_salt` returns.
pub open spec fn salted_pin_hash(pin: Seq<u8>, salt: Seq<u8>) -> Result<Seq<char>, VaultError> {
    if salt.len() != PIN_SALT_LENGTH {
        Err(VaultError::PinHashingFailed)
    } else {
        match pin_hash_text(pin, salt) {
            Some(hash) => if parallelism_bounded(hash) {
                Ok(hash)
            } else {
                Err(VaultError::PinHashingFailed)
            },
            None => Err(VaultError::PinHashingFailed),
        }
    }
}

/// What `verify_pin` returns.
pub open spec fn pin_verdict(pin: Seq<u8>, hash: Seq<char>) -> Result<bool, VaultError> {
    if !password_hash_readable(hash) {
        Err(VaultError::PinHashUnreadable)
    } else if !parallelism_bounded(hash) {
        Ok(false)
    } else {
        Ok(pin_hash_matches(hash, pin))
    }
}

/// Hashes a PIN under a given salt of 16 bytes with Argon2 at its default
/// cost. A salt of another length is refused.
///
/// The hash verifies the PIN it was made from.
pub fn hash_pin_with_salt(pin: &str, salt: &[u8]) -> (r: Result<String, VaultError>)
    ensures
        text_result_view(r) == salted_pin_hash(pin.spec_bytes(), salt@),
        r matches Ok(hash) ==> pin_verdict(pin.spec_bytes(), hash@) == Ok::<bool, VaultError>(
            true,
        ),
{
    if salt.len() != PIN_SALT_LENGTH {
        return Err(VaultError::PinHashingFailed);
    }
    match argon2_hash_pin(pin.as_bytes(), salt) {
        Some(hash) => if has_bounded_parallelism(hash.as_str()) {
            Ok(hash)
        } else {
            Err(VaultError::PinHashingFailed)
        },
        None => Err(VaultError::PinHashingFailed),
    }
}

/// Whether a text is the hash of a PIN under some salt of 16 bytes.
pub open spec fn fresh_pin_hash(pin: Seq<u8>, hash: Seq<char>) -> bool {
    exists|salt: Seq<u8>|
        salt.len() == PIN_SALT_LENGTH && #[trigger] salted_pin_hash(pin, salt) == Ok::<
            Seq<char>,
            VaultError,
        >(hash)
}

/// Hashes a PIN under a fresh random salt.
///
/// On success the hash is the one of the PIN under some salt of 16 bytes,
/// and it verifies the PIN. The raw PIN is not kept.
pub fn hash_pin(pin: &str) -> (r: Result<String, VaultError>)
    ensures
        match r {
            Ok(hash) => {
                &&& fresh_pin_hash(pin.spec_bytes(), hash@)
                &&& pin_verdict(pin.spec_bytes(), hash@) == Ok::<bool, VaultError>(true)
            },
            Err(e) => e == VaultError::RandomSourceFailed || e == VaultError::PinHashingFailed,
        },
{
    let salt = match random_bytes(PIN_SALT_LENGTH) {
        Some(bytes) => bytes,
        None => {
            return Err(VaultError::RandomSourceFailed);
        },
    };
    hash_pin_with_salt(pin, salt.as_slice())
}

/// Verifies a PIN against a stored hash.
///
/// A stored hash that cannot be read is the error `PinHashUnreadable`; a PIN
/// that does not match is `Ok(false)`, not an error.
pub fn verify_pin(pin: &str, hash: &str) -> (r: Result<bool, VaultError>)
    ensures
        r == pin_verdict(pin.spec_bytes(), hash@),
{
    if !is_password_hash(hash) {
        return Err(VaultError::PinHashUnreadable);
    }
    if !has_bounded_parallelism(hash) {
        return Ok(false);
    }
    Ok(argon2_verify_pin(pin.as_bytes(), hash))
}

} // verus!
