//! What marks a new folder or credential: a fresh identifier and the time
//! of the change. Both come from outside, the one from the random source
//! and the other from the clock, and either can fail.

use vstd::prelude::*;

use crate::crypto::random_bytes;
use crate::errors::VaultError;
use crate::model::text_result_view;

verus! {

/// The length of an identifier: a UUID in its hyphenated form.
pub const IDENTIFIER_LENGTH: usize = 36;

/// The number of random bytes that an identifier is made of.
pub const IDENTIFIER_BYTES: usize = 16;

/// The number of nanoseconds in a second.
pub const NANOS_PER_SECOND: u32 = 1_000_000_000;

/// The largest number of seconds that a signed 64-bit count holds.
pub const MAX_SECONDS: u64 = 0x7FFF_FFFF_FFFF_FFFF;

/// The text of the version 4 UUID that `uuid::Builder::from_random_bytes`
/// makes of 16 bytes: what the `to_string` of its `into_uuid` returns.
pub uninterp spec fn identifier_text(random: Seq<u8>) -> Seq<char>;

/// The RFC 3339 text of the moment that lies the given seconds and
/// nanoseconds after the start of 1970 in UTC: what
/// `chrono::DateTime::to_rfc3339` returns for the result of
/// `chrono::DateTime::from_timestamp`, or `None` where that has no result.
pub uninterp spec fn rfc3339_text(seconds: i64, nanos: u32) -> Option<Seq<char>>;

/// `uuid::Builder::from_random_bytes`, `uuid::Builder::into_uuid` and the
/// UUID's `to_string`.
///
/// Trusted: the text is `identifier_text` of the bytes and has the 36
/// characters of the hyphenated form. The bytes are copied into an array of
/// 16, which takes exactly that many.
#[verifier::external_body]
fn uuid_from_random_bytes(random: &[u8]) -> (id: String)
    requires
        random@.len() == IDENTIFIER_BYTES,
    ensures
        id@ == identifier_text(random@),
        id@.len() == IDENTIFIER_LENGTH,
{
    let mut bytes = [0u8; 16];
    bytes.copy_from_slice(random);
    uuid::Builder::from_random_bytes(bytes).into_uuid().to_string()
}

/// `std::time::SystemTime::elapsed` of `std::time::UNIX_EPOCH`, as whole
/// seconds and the nanoseconds beyond them.
///
/// Trusted: the nanoseconds are less than a second. `None` stands for a
/// clock that is set before 1970. Nothing is claimed of the reading itself,
/// which differs from call to call.
#[verifier::external_body]
fn time_since_epoch() -> (r: Option<(u64, u32)>)
    ensures
        r matches Some(reading) ==> reading.1 < NANOS_PER_SECOND,
{
    let elapsed = std::time::UNIX_EPOCH.elapsed().ok()?;
    Some((elapsed.as_secs(), elapsed.subsec_nanos()))
}

/// `chrono::DateTime::from_timestamp` and `chrono::DateTime::to_rfc3339`.
///
/// Trusted: the outcome is `rfc3339_text` of the arguments, and a text is
/// never empty.
#[verifier::external_body]
fn rfc3339_from_timestamp(seconds: i64, nanos: u32) -> (r: Option<String>)
    ensures
        match r {
            Some(text) => rfc3339_text(seconds, nanos) == Some(text@) && text@.len() > 0,
            None => rfc3339_text(seconds, nanos) is None,
        },
{
    match chrono::DateTime::from_timestamp(seconds, nanos) {
        Some(moment) => Some(moment.to_rfc3339()),
        None => None,
    }
}

/// Whether a text is the identifier of some 16 bytes.
pub open spec fn identifier_of_some_bytes(id: Seq<char>) -> bool {
    exists|random: Seq<u8>|
        random.len() == IDENTIFIER_BYTES && #[trigger] identifier_text(random) == id
}

/// The identifier that 16 random bytes make: a version 4 UUID in its
/// hyphenated form. Bytes of another number make none.
pub fn identifier_from(random: &[u8]) -> (r: Option<String>)
    ensures
        match r {
            Some(id) => random@.len() == IDENTIFIER_BYTES && id@ == identifier_text(random@)
                && id@.len() == IDENTIFIER_LENGTH,
            None => random@.len() != IDENTIFIER_BYTES,
        },
{
    if random.len() != IDENTIFIER_BYTES {
        return None;
    }
    Some(uuid_from_random_bytes(random))
}

/// Makes a fresh identifier from 16 bytes of the random source. Where the
/// source fails the error is `RandomSourceFailed`.
pub fn new_identifier() -> (r: Result<String, VaultError>)
    ensures
        match r {
            Ok(id) => id@.len() == IDENTIFIER_LENGTH && identifier_of_some_bytes(id@),
            Err(e) => e == VaultError::RandomSourceFailed,
        },
{
    match random_bytes(IDENTIFIER_BYTES) {
        Some(random) => Ok(uuid_from_random_bytes(random.as_slice())),
        None => Err(VaultError::RandomSourceFailed),
    }
}

/// The timestamp of a reading of the clock: its RFC 3339 text, or
/// `ClockUnavailable` where the reading is beyond the dates that have one.
pub open spec fn timestamp_of(seconds: u64, nanos: u32) -> Result<Seq<char>, VaultError> {
    if seconds > MAX_SECONDS {
        Err(VaultError::ClockUnavailable)
    } else {
        match rfc3339_text(seconds as i64, nanos) {
            Some(text) => Ok(text),
            None => Err(VaultError::ClockUnavailable),
        }
    }
}

/// Whether a text is the timestamp of some reading of the clock.
pub open spec fn timestamp_of_some_reading(now: Seq<char>) -> bool {
    exists|seconds: u64, nanos: u32|
        nanos < NANOS_PER_SECOND && #[trigger] timestamp_of(seconds, nanos) == Ok::<
            Seq<char>,
            VaultError,
        >(now)
}

/// The timestamp of the moment that lies the given seconds and nanoseconds
/// after the start of 1970 in UTC, in RFC 3339. It is never empty.
pub fn timestamp_from(seconds: u64, nanos: u32) -> (r: Result<String, VaultError>)
    ensures
        text_result_view(r) == timestamp_of(seconds, nanos),
        r matches Ok(now) ==> now@.len() > 0,
{
    if seconds > MAX_SECONDS {
        return Err(VaultError::ClockUnavailable);
    }
    match rfc3339_from_timestamp(seconds as i64, nanos) {
        Some(text) => Ok(text),
        None => Err(VaultError::ClockUnavailable),
    }
}

/// Reads the clock and gives the current time in RFC 3339. Where the clock
/// is set before 1970, or beyond the dates that have a text, the error is
/// `ClockUnavailable`.
pub fn current_timestamp() -> (r: Result<String, VaultError>)
    ensures
        match r {
            Ok(now) => now@.len() > 0 && timestamp_of_some_reading(now@),
            Err(e) => e == VaultError::ClockUnavailable,
        },
{
    match time_since_epoch() {
        Some(reading) => timestamp_from(reading.0, reading.1),
        None => Err(VaultError::ClockUnavailable),
    }
}

} // verus!
