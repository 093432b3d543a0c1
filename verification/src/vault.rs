//! Sealing a payload into an envelope and opening it again.

use vstd::prelude::*;
use vstd::string::StringSliceAdditionalSpecFns;

use crate::codec::envelope::envelope_from_json;
use crate::codec::envelope::envelope_of_tree;
use crate::codec::envelope::envelope_to_json;
use crate::codec::envelope::envelope_tree;
use crate::codec::envelope::kdf_tree;
use crate::codec::envelope::lemma_envelope_round_trip;
use crate::codec::payload::payload_from_json;
use crate::codec::payload::payload_of_tree;
use crate::codec::payload::payload_to_json;
use crate::codec::payload::payload_tree;
use crate::crypto::aes256gcm_opened;
use crate::crypto::base64_bytes;
use crate::crypto::base64_decode;
use crate::crypto::base64_encode;
use crate::crypto::base64_text;
use crate::crypto::derive_key;
use crate::crypto::derived_key;
use crate::crypto::kdf_inputs_in_range;
use crate::crypto::open;
use crate::crypto::open_spec;
use crate::crypto::random_bytes;
use crate::crypto::seal;
use crate::crypto::seal_spec;
use crate::crypto::wipe;
use crate::crypto::KEY_LENGTH;
use crate::crypto::NONCE_LENGTH;
use crate::errors::VaultError;
use crate::json::json_bytes_parsed;
use crate::json::json_compact_bytes;
use crate::json::json_pretty_text;
use crate::json::json_text_parsed;
use crate::json::parse_json_bytes;
use crate::json::parse_json_text;
use crate::json::print_json_compact;
use crate::json::print_json_pretty;
use crate::model::contents_result_view;
use crate::model::file_result_view;
use crate::model::payload_result_view;
use crate::model::payload_to_public;
use crate::model::public_contents;
use crate::model::ContentsView;
use crate::model::KdfParams;
use crate::model::KdfParamsView;
use crate::model::StoredVault;
use crate::model::VaultContents;
use crate::model::VaultFile;
use crate::model::VaultFileView;
use crate::model::VaultView;

verus! {

/// The memory cost of a new vault, in KiB.
pub const DEFAULT_MEMORY_KIB: u32 = 131_072;

/// The number of passes of a new vault.
pub const DEFAULT_TIME_COST: u32 = 3;

/// The number of lanes of a new vault.
pub const DEFAULT_PARALLELISM: u32 = 2;

/// The length of the derived key of a new vault, in bytes.
pub const DEFAULT_HASH_LENGTH: u32 = 32;

/// The length of the salt of a new vault, in bytes.
pub const DEFAULT_SALT_LENGTH: u32 = 16;

/// The version of the envelope format that this library writes.
pub const CURRENT_VERSION: u8 = 1;

/// The parameters that are written into an envelope: the given costs and
/// lengths under the one supported algorithm.
pub open spec fn recorded_kdf(kdf: KdfParamsView) -> KdfParamsView {
    KdfParamsView {
        algorithm: "Argon2id"@,
        memory_kib: kdf.memory_kib,
        time_cost: kdf.time_cost,
        parallelism: kdf.parallelism,
        hash_length: kdf.hash_length,
        salt_length: kdf.salt_length,
    }
}

/// The parameters of a new vault.
pub open spec fn default_kdf() -> KdfParamsView {
    KdfParamsView {
        algorithm: "Argon2id"@,
        memory_kib: DEFAULT_MEMORY_KIB,
        time_cost: DEFAULT_TIME_COST,
        parallelism: DEFAULT_PARALLELISM,
        hash_length: DEFAULT_HASH_LENGTH,
        salt_length: DEFAULT_SALT_LENGTH,
    }
}

/// The parameters of a new vault: Argon2id with 128 MiB of memory, 3 passes
/// and 2 lanes, a 32-byte key and a 16-byte salt.
pub fn default_kdf_params() -> (kdf: KdfParams)
    ensures
        kdf@ == default_kdf(),
{
    KdfParams {
        algorithm: "Argon2id".to_owned(),
        memory_kib: DEFAULT_MEMORY_KIB,
        time_cost: DEFAULT_TIME_COST,
        parallelism: DEFAULT_PARALLELISM,
        hash_length: DEFAULT_HASH_LENGTH,
        salt_length: DEFAULT_SALT_LENGTH,
    }
}

/// The parameters that an encryption uses: those of the existing file, or
/// the defaults where there is none.
pub open spec fn chosen_kdf(existing: Option<KdfParamsView>) -> KdfParamsView {
    match existing {
        Some(kdf) => recorded_kdf(kdf),
        None => default_kdf(),
    }
}

/// The envelope that seals a payload under a password, with the given
/// parameters, salt and nonce.
pub open spec fn sealed_envelope(
    payload: VaultView,
    password: Seq<u8>,
    kdf: KdfParamsView,
    salt: Seq<u8>,
    nonce: Seq<u8>,
) -> Result<VaultFileView, VaultError> {
    match derived_key(password, salt, kdf) {
        None => Err(VaultError::KeyDerivation),
        Some(key) => match json_compact_bytes(payload_tree(payload)) {
            None => Err(VaultError::EncodingFailed),
            Some(clear) => match seal_spec(key, nonce, clear) {
                Err(e) => Err(e),
                Ok(sealed) => Ok(
                    VaultFileView {
                        version: CURRENT_VERSION,
                        vault_name: payload.vault_name,
                        kdf: recorded_kdf(kdf),
                        salt: base64_text(salt),
                        nonce: base64_text(nonce),
                        ciphertext: base64_text(sealed),
                    },
                ),
            },
        },
    }
}

/// The payload that an envelope holds for a password.
pub open spec fn opened_payload(file: VaultFileView, password: Seq<u8>) -> Result<
    VaultView,
    VaultError,
> {
    match base64_bytes(file.salt) {
        None => Err(VaultError::InvalidSaltEncoding),
        Some(salt) => match base64_bytes(file.nonce) {
            None => Err(VaultError::InvalidNonceEncoding),
            Some(nonce) => match base64_bytes(file.ciphertext) {
                None => Err(VaultError::InvalidCiphertextEncoding),
                Some(sealed) => match derived_key(password, salt, file.kdf) {
                    None => Err(VaultError::KeyDerivation),
                    Some(key) => match open_spec(key, nonce, sealed) {
                        Err(e) => Err(e),
                        Ok(clear) => match json_bytes_parsed(clear) {
                            None => Err(VaultError::MalformedPayload),
                            Some(tree) => match payload_of_tree(tree) {
                                None => Err(VaultError::MalformedPayload),
                                Some(payload) => Ok(payload),
                            },
                        },
                    },
                },
            },
        },
    }
}

/// The envelope that a vault file's text holds.
pub open spec fn decoded_envelope(raw: Seq<char>) -> Result<VaultFileView, VaultError> {
    match json_text_parsed(raw) {
        None => Err(VaultError::MalformedEnvelope),
        Some(tree) => match envelope_of_tree(tree) {
            None => Err(VaultError::MalformedEnvelope),
            Some(file) => Ok(file),
        },
    }
}

/// The envelope and the payload that a vault file's text holds for a
/// password.
pub open spec fn decrypted_vault(raw: Seq<char>, password: Seq<u8>) -> Result<
    (VaultFileView, VaultView),
    VaultError,
> {
    match decoded_envelope(raw) {
        Err(e) => Err(e),
        Ok(file) => match opened_payload(file, password) {
            Err(e) => Err(e),
            Ok(payload) => Ok((file, payload)),
        },
    }
}

/// Seals a payload with a given salt and nonce.
///
/// The key is derived from the password, the salt and the parameters; the
/// payload is written as compact JSON and encrypted under the key and the
/// nonce; salt, nonce and ciphertext are recorded as base64 beside the
/// parameters. The envelope opens to the same payload under the same
/// password, and its salt and nonce decode to the bytes given. Parameters
/// outside the ranges of Argon2 and a key length other than 32 bytes are
/// refused. The key and the plaintext are wiped before the function
/// returns.
pub fn seal_payload(
    payload: &StoredVault,
    master_password: &str,
    kdf: &KdfParams,
    salt: &[u8],
    nonce: &[u8],
) -> (r: Result<VaultFile, VaultError>)
    ensures
        file_result_view(r) == sealed_envelope(
            payload@,
            master_password.spec_bytes(),
            kdf@,
            salt@,
            nonce@,
        ),
        r matches Ok(file) ==> opened_payload(file@, master_password.spec_bytes()) == Ok::<
            VaultView,
            VaultError,
        >(payload@),
        r matches Ok(file) ==> base64_bytes(file@.salt) == Some(salt@) && base64_bytes(
            file@.nonce,
        ) == Some(nonce@),
        !kdf_inputs_in_range(salt@.len(), kdf@) ==> r is Err,
        kdf.hash_length != KEY_LENGTH ==> r is Err,
{
    let tree = payload_to_json(payload);
    let written = print_json_compact(&tree);
    let mut key = match derive_key(master_password.as_bytes(), salt, kdf) {
        Ok(key) => key,
        Err(e) => {
            match written {
                Some(mut clear) => wipe(&mut clear),
                None => {},
            }
            return Err(e);
        },
    };
    let mut clear = match written {
        Some(bytes) => bytes,
        None => {
            wipe(&mut key);
            return Err(VaultError::EncodingFailed);
        },
    };
    let outcome = seal(key.as_slice(), nonce, clear.as_slice());
    wipe(&mut key);
    wipe(&mut clear);
    let sealed = outcome?;
    let file = VaultFile {
        version: CURRENT_VERSION,
        vault_name: payload.vault_name.clone(),
        kdf: KdfParams {
            algorithm: "Argon2id".to_owned(),
            memory_kib: kdf.memory_kib,
            time_cost: kdf.time_cost,
            parallelism: kdf.parallelism,
            hash_length: kdf.hash_length,
            salt_length: kdf.salt_length,
        },
        salt: base64_encode(salt),
        nonce: base64_encode(nonce),
        ciphertext: base64_encode(sealed.as_slice()),
    };
    Ok(file)
}

/// The view of the parameters of an existing file, where there is one.
pub open spec fn kdf_option_view(kdf: Option<&KdfParams>) -> Option<KdfParamsView> {
    match kdf {
        Some(k) => Some(k@),
        None => None,
    }
}

/// Whether an envelope is a sealing of a payload under a password: the one
/// that some salt of the recorded length and some nonce of 12 bytes give
/// with the envelope's own parameters, the envelope's salt and nonce
/// decoding to these.
pub open spec fn sealing_of(file: VaultFileView, payload: VaultView, password: Seq<u8>) -> bool {
    exists|salt: Seq<u8>, nonce: Seq<u8>|
        {
            &&& salt.len() == file.kdf.salt_length
            &&& nonce.len() == NONCE_LENGTH
            &&& #[trigger] sealed_envelope(payload, password, file.kdf, salt, nonce) == Ok::<
                VaultFileView,
                VaultError,
            >(file)
            &&& base64_bytes(file.salt) == Some(salt)
            &&& base64_bytes(file.nonce) == Some(nonce)
        }
}

/// Whether sealing a payload under a password with the given parameters can
/// end in an error.
pub open spec fn sealing_fails_with(
    e: VaultError,
    payload: VaultView,
    password: Seq<u8>,
    kdf: KdfParamsView,
) -> bool {
    exists|salt: Seq<u8>, nonce: Seq<u8>|
        salt.len() == kdf.salt_length && nonce.len() == NONCE_LENGTH
            && #[trigger] sealed_envelope(payload, password, kdf, salt, nonce) == Err::<
            VaultFileView,
            VaultError,
        >(e)
}

/// Encrypts a payload under the master password with a fresh random salt
/// and a fresh random nonce.
///
/// The costs and lengths of an existing file are used again, so that the
/// file stays readable with the same cost profile; a new vault gets the
/// defaults. On success the envelope is, for some salt of the recorded
/// length and some nonce of 12 bytes, the sealing of the payload under
/// them, and it opens to the same payload under the same password. Apart
/// from a failing random source, the errors are those of that sealing;
/// parameters outside the ranges of Argon2 and a key length other than 32
/// bytes always end in one.
pub fn encrypt_payload(
    payload: &StoredVault,
    master_password: &str,
    existing_kdf: Option<&KdfParams>,
) -> (r: Result<VaultFile, VaultError>)
    ensures
        match r {
            Ok(file) => {
                &&& file@.version == CURRENT_VERSION
                &&& file@.vault_name == payload@.vault_name
                &&& file@.kdf == chosen_kdf(kdf_option_view(existing_kdf))
                &&& sealing_of(file@, payload@, master_password.spec_bytes())
                &&& opened_payload(file@, master_password.spec_bytes()) == Ok::<
                    VaultView,
                    VaultError,
                >(payload@)
            },
            Err(e) => e == VaultError::RandomSourceFailed || sealing_fails_with(
                e,
                payload@,
                master_password.spec_bytes(),
                chosen_kdf(kdf_option_view(existing_kdf)),
            ),
        },
        !kdf_inputs_in_range(
            chosen_kdf(kdf_option_view(existing_kdf)).salt_length as nat,
            chosen_kdf(kdf_option_view(existing_kdf)),
        ) ==> r is Err,
        chosen_kdf(kdf_option_view(existing_kdf)).hash_length != KEY_LENGTH ==> r is Err,
{
    let kdf = match existing_kdf {
        Some(existing) => KdfParams {
            algorithm: "Argon2id".to_owned(),
            memory_kib: existing.memory_kib,
            time_cost: existing.time_cost,
            parallelism: existing.parallelism,
            hash_length: existing.hash_length,
            salt_length: existing.salt_length,
        },
        None => default_kdf_params(),
    };
    let salt = match random_bytes(kdf.salt_length as usize) {
        Some(bytes) => bytes,
        None => {
            return Err(VaultError::RandomSourceFailed);
        },
    };
    let nonce = match random_bytes(NONCE_LENGTH) {
        Some(bytes) => bytes,
        None => {
            return Err(VaultError::RandomSourceFailed);
        },
    };
    seal_payload(payload, master_password, &kdf, salt.as_slice(), nonce.as_slice())
}

/// Opens an envelope with the master password.
///
/// Salt, nonce and ciphertext are decoded from base64, the key is derived
/// with the envelope's own parameters, the ciphertext is authenticated and
/// decrypted, and the plaintext is read as a payload. Each step has an error
/// of its own; a failure of the cipher is `Authentication`, whatever caused
/// it.
pub fn open_envelope(file: &VaultFile, master_password: &str) -> (r: Result<
    StoredVault,
    VaultError,
>)
    ensures
        payload_result_view(r) == opened_payload(file@, master_password.spec_bytes()),
{
    let salt = match base64_decode(file.salt.as_str()) {
        Some(bytes) => bytes,
        None => {
            return Err(VaultError::InvalidSaltEncoding);
        },
    };
    let nonce = match base64_decode(file.nonce.as_str()) {
        Some(bytes) => bytes,
        None => {
            return Err(VaultError::InvalidNonceEncoding);
        },
    };
    let sealed = match base64_decode(file.ciphertext.as_str()) {
        Some(bytes) => bytes,
        None => {
            return Err(VaultError::InvalidCiphertextEncoding);
        },
    };
    let mut key = derive_key(master_password.as_bytes(), salt.as_slice(), &file.kdf)?;
    let outcome = open(key.as_slice(), nonce.as_slice(), sealed.as_slice());
    wipe(&mut key);
    let mut clear = outcome?;
    let tree = parse_json_bytes(clear.as_slice());
    wipe(&mut clear);
    match tree {
        Some(tree) => payload_from_json(&tree),
        None => Err(VaultError::MalformedPayload),
    }
}

/// Reads the envelope of a vault file, without decrypting anything.
pub fn decode_envelope(raw: &str) -> (r: Result<VaultFile, VaultError>)
    ensures
        file_result_view(r) == decoded_envelope(raw@),
{
    match parse_json_text(raw) {
        Some(tree) => envelope_from_json(&tree),
        None => Err(VaultError::MalformedEnvelope),
    }
}

/// Writes an envelope as the text of a vault file. The text reads back as
/// the same envelope.
pub fn encode_envelope(file: &VaultFile) -> (r: Result<String, VaultError>)
    ensures
        match r {
            Ok(text) => json_pretty_text(envelope_tree(file@)) == Some(text@) && decoded_envelope(
                text@,
            ) == Ok::<VaultFileView, VaultError>(file@),
            Err(e) => e == VaultError::EncodingFailed && json_pretty_text(envelope_tree(file@))
                is None,
        },
{
    let tree = envelope_to_json(file);
    proof {
        lemma_envelope_round_trip(file@);
    }
    match print_json_pretty(&tree) {
        Some(text) => Ok(text),
        None => Err(VaultError::EncodingFailed),
    }
}

/// The view of a decryption's outcome.
pub open spec fn vault_result_view(r: Result<(VaultFile, StoredVault), VaultError>) -> Result<
    (VaultFileView, VaultView),
    VaultError,
> {
    match r {
        Ok(pair) => Ok((pair.0@, pair.1@)),
        Err(e) => Err(e),
    }
}

/// Decrypts the text of a vault file with the master password, and returns
/// the envelope with the payload.
///
/// A text that is not an envelope is `MalformedEnvelope`; after that the
/// errors are those of `open_envelope`.
pub fn decrypt_vault(raw: &str, master_password: &str) -> (r: Result<
    (VaultFile, StoredVault),
    VaultError,
>)
    ensures
        vault_result_view(r) == decrypted_vault(raw@, master_password.spec_bytes()),
{
    let file = decode_envelope(raw)?;
    let payload = open_envelope(&file, master_password)?;
    Ok((file, payload))
}

/// The contents that a vault file's text shows for a password.
pub open spec fn opened_contents(raw: Seq<char>, password: Seq<u8>) -> Result<
    ContentsView,
    VaultError,
> {
    match decrypted_vault(raw, password) {
        Ok(pair) => Ok(public_contents(pair.1)),
        Err(e) => Err(e),
    }
}

/// Opens a vault: decrypts the text of its file with the master password and
/// returns the contents, without the PIN hashes.
pub fn open_vault_inner(raw: &str, master_password: &str) -> (r: Result<VaultContents, VaultError>)
    ensures
        contents_result_view(r) == opened_contents(raw@, master_password.spec_bytes()),
{
    let (_file, payload) = decrypt_vault(raw, master_password)?;
    Ok(payload_to_public(&payload))
}

/// Cost parameters that were written once are written again as they are:
/// recording is idempotent, and the defaults are recorded as they stand.
pub proof fn lemma_recorded_kdf_is_stable(kdf: KdfParamsView)
    ensures
        recorded_kdf(recorded_kdf(kdf)) == recorded_kdf(kdf),
        recorded_kdf(default_kdf()) == default_kdf(),
        kdf.algorithm == "Argon2id"@ ==> recorded_kdf(kdf) == kdf,
{
}

/// Through any number of rewrites of a vault file the cost parameters stay
/// those of the first envelope, and so does their tree in the file.
///
/// `files` are the envelopes of one vault in the order they were written:
/// the first by this library, each later one with the parameters of the one
/// before it.
pub proof fn lemma_kdf_persists(files: Seq<VaultFileView>, n: int)
    requires
        0 <= n < files.len(),
        files[0].kdf == recorded_kdf(files[0].kdf),
        forall|i: int|
            0 <= i && i + 1 < files.len() ==> (#[trigger] files[i + 1]).kdf == recorded_kdf(
                files[i].kdf,
            ),
    ensures
        files[n].kdf == files[0].kdf,
        kdf_tree(files[n].kdf) == kdf_tree(files[0].kdf),
    decreases n,
{
    if n > 0 {
        lemma_kdf_persists(files, n - 1);
        assert(files[(n - 1) + 1].kdf == recorded_kdf(files[n - 1].kdf));
    }
}

/// Where the cipher does not authenticate the ciphertext under the key
/// that the password derives, opening fails with `Authentication`, be it
/// for a wrong password or for altered salt, nonce or ciphertext; and a
/// payload is returned only where the cipher did authenticate it.
pub proof fn lemma_rejected_ciphertext_is_authentication_error(
    file: VaultFileView,
    password: Seq<u8>,
    salt: Seq<u8>,
    nonce: Seq<u8>,
    sealed: Seq<u8>,
    key: Seq<u8>,
)
    requires
        base64_bytes(file.salt) == Some(salt),
        base64_bytes(file.nonce) == Some(nonce),
        base64_bytes(file.ciphertext) == Some(sealed),
        derived_key(password, salt, file.kdf) == Some(key),
        key.len() == KEY_LENGTH,
        nonce.len() == NONCE_LENGTH,
    ensures
        aes256gcm_opened(key, nonce, sealed) is None ==> opened_payload(
            file,
            password,
        ) == Err::<VaultView, VaultError>(VaultError::Authentication),
        opened_payload(file, password) is Ok ==> aes256gcm_opened(
            key,
            nonce,
            sealed,
        ) is Some,
{
}

/// Whether the cipher refuses an envelope for a password: salt, nonce and
/// ciphertext decode, the password derives a key of 32 bytes, the nonce has
/// 12 bytes, and the tag does not authenticate the ciphertext under them.
pub open spec fn cipher_rejects(file: VaultFileView, password: Seq<u8>) -> bool {
    &&& base64_bytes(file.salt) is Some
    &&& base64_bytes(file.nonce) is Some
    &&& base64_bytes(file.ciphertext) is Some
    &&& derived_key(password, base64_bytes(file.salt)->0, file.kdf) is Some
    &&& derived_key(password, base64_bytes(file.salt)->0, file.kdf)->0.len() == KEY_LENGTH
    &&& base64_bytes(file.nonce)->0.len() == NONCE_LENGTH
    &&& aes256gcm_opened(
        derived_key(password, base64_bytes(file.salt)->0, file.kdf)->0,
        base64_bytes(file.nonce)->0,
        base64_bytes(file.ciphertext)->0,
    ) is None
}

/// A wrong password and altered data fail alike: whenever the cipher
/// refuses, for whatever reason, decrypting and opening end in the one
/// error `Authentication`, with the one message, and in no payload. The
/// password is taken as it is given, byte for byte.
pub proof fn lemma_rejections_are_alike(
    raw_a: Seq<char>,
    password_a: Seq<u8>,
    raw_b: Seq<char>,
    password_b: Seq<u8>,
)
    requires
        decoded_envelope(raw_a) is Ok,
        decoded_envelope(raw_b) is Ok,
        cipher_rejects(decoded_envelope(raw_a)->Ok_0, password_a),
        cipher_rejects(decoded_envelope(raw_b)->Ok_0, password_b),
    ensures
        decrypted_vault(raw_a, password_a) == Err::<(VaultFileView, VaultView), VaultError>(
            VaultError::Authentication,
        ),
        decrypted_vault(raw_a, password_a) == decrypted_vault(raw_b, password_b),
        opened_contents(raw_a, password_a) == opened_contents(raw_b, password_b),
        opened_contents(raw_a, password_a) is Err,
{
}

} // verus!
