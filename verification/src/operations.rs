//! The operations on a vault file. Each takes the text of the file as it was
//! read and returns the text to write back: decrypt, change one thing,
//! encrypt again with the file's own cost parameters under a fresh salt
//! and nonce.

use vstd::prelude::*;
use vstd::string::StringExecFns;
use vstd::string::StringSliceAdditionalSpecFns;
use vstd::utf8::encode_utf8;

use crate::codec::envelope::envelope_tree;
use crate::errors::VaultError;
use crate::json::json_pretty_text;
use crate::model::payload_to_public;
use crate::model::public_contents;
use crate::model::text_option_view;
use crate::model::text_result_view;
use crate::model::ContentsView;
use crate::model::KdfParams;
use crate::model::KdfParamsView;
use crate::model::StoredVault;
use crate::model::VaultContents;
use crate::model::VaultFile;
use crate::model::VaultFileView;
use crate::model::VaultView;
use crate::pin::fresh_pin_hash;
use crate::pin::hash_pin;
use crate::pin::pin_verdict;
use crate::pin::verify_pin;
use crate::stamp::current_timestamp;
use crate::stamp::identifier_of_some_bytes;
use crate::stamp::new_identifier;
use crate::stamp::timestamp_of_some_reading;
use crate::stamp::IDENTIFIER_LENGTH;
use crate::store::add_credential;
use crate::store::add_folder;
use crate::store::credential_position;
use crate::store::find_credential;
use crate::store::find_folder;
use crate::store::folder_position;
use crate::store::new_credential;
use crate::store::new_folder;
use crate::store::lemma_one_change_keeps_folders_well_formed;
use crate::store::one_change;
use crate::store::remove_credential;
use crate::store::remove_folder;
use crate::store::with_credential;
use crate::store::with_folder;
use crate::store::without_credential;
use crate::store::without_folder;
use crate::text::blank;
use crate::text::is_blank;
use crate::text::is_pin;
use crate::text::pin_text;
use crate::text::sanitize_file_name;
use crate::text::sanitized_file_name;
use crate::text::trim;
use crate::text::trimmed;
use crate::vault::chosen_kdf;
use crate::vault::decrypt_vault;
use crate::vault::decrypted_vault;
use crate::vault::default_kdf;
use crate::vault::encode_envelope;
use crate::vault::encrypt_payload;
use crate::vault::kdf_option_view;
use crate::vault::recorded_kdf;
use crate::vault::sealing_fails_with;
use crate::vault::sealing_of;
use crate::vault::CURRENT_VERSION;

verus! {

/// What is to be written after an operation, and what is shown to the
/// caller.
#[derive(Debug, PartialEq, Eq)]
pub struct VaultUpdate {
    /// The new envelope.
    pub file: VaultFile,
    /// The text of the new envelope, to be written over the vault file.
    pub text: String,
    /// The contents after the operation.
    pub contents: VaultContents,
}

/// Whether an update stores a payload for a password with the given cost
/// parameters: the envelope records the parameters and is a sealing of the
/// payload, the text is the envelope's and reads back as it, the envelope
/// opens to the payload under the password, and the contents are the
/// payload's.
pub open spec fn stores(
    file: VaultFileView,
    text: Seq<char>,
    contents: ContentsView,
    kdf: KdfParamsView,
    payload: VaultView,
    password: Seq<u8>,
) -> bool {
    &&& file.version == CURRENT_VERSION
    &&& file.kdf == recorded_kdf(kdf)
    &&& file.vault_name == payload.vault_name
    &&& sealing_of(file, payload, password)
    &&& json_pretty_text(envelope_tree(file)) == Some(text)
    &&& decrypted_vault(text, password) == Ok::<(VaultFileView, VaultView), VaultError>(
        (file, payload),
    )
    &&& contents == public_contents(payload)
}

/// The errors that encrypting and encoding a payload can end in.
pub open spec fn storing_error(e: VaultError) -> bool {
    ||| e == VaultError::RandomSourceFailed
    ||| e == VaultError::KeyDerivation
    ||| e == VaultError::UnusableKey
    ||| e == VaultError::EncryptionFailed
    ||| e == VaultError::EncodingFailed
}

/// The errors that a change can end in once the vault is decrypted and what
/// is to change was found: a clock that cannot be read, or a storing error.
pub open spec fn changing_error(e: VaultError) -> bool {
    e == VaultError::ClockUnavailable || storing_error(e)
}

/// Encrypts a payload for writing back, with the cost parameters of the
/// file it came from.
pub fn store_payload(payload: &StoredVault, master_password: &str, kdf: Option<&KdfParams>) -> (r:
    Result<VaultUpdate, VaultError>)
    ensures
        match r {
            Ok(update) => stores(
                update.file@,
                update.text@,
                update.contents@,
                chosen_kdf(kdf_option_view(kdf)),
                payload@,
                master_password.spec_bytes(),
            ),
            Err(e) => storing_error(e),
        },
{
    let file = match encrypt_payload(payload, master_password, kdf) {
        Ok(file) => file,
        Err(e) => {
            proof {
                lemma_sealing_errors(
                    payload@,
                    master_password.spec_bytes(),
                    chosen_kdf(kdf_option_view(kdf)),
                    e,
                );
            }
            return Err(e);
        },
    };
    let text = encode_envelope(&file)?;
    let contents = payload_to_public(payload);
    Ok(VaultUpdate { file, text, contents })
}

/// A sealing with a nonce of the right length fails only with a storing
/// error.
proof fn lemma_sealing_errors(payload: VaultView, password: Seq<u8>, kdf: KdfParamsView, e: VaultError)
    requires
        e == VaultError::RandomSourceFailed || sealing_fails_with(e, payload, password, kdf),
    ensures
        storing_error(e),
{
}

/// The extension of a vault file, with its dot.
pub open spec fn vault_suffix() -> Seq<char> {
    ".peka"@
}

/// What a request for a new vault is answered with: the trimmed name, or
/// the error for an empty name or an empty password.
pub open spec fn vault_request(vault_name: Seq<char>, master_password: Seq<char>) -> Result<
    Seq<char>,
    VaultError,
> {
    if blank(vault_name) {
        Err(VaultError::EmptyVaultName)
    } else if blank(master_password) {
        Err(VaultError::EmptyMasterPassword)
    } else {
        Ok(trimmed(vault_name))
    }
}

/// What a request for a new folder is answered with: the trimmed name, or
/// the error for an empty name, a missing PIN or a PIN that is not four
/// digits. A folder that is not secure needs no PIN, and one given is not
/// looked at.
pub open spec fn folder_request(name: Seq<char>, secure: bool, pin: Option<Seq<char>>) -> Result<
    Seq<char>,
    VaultError,
> {
    if blank(name) {
        Err(VaultError::FolderNameRequired)
    } else if secure && pin is None {
        Err(VaultError::PinRequired)
    } else if secure && !pin_text(pin->0) {
        Err(VaultError::PinMalformed)
    } else {
        Ok(trimmed(name))
    }
}

/// What a request for a new credential is answered with: nothing, or the
/// error for an empty identifier or an empty password.
pub open spec fn credential_request(identifier: Seq<char>, password: Seq<char>) -> Result<
    (),
    VaultError,
> {
    if blank(identifier) {
        Err(VaultError::IdentifierRequired)
    } else if password.len() == 0 {
        Err(VaultError::PasswordRequired)
    } else {
        Ok(())
    }
}

/// Checks a request for a new vault: the name and the master password must
/// not be empty once trimmed. Returns the trimmed name.
pub fn validate_vault_request(vault_name: &str, master_password: &str) -> (r: Result<
    String,
    VaultError,
>)
    ensures
        text_result_view(r) == vault_request(vault_name@, master_password@),
{
    if is_blank(vault_name) {
        return Err(VaultError::EmptyVaultName);
    }
    if is_blank(master_password) {
        return Err(VaultError::EmptyMasterPassword);
    }
    Ok(trim(vault_name))
}

/// Checks a request for a new folder: the name must not be empty once
/// trimmed, and a secure folder needs a PIN of exactly four ASCII digits.
/// Returns the trimmed name.
pub fn validate_folder_request(name: &str, secure: bool, pin: &Option<String>) -> (r: Result<
    String,
    VaultError,
>)
    ensures
        text_result_view(r) == folder_request(name@, secure, text_option_view(*pin)),
{
    if is_blank(name) {
        return Err(VaultError::FolderNameRequired);
    }
    if secure {
        match pin {
            None => {
                return Err(VaultError::PinRequired);
            },
            Some(text) => {
                if !is_pin(text.as_str()) {
                    return Err(VaultError::PinMalformed);
                }
            },
        }
    }
    Ok(trim(name))
}

/// Checks a request for a new credential: the identifier must not be empty
/// once trimmed, and the password must not be empty.
pub fn validate_credential_request(identifier: &str, password: &str) -> (r: Result<(), VaultError>)
    ensures
        r == credential_request(identifier@, password@),
{
    if is_blank(identifier) {
        return Err(VaultError::IdentifierRequired);
    }
    if password.unicode_len() == 0 {
        return Err(VaultError::PasswordRequired);
    }
    Ok(())
}

/// A vault that has just been made and is still to be written.
#[derive(Debug, PartialEq, Eq)]
pub struct NewVault {
    /// The name of the file to write, within the vault directory.
    pub file_name: String,
    /// The envelope.
    pub file: VaultFile,
    /// The text of the envelope.
    pub text: String,
}

/// The payload of a new vault: the name and no folder.
pub open spec fn empty_payload(vault_name: Seq<char>) -> VaultView {
    VaultView { vault_name, folders: Seq::empty() }
}

/// Makes a new vault: an empty payload under the trimmed name, encrypted
/// under the master password with the default cost parameters, a fresh
/// salt and a fresh nonce.
///
/// An empty name or password is refused before anything else is done. The
/// envelope has version 1 and is a sealing of the empty payload. The file
/// is named after the vault: its sanitized name and the extension `.peka`.
pub fn create_vault_inner(vault_name: String, master_password: String) -> (r: Result<
    NewVault,
    VaultError,
>)
    ensures
        match vault_request(vault_name@, master_password@) {
            Err(v) => r == Err::<NewVault, VaultError>(v),
            Ok(name) => match r {
                Ok(vault) => {
                    &&& vault.file_name@ == sanitized_file_name(name) + vault_suffix()
                    &&& vault.file@.version == CURRENT_VERSION
                    &&& vault.file@.kdf == default_kdf()
                    &&& sealing_of(vault.file@, empty_payload(name), encode_utf8(master_password@))
                    &&& vault.file@.vault_name == name
                    &&& json_pretty_text(envelope_tree(vault.file@)) == Some(vault.text@)
                    &&& decrypted_vault(vault.text@, encode_utf8(master_password@)) == Ok::<
                        (VaultFileView, VaultView),
                        VaultError,
                    >((vault.file@, empty_payload(name)))
                    &&& empty_payload(name).wf()
                },
                Err(e) => storing_error(e),
            },
        },
{
    let name = validate_vault_request(vault_name.as_str(), master_password.as_str())?;
    let payload = StoredVault { vault_name: name.clone(), folders: Vec::new() };
    assert(payload@.folders =~= Seq::empty());
    let update = store_payload(&payload, master_password.as_str(), None)?;
    let mut file_name = sanitize_file_name(name.as_str());
    file_name.append(".peka");
    Ok(NewVault { file_name, file: update.file, text: update.text })
}

/// Whether a payload is another with one new folder at its end: empty,
/// under the identifier of some 16 bytes, stamped with the time of some
/// reading of the clock, secure exactly when asked for, and then with the
/// hash of the PIN under some salt of 16 bytes, which verifies the PIN.
pub open spec fn folder_created(
    before: VaultView,
    after: VaultView,
    name: Seq<char>,
    secure: bool,
    pin: Option<Seq<char>>,
) -> bool {
    exists|id: Seq<char>, now: Seq<char>, pin_hash: Option<Seq<char>>|
        {
            &&& #[trigger] with_folder(before, new_folder(id, name, pin_hash, now)) == after
            &&& id.len() == IDENTIFIER_LENGTH
            &&& identifier_of_some_bytes(id)
            &&& now.len() > 0
            &&& timestamp_of_some_reading(now)
            &&& pin_hash is Some <==> secure
            &&& secure ==> {
                &&& pin is Some
                &&& fresh_pin_hash(encode_utf8(pin->0), pin_hash->0)
                &&& pin_verdict(encode_utf8(pin->0), pin_hash->0) == Ok::<bool, VaultError>(true)
            }
        }
}

/// The payload that a vault file's text holds for a password.
pub open spec fn stored_payload(text: Seq<char>, password: Seq<u8>) -> VaultView {
    decrypted_vault(text, password)->Ok_0.1
}

/// Whether an update replaces a vault file by one that stores `after`
/// under the same password and the same cost parameters.
pub open spec fn replaces(
    raw: Seq<char>,
    password: Seq<u8>,
    update: VaultUpdate,
    after: VaultView,
) -> bool {
    &&& decrypted_vault(raw, password) is Ok
    &&& stores(
        update.file@,
        update.text@,
        update.contents@,
        decrypted_vault(raw, password)->Ok_0.0.kdf,
        after,
        password,
    )
}

/// Adds a folder to a vault.
///
/// The request is checked first, then the vault is decrypted; an error of
/// either is returned as it is. After that the folder is appended under a
/// fresh identifier and the current time, with the hash of its PIN where it
/// is secure, and the payload is encrypted again. The raw PIN is not kept.
/// A clock or a random source that fails is an error like any other.
pub fn create_folder_inner(
    raw: &str,
    master_password: &str,
    name: String,
    secure: bool,
    pin: Option<String>,
) -> (r: Result<VaultUpdate, VaultError>)
    ensures
        match folder_request(name@, secure, text_option_view(pin)) {
            Err(v) => r matches Err(e) && e == v,
            Ok(folder_name) => match decrypted_vault(raw@, master_password.spec_bytes()) {
                Err(d) => r matches Err(e) && e == d,
                Ok(old) => match r {
                    Ok(update) => {
                        let after = stored_payload(update.text@, master_password.spec_bytes());
                        &&& replaces(raw@, master_password.spec_bytes(), update, after)
                        &&& folder_created(
                            old.1,
                            after,
                            folder_name,
                            secure,
                            text_option_view(pin),
                        )
                        &&& old.1.wf() ==> after.wf()
                    },
                    Err(e) => changing_error(e) || e == VaultError::PinHashingFailed,
                },
            },
        },
{
    let folder_name = validate_folder_request(name.as_str(), secure, &pin)?;
    let (file, payload) = decrypt_vault(raw, master_password)?;
    let now = current_timestamp()?;
    let id = new_identifier()?;
    let pin_hash = if secure {
        match &pin {
            Some(text) => Some(hash_pin(text.as_str())?),
            None => None,
        }
    } else {
        None
    };
    let payload = add_folder(payload, id, folder_name, pin_hash, now);
    store_payload(&payload, master_password, Some(&file.kdf))
}

/// Deletes a folder, with its credentials, from a vault.
///
/// An error of the decryption is returned as it is; a folder that is not
/// there is `FolderNotFound`, and nothing is to be written. Otherwise the
/// first folder with the identifier is removed and the payload is encrypted
/// again.
pub fn delete_folder_inner(raw: &str, master_password: &str, folder_id: &str) -> (r: Result<
    VaultUpdate,
    VaultError,
>)
    ensures
        match decrypted_vault(raw@, master_password.spec_bytes()) {
            Err(d) => r matches Err(e) && e == d,
            Ok(old) => match without_folder(old.1, folder_id@) {
                Err(n) => r matches Err(e) && e == n,
                Ok(after) => match r {
                    Ok(update) => replaces(raw@, master_password.spec_bytes(), update, after) && (
                    old.1.wf() ==> after.wf()),
                    Err(e) => storing_error(e),
                },
            },
        },
{
    let (file, payload) = decrypt_vault(raw, master_password)?;
    let payload = remove_folder(payload, folder_id)?;
    store_payload(&payload, master_password, Some(&file.kdf))
}

/// Whether a payload is another with one new credential at the end of a
/// folder: under the identifier of some 16 bytes, stamped with the time of
/// some reading of the clock, which is also the folder's time of update.
pub open spec fn credential_added(
    before: VaultView,
    after: VaultView,
    folder_id: Seq<char>,
    title: Seq<char>,
    username: Seq<char>,
    password: Seq<char>,
) -> bool {
    exists|id: Seq<char>, now: Seq<char>|
        {
            &&& #[trigger] with_credential(
                before,
                folder_id,
                new_credential(id, title, username, password, now),
                now,
            ) == Ok::<VaultView, VaultError>(after)
            &&& id.len() == IDENTIFIER_LENGTH
            &&& identifier_of_some_bytes(id)
            &&& now.len() > 0
            &&& timestamp_of_some_reading(now)
        }
}

/// Adds a credential to a folder of a vault.
///
/// The request is checked first, then the vault is decrypted; an error of
/// either is returned as it is, and a folder that is not there is
/// `FolderNotFound`. Otherwise the credential is appended to the folder
/// under a fresh identifier and the current time, with the identifier as its
/// title, and the payload is encrypted again.
pub fn add_credential_inner(
    raw: &str,
    master_password: &str,
    folder_id: &str,
    identifier: String,
    username: String,
    password: String,
) -> (r: Result<VaultUpdate, VaultError>)
    ensures
        match credential_request(identifier@, password@) {
            Err(v) => r matches Err(e) && e == v,
            Ok(_) => match decrypted_vault(raw@, master_password.spec_bytes()) {
                Err(d) => r matches Err(e) && e == d,
                Ok(old) => match folder_position(old.1.folders, folder_id@) {
                    None => r matches Err(e) && e == VaultError::FolderNotFound,
                    Some(_) => match r {
                        Ok(update) => {
                            let after = stored_payload(update.text@, master_password.spec_bytes());
                            &&& replaces(raw@, master_password.spec_bytes(), update, after)
                            &&& credential_added(
                                old.1,
                                after,
                                folder_id@,
                                identifier@,
                                username@,
                                password@,
                            )
                            &&& old.1.wf() ==> after.wf()
                        },
                        Err(e) => changing_error(e),
                    },
                },
            },
        },
{
    validate_credential_request(identifier.as_str(), password.as_str())?;
    let (file, payload) = decrypt_vault(raw, master_password)?;
    if find_folder(&payload.folders, folder_id).is_none() {
        return Err(VaultError::FolderNotFound);
    }
    let now = current_timestamp()?;
    let id = new_identifier()?;
    let payload = add_credential(payload, folder_id, id, identifier, username, password, now)?;
    store_payload(&payload, master_password, Some(&file.kdf))
}

/// Whether a payload is another without one credential of a folder, the
/// folder being stamped with the time of some reading of the clock.
pub open spec fn credential_deleted(
    before: VaultView,
    after: VaultView,
    folder_id: Seq<char>,
    credential_id: Seq<char>,
) -> bool {
    exists|now: Seq<char>|
        {
            &&& #[trigger] without_credential(before, folder_id, credential_id, now) == Ok::<
                VaultView,
                VaultError,
            >(after)
            &&& now.len() > 0
            &&& timestamp_of_some_reading(now)
        }
}

/// The error of deleting a credential from a payload, where there is one.
pub open spec fn credential_missing(
    payload: VaultView,
    folder_id: Seq<char>,
    credential_id: Seq<char>,
) -> Option<VaultError> {
    match folder_position(payload.folders, folder_id) {
        None => Some(VaultError::FolderNotFound),
        Some(i) => match credential_position(
            payload.folders[i].credentials,
            credential_id,
        ) {
            None => Some(VaultError::CredentialNotFound),
            Some(_) => None,
        },
    }
}

/// Deletes a credential from a folder of a vault.
///
/// An error of the decryption is returned as it is; a folder that is not
/// there is `FolderNotFound`, a credential that is not in it
/// `CredentialNotFound`. Otherwise the credential is removed, the folder is
/// stamped with the current time, and the payload is encrypted again.
pub fn delete_credential_inner(
    raw: &str,
    master_password: &str,
    folder_id: &str,
    credential_id: &str,
) -> (r: Result<VaultUpdate, VaultError>)
    ensures
        match decrypted_vault(raw@, master_password.spec_bytes()) {
            Err(d) => r matches Err(e) && e == d,
            Ok(old) => match credential_missing(old.1, folder_id@, credential_id@) {
                Some(n) => r matches Err(e) && e == n,
                None => match r {
                    Ok(update) => {
                        let after = stored_payload(update.text@, master_password.spec_bytes());
                        &&& replaces(raw@, master_password.spec_bytes(), update, after)
                        &&& credential_deleted(old.1, after, folder_id@, credential_id@)
                        &&& old.1.wf() ==> after.wf()
                    },
                    Err(e) => changing_error(e),
                },
            },
        },
{
    let (file, payload) = decrypt_vault(raw, master_password)?;
    match find_folder(&payload.folders, folder_id) {
        None => {
            return Err(VaultError::FolderNotFound);
        },
        Some(position) => {
            if find_credential(&payload.folders[position].credentials, credential_id).is_none() {
                return Err(VaultError::CredentialNotFound);
            }
        },
    }
    let now = current_timestamp()?;
    let payload = remove_credential(payload, folder_id, credential_id, now)?;
    store_payload(&payload, master_password, Some(&file.kdf))
}

/// Whether a PIN opens a folder of a payload.
///
/// A folder that is not secure is open to every PIN. A secure folder
/// without a PIN hash is the error `PinHashMissing`; otherwise the stored
/// hash decides.
pub open spec fn folder_pin_verdict(payload: VaultView, folder_id: Seq<char>, pin: Seq<u8>) -> Result<
    bool,
    VaultError,
> {
    match folder_position(payload.folders, folder_id) {
        None => Err(VaultError::FolderNotFound),
        Some(i) => {
            let folder = payload.folders[i];
            if !folder.secure {
                Ok(true)
            } else {
                match folder.pin_hash {
                    None => Err(VaultError::PinHashMissing),
                    Some(hash) => pin_verdict(pin, hash),
                }
            }
        },
    }
}

/// What the operations do to a payload is one change each, and a new vault
/// starts with well-formed folders: so the folders of every payload that
/// these operations write, one after the other, are well formed.
pub proof fn lemma_operations_are_changes(
    before: VaultView,
    after: VaultView,
    name: Seq<char>,
    secure: bool,
    pin: Option<Seq<char>>,
    folder_id: Seq<char>,
    credential_id: Seq<char>,
    title: Seq<char>,
    username: Seq<char>,
    password: Seq<char>,
)
    ensures
        empty_payload(name).wf(),
        folder_created(before, after, name, secure, pin) ==> one_change(before, after),
        without_folder(before, folder_id) == Ok::<VaultView, VaultError>(after) ==> one_change(
            before,
            after,
        ),
        credential_added(before, after, folder_id, title, username, password) ==> one_change(
            before,
            after,
        ),
        credential_deleted(before, after, folder_id, credential_id) ==> one_change(before, after),
{
}

/// Whether one text of a vault file follows another in the life of a
/// vault: both decrypt under the password, the later keeps the cost
/// parameters of the earlier, and its payload is one change of the
/// earlier's.
pub open spec fn follows(earlier: Seq<char>, later: Seq<char>, password: Seq<u8>) -> bool {
    &&& decrypted_vault(earlier, password) is Ok
    &&& decrypted_vault(later, password) is Ok
    &&& decrypted_vault(later, password)->Ok_0.0.kdf == recorded_kdf(
        decrypted_vault(earlier, password)->Ok_0.0.kdf,
    )
    &&& one_change(stored_payload(earlier, password), stored_payload(later, password))
}

/// The text that an operation returns follows the text it was given.
pub proof fn lemma_update_follows(
    raw: Seq<char>,
    password: Seq<u8>,
    update: VaultUpdate,
    after: VaultView,
)
    requires
        replaces(raw, password, update, after),
        one_change(stored_payload(raw, password), after),
    ensures
        follows(raw, update.text@, password),
{
}

/// Through the whole life of a vault, whatever the number of changes,
/// every text decrypts to a payload with well-formed folders and carries
/// the cost parameters of the first.
///
/// `texts` are the texts of one vault file in the order they were written:
/// the first with recorded cost parameters and well-formed folders, as a
/// new vault has them, each later one following the one before it.
pub proof fn lemma_vault_history(texts: Seq<Seq<char>>, password: Seq<u8>, n: int)
    requires
        0 <= n < texts.len(),
        decrypted_vault(texts[0], password) is Ok,
        decrypted_vault(texts[0], password)->Ok_0.0.kdf == recorded_kdf(
            decrypted_vault(texts[0], password)->Ok_0.0.kdf,
        ),
        stored_payload(texts[0], password).wf(),
        forall|i: int|
            0 <= i && i + 1 < texts.len() ==> follows(texts[i], #[trigger] texts[i + 1], password),
    ensures
        decrypted_vault(texts[n], password) is Ok,
        decrypted_vault(texts[n], password)->Ok_0.0.kdf == decrypted_vault(
            texts[0],
            password,
        )->Ok_0.0.kdf,
        stored_payload(texts[n], password).wf(),
    decreases n,
{
    if n > 0 {
        lemma_vault_history(texts, password, n - 1);
        assert(follows(texts[n - 1], texts[(n - 1) + 1], password));
        lemma_one_change_keeps_folders_well_formed(
            stored_payload(texts[n - 1], password),
            stored_payload(texts[n], password),
        );
    }
}

/// A folder that is not secure is open to every PIN, and the answer for a
/// secure folder is that of its stored hash.
pub proof fn lemma_pin_gates_secure_folders_only(
    payload: VaultView,
    folder_id: Seq<char>,
    pin: Seq<u8>,
)
    requires
        folder_position(payload.folders, folder_id) is Some,
    ensures
        ({
            let folder = payload.folders[folder_position(payload.folders, folder_id)->0];
            &&& !folder.secure ==> folder_pin_verdict(payload, folder_id, pin) == Ok::<
                bool,
                VaultError,
            >(true)
            &&& folder.secure && folder.pin_hash is Some ==> folder_pin_verdict(
                payload,
                folder_id,
                pin,
            ) == pin_verdict(pin, folder.pin_hash->0)
        }),
{
}

/// Checks a PIN against a folder of a decrypted payload.
pub fn check_folder_pin(payload: &StoredVault, folder_id: &str, pin: &str) -> (r: Result<
    bool,
    VaultError,
>)
    ensures
        r == folder_pin_verdict(payload@, folder_id@, pin.spec_bytes()),
{
    match find_folder(&payload.folders, folder_id) {
        None => Err(VaultError::FolderNotFound),
        Some(position) => {
            let folder = &payload.folders[position];
            if !folder.secure {
                return Ok(true);
            }
            match &folder.pin_hash {
                None => Err(VaultError::PinHashMissing),
                Some(hash) => verify_pin(pin, hash.as_str()),
            }
        },
    }
}

/// Checks a PIN against a folder of a vault.
///
/// An error of the decryption is returned as it is. A folder that is not
/// secure is open to every PIN; for a secure one, a PIN that does not match
/// is `Ok(false)`, not an error.
pub fn verify_folder_pin_inner(
    raw: &str,
    master_password: &str,
    folder_id: &str,
    pin: &str,
) -> (r: Result<bool, VaultError>)
    ensures
        r == match decrypted_vault(raw@, master_password.spec_bytes()) {
            Err(d) => Err::<bool, VaultError>(d),
            Ok(old) => folder_pin_verdict(old.1, folder_id@, pin.spec_bytes()),
        },
{
    let (_file, payload) = decrypt_vault(raw, master_password)?;
    check_folder_pin(&payload, folder_id, pin)
}

} // verus!
