//! The failures a vault operation can report.

use vstd::prelude::*;

verus! {

/// The broad kind of a failure, which decides how a caller reacts to it.
#[derive(Clone, Copy, Debug, PartialEq, Eq, Structural)]
pub enum ErrorClass {
    /// A required field is empty or a PIN is malformed; the caller may correct
    /// the input and try again.
    Validation,
    /// The vault file does not have the structure of an envelope.
    Format,
    /// The key derivation parameters are unusable.
    KeyDerivation,
    /// The derived key does not authenticate the ciphertext: the password is
    /// wrong or the data was altered. The two are deliberately not told apart.
    Authentication,
    /// The decrypted bytes are not a vault payload.
    Payload,
    /// A folder, a credential or a vault file is absent.
    NotFound,
    /// A path leaves the vault directory or does not name a vault file.
    PathSafety,
    /// The operating system refused a service.
    Io,
}

/// Why a vault operation failed.
#[derive(Clone, Copy, Debug, PartialEq, Eq, Structural)]
pub enum VaultError {
    EmptyVaultName,
    EmptyMasterPassword,
    FolderNameRequired,
    PinRequired,
    PinMalformed,
    IdentifierRequired,
    PasswordRequired,
    VaultPathRequired,
    SourcePathRequired,
    DestinationPathRequired,
    MalformedEnvelope,
    InvalidSaltEncoding,
    InvalidNonceEncoding,
    InvalidCiphertextEncoding,
    KeyDerivation,
    UnusableKey,
    Authentication,
    MalformedPayload,
    PinHashMissing,
    PinHashUnreadable,
    FolderNotFound,
    CredentialNotFound,
    VaultFileNotFound,
    UnresolvablePath,
    UnresolvableSourcePath,
    OutsideVaultDirectory,
    NotAVaultFile,
    NoVaultDirectory,
    RandomSourceFailed,
    ClockUnavailable,
    EncryptionFailed,
    EncodingFailed,
    PinHashingFailed,
}

impl VaultError {
    /// The class of this failure.
    pub open spec fn class_spec(self) -> ErrorClass {
        match self {
            VaultError::EmptyVaultName
            | VaultError::EmptyMasterPassword
            | VaultError::FolderNameRequired
            | VaultError::PinRequired
            | VaultError::PinMalformed
            | VaultError::IdentifierRequired
            | VaultError::PasswordRequired
            | VaultError::VaultPathRequired
            | VaultError::SourcePathRequired
            | VaultError::DestinationPathRequired => ErrorClass::Validation,
            VaultError::MalformedEnvelope
            | VaultError::InvalidSaltEncoding
            | VaultError::InvalidNonceEncoding
            | VaultError::InvalidCiphertextEncoding => ErrorClass::Format,
            VaultError::KeyDerivation
            | VaultError::UnusableKey
            | VaultError::PinHashingFailed => ErrorClass::KeyDerivation,
            VaultError::Authentication => ErrorClass::Authentication,
            VaultError::MalformedPayload
            | VaultError::PinHashMissing
            | VaultError::PinHashUnreadable => ErrorClass::Payload,
            VaultError::FolderNotFound
            | VaultError::CredentialNotFound
            | VaultError::VaultFileNotFound => ErrorClass::NotFound,
            VaultError::UnresolvablePath
            | VaultError::UnresolvableSourcePath
            | VaultError::OutsideVaultDirectory
            | VaultError::NotAVaultFile => ErrorClass::PathSafety,
            VaultError::NoVaultDirectory
            | VaultError::RandomSourceFailed
            | VaultError::ClockUnavailable
            | VaultError::EncryptionFailed
            | VaultError::EncodingFailed => ErrorClass::Io,
        }
    }

    /// The class of this failure.
    #[verifier::when_used_as_spec(class_spec)]
    pub fn class(self) -> (r: ErrorClass)
        ensures
            r == self.class_spec(),
    {
        match self {
            VaultError::EmptyVaultName
            | VaultError::EmptyMasterPassword
            | VaultError::FolderNameRequired
            | VaultError::PinRequired
            | VaultError::PinMalformed
            | VaultError::IdentifierRequired
            | VaultError::PasswordRequired
            | VaultError::VaultPathRequired
            | VaultError::SourcePathRequired
            | VaultError::DestinationPathRequired => ErrorClass::Validation,
            VaultError::MalformedEnvelope
            | VaultError::InvalidSaltEncoding
            | VaultError::InvalidNonceEncoding
            | VaultError::InvalidCiphertextEncoding => ErrorClass::Format,
            VaultError::KeyDerivation
            | VaultError::UnusableKey
            | VaultError::PinHashingFailed => ErrorClass::KeyDerivation,
            VaultError::Authentication => ErrorClass::Authentication,
            VaultError::MalformedPayload
            | VaultError::PinHashMissing
            | VaultError::PinHashUnreadable => ErrorClass::Payload,
            VaultError::FolderNotFound
            | VaultError::CredentialNotFound
            | VaultError::VaultFileNotFound => ErrorClass::NotFound,
            VaultError::UnresolvablePath
            | VaultError::UnresolvableSourcePath
            | VaultError::OutsideVaultDirectory
            | VaultError::NotAVaultFile => ErrorClass::PathSafety,
            VaultError::NoVaultDirectory
            | VaultError::RandomSourceFailed
            | VaultError::ClockUnavailable
            | VaultError::EncryptionFailed
            | VaultError::EncodingFailed => ErrorClass::Io,
        }
    }
    /// The message of this failure, as shown to a caller. The message of an
    /// `Authentication` failure does not say whether the password was wrong
    /// or the data altered, and no message names a path.
    pub open spec fn message_spec(self) -> Seq<char> {
        match self {
            VaultError::EmptyVaultName => "Vault name cannot be empty"@,
            VaultError::EmptyMasterPassword => "Master password cannot be empty"@,
            VaultError::FolderNameRequired => "Folder name is required."@,
            VaultError::PinRequired => "PIN is required for secure folders."@,
            VaultError::PinMalformed => "PIN must be exactly 4 digits."@,
            VaultError::IdentifierRequired => "Username or email is required."@,
            VaultError::PasswordRequired => "Password is required."@,
            VaultError::VaultPathRequired => "Vault path is required"@,
            VaultError::SourcePathRequired => "Source path is required"@,
            VaultError::DestinationPathRequired => "Destination path is required"@,
            VaultError::MalformedEnvelope => "Vault file is corrupted or invalid"@,
            VaultError::InvalidSaltEncoding => "Invalid salt encoding"@,
            VaultError::InvalidNonceEncoding => "Invalid nonce encoding"@,
            VaultError::InvalidCiphertextEncoding => "Invalid ciphertext encoding"@,
            VaultError::KeyDerivation => "Unable to derive encryption key"@,
            VaultError::UnusableKey => "Derived key has the wrong length"@,
            VaultError::Authentication => "Failed to decrypt vault: incorrect password or corrupted data"@,
            VaultError::MalformedPayload => "Vault data is malformed"@,
            VaultError::PinHashMissing => "Folder PIN hash not found"@,
            VaultError::PinHashUnreadable => "Folder PIN hash is unreadable"@,
            VaultError::FolderNotFound => "Folder not found"@,
            VaultError::CredentialNotFound => "Credential not found"@,
            VaultError::VaultFileNotFound => "Vault file not found"@,
            VaultError::UnresolvablePath => "Unable to resolve vault path"@,
            VaultError::UnresolvableSourcePath => "Unable to resolve source path"@,
            VaultError::OutsideVaultDirectory => "Vault path is invalid"@,
            VaultError::NotAVaultFile => "Invalid vault file"@,
            VaultError::NoVaultDirectory => "Vault directory is unavailable"@,
            VaultError::RandomSourceFailed => "Random source is unavailable"@,
            VaultError::ClockUnavailable => "System clock is unavailable"@,
            VaultError::EncryptionFailed => "Unable to encrypt vault"@,
            VaultError::EncodingFailed => "Unable to encode vault"@,
            VaultError::PinHashingFailed => "Unable to hash PIN"@,
        }
    }

    /// The message of this failure, as shown to a caller.
    pub fn message(self) -> (r: String)
        ensures
            r@ == self.message_spec(),
    {
        let text = match self {
            VaultError::EmptyVaultName => "Vault name cannot be empty",
            VaultError::EmptyMasterPassword => "Master password cannot be empty",
            VaultError::FolderNameRequired => "Folder name is required.",
            VaultError::PinRequired => "PIN is required for secure folders.",
            VaultError::PinMalformed => "PIN must be exactly 4 digits.",
            VaultError::IdentifierRequired => "Username or email is required.",
            VaultError::PasswordRequired => "Password is required.",
            VaultError::VaultPathRequired => "Vault path is required",
            VaultError::SourcePathRequired => "Source path is required",
            VaultError::DestinationPathRequired => "Destination path is required",
            VaultError::MalformedEnvelope => "Vault file is corrupted or invalid",
            VaultError::InvalidSaltEncoding => "Invalid salt encoding",
            VaultError::InvalidNonceEncoding => "Invalid nonce encoding",
            VaultError::InvalidCiphertextEncoding => "Invalid ciphertext encoding",
            VaultError::KeyDerivation => "Unable to derive encryption key",
            VaultError::UnusableKey => "Derived key has the wrong length",
            VaultError::Authentication => "Failed to decrypt vault: incorrect password or corrupted data",
            VaultError::MalformedPayload => "Vault data is malformed",
            VaultError::PinHashMissing => "Folder PIN hash not found",
            VaultError::PinHashUnreadable => "Folder PIN hash is unreadable",
            VaultError::FolderNotFound => "Folder not found",
            VaultError::CredentialNotFound => "Credential not found",
            VaultError::VaultFileNotFound => "Vault file not found",
            VaultError::UnresolvablePath => "Unable to resolve vault path",
            VaultError::UnresolvableSourcePath => "Unable to resolve source path",
            VaultError::OutsideVaultDirectory => "Vault path is invalid",
            VaultError::NotAVaultFile => "Invalid vault file",
            VaultError::NoVaultDirectory => "Vault directory is unavailable",
            VaultError::RandomSourceFailed => "Random source is unavailable",
            VaultError::ClockUnavailable => "System clock is unavailable",
            VaultError::EncryptionFailed => "Unable to encrypt vault",
            VaultError::EncodingFailed => "Unable to encode vault",
            VaultError::PinHashingFailed => "Unable to hash PIN",
        };
        text.to_owned()
    }
}

} // verus!
