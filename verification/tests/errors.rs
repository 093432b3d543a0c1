use peka_vault::errors::{ErrorClass, VaultError};

#[test]
fn messages_are_those_the_interface_shows() {
    assert_eq!(VaultError::EmptyVaultName.message(), "Vault name cannot be empty");
    assert_eq!(VaultError::EmptyMasterPassword.message(), "Master password cannot be empty");
    assert_eq!(VaultError::FolderNameRequired.message(), "Folder name is required.");
    assert_eq!(VaultError::PinRequired.message(), "PIN is required for secure folders.");
    assert_eq!(VaultError::PinMalformed.message(), "PIN must be exactly 4 digits.");
    assert_eq!(VaultError::IdentifierRequired.message(), "Username or email is required.");
    assert_eq!(VaultError::PasswordRequired.message(), "Password is required.");
    assert_eq!(VaultError::VaultPathRequired.message(), "Vault path is required");
    assert_eq!(VaultError::SourcePathRequired.message(), "Source path is required");
    assert_eq!(VaultError::DestinationPathRequired.message(), "Destination path is required");
    assert_eq!(VaultError::MalformedEnvelope.message(), "Vault file is corrupted or invalid");
    assert_eq!(VaultError::InvalidSaltEncoding.message(), "Invalid salt encoding");
    assert_eq!(VaultError::InvalidNonceEncoding.message(), "Invalid nonce encoding");
    assert_eq!(VaultError::InvalidCiphertextEncoding.message(), "Invalid ciphertext encoding");
    assert_eq!(VaultError::KeyDerivation.message(), "Unable to derive encryption key");
    assert_eq!(
        VaultError::Authentication.message(),
        "Failed to decrypt vault: incorrect password or corrupted data"
    );
    assert_eq!(VaultError::MalformedPayload.message(), "Vault data is malformed");
    assert_eq!(VaultError::PinHashMissing.message(), "Folder PIN hash not found");
    assert_eq!(VaultError::FolderNotFound.message(), "Folder not found");
    assert_eq!(VaultError::CredentialNotFound.message(), "Credential not found");
    assert_eq!(VaultError::VaultFileNotFound.message(), "Vault file not found");
    assert_eq!(VaultError::UnresolvablePath.message(), "Unable to resolve vault path");
    assert_eq!(VaultError::UnresolvableSourcePath.message(), "Unable to resolve source path");
    assert_eq!(VaultError::OutsideVaultDirectory.message(), "Vault path is invalid");
    assert_eq!(VaultError::NotAVaultFile.message(), "Invalid vault file");
}

#[test]
fn every_error_has_a_class_and_a_message() {
    let all = [
        (VaultError::EmptyVaultName, ErrorClass::Validation),
        (VaultError::EmptyMasterPassword, ErrorClass::Validation),
        (VaultError::FolderNameRequired, ErrorClass::Validation),
        (VaultError::PinRequired, ErrorClass::Validation),
        (VaultError::PinMalformed, ErrorClass::Validation),
        (VaultError::IdentifierRequired, ErrorClass::Validation),
        (VaultError::PasswordRequired, ErrorClass::Validation),
        (VaultError::VaultPathRequired, ErrorClass::Validation),
        (VaultError::SourcePathRequired, ErrorClass::Validation),
        (VaultError::DestinationPathRequired, ErrorClass::Validation),
        (VaultError::MalformedEnvelope, ErrorClass::Format),
        (VaultError::InvalidSaltEncoding, ErrorClass::Format),
        (VaultError::InvalidNonceEncoding, ErrorClass::Format),
        (VaultError::InvalidCiphertextEncoding, ErrorClass::Format),
        (VaultError::KeyDerivation, ErrorClass::KeyDerivation),
        (VaultError::UnusableKey, ErrorClass::KeyDerivation),
        (VaultError::PinHashingFailed, ErrorClass::KeyDerivation),
        (VaultError::Authentication, ErrorClass::Authentication),
        (VaultError::MalformedPayload, ErrorClass::Payload),
        (VaultError::PinHashMissing, ErrorClass::Payload),
        (VaultError::PinHashUnreadable, ErrorClass::Payload),
        (VaultError::FolderNotFound, ErrorClass::NotFound),
        (VaultError::CredentialNotFound, ErrorClass::NotFound),
        (VaultError::VaultFileNotFound, ErrorClass::NotFound),
        (VaultError::UnresolvablePath, ErrorClass::PathSafety),
        (VaultError::UnresolvableSourcePath, ErrorClass::PathSafety),
        (VaultError::OutsideVaultDirectory, ErrorClass::PathSafety),
        (VaultError::NotAVaultFile, ErrorClass::PathSafety),
        (VaultError::NoVaultDirectory, ErrorClass::Io),
        (VaultError::RandomSourceFailed, ErrorClass::Io),
        (VaultError::ClockUnavailable, ErrorClass::Io),
        (VaultError::EncryptionFailed, ErrorClass::Io),
        (VaultError::EncodingFailed, ErrorClass::Io),
    ];
    for (error, class) in all {
        assert_eq!(error.class(), class);
        assert!(!error.message().is_empty());
    }
    let messages: Vec<String> = all.iter().map(|(e, _)| e.message()).collect();
    for i in 0..messages.len() {
        for j in (i + 1)..messages.len() {
            assert_ne!(messages[i], messages[j]);
        }
    }
    for (error, _) in all {
        if error.class() == ErrorClass::PathSafety {
            assert!(!error.message().contains('/'));
        }
    }
}
