use base64::Engine;
use peka_vault::errors::{ErrorClass, VaultError};
use peka_vault::model::{KdfParams, StoredCredential, StoredFolder, StoredVault};
use peka_vault::vault::{
    decode_envelope, decrypt_vault, default_kdf_params, encode_envelope, encrypt_payload,
    open_envelope, open_vault_inner, seal_payload,
};

fn light_kdf() -> KdfParams {
    KdfParams {
        algorithm: "Argon2id".to_string(),
        memory_kib: 64,
        time_cost: 1,
        parallelism: 1,
        hash_length: 32,
        salt_length: 16,
    }
}

fn sample_payload() -> StoredVault {
    StoredVault {
        vault_name: "Personal".to_string(),
        folders: vec![
            StoredFolder {
                id: "f-1".to_string(),
                name: "Banking".to_string(),
                secure: false,
                pin_hash: None,
                credentials: vec![
                    StoredCredential {
                        id: "c-1".to_string(),
                        title: "Chase".to_string(),
                        username: "alice".to_string(),
                        password: "s3cr3t \"quoted\" \\ \u{1F511}".to_string(),
                        notes: Some("line one\nline two".to_string()),
                        created_at: "2024-01-01T00:00:00+00:00".to_string(),
                        updated_at: "2024-01-02T00:00:00+00:00".to_string(),
                    },
                    StoredCredential {
                        id: "c-2".to_string(),
                        title: "".to_string(),
                        username: "bob".to_string(),
                        password: "x".to_string(),
                        notes: None,
                        created_at: "t".to_string(),
                        updated_at: "t".to_string(),
                    },
                ],
                created_at: "2024-01-01T00:00:00+00:00".to_string(),
                updated_at: "2024-01-02T00:00:00+00:00".to_string(),
            },
            StoredFolder {
                id: "f-2".to_string(),
                name: "Secrets".to_string(),
                secure: true,
                pin_hash: Some("$argon2id$v=19$m=19456,t=2,p=1$c2FsdHNhbHQ$aGFzaA".to_string()),
                credentials: vec![],
                created_at: "a".to_string(),
                updated_at: "b".to_string(),
            },
        ],
    }
}

#[test]
fn default_parameters_are_128_mib_3_passes_2_lanes() {
    let kdf = default_kdf_params();
    assert_eq!(kdf.algorithm, "Argon2id");
    assert_eq!(kdf.memory_kib, 131072);
    assert_eq!(kdf.time_cost, 3);
    assert_eq!(kdf.parallelism, 2);
    assert_eq!(kdf.hash_length, 32);
    assert_eq!(kdf.salt_length, 16);
}

#[test]
fn decrypt_gives_back_what_encrypt_was_given() {
    let payload = sample_payload();
    let kdf = light_kdf();
    let file = encrypt_payload(&payload, "correct horse", Some(&kdf)).unwrap();
    assert_eq!(file.version, 1);
    assert_eq!(file.vault_name, "Personal");
    assert_eq!(file.kdf, kdf);
    let opened = open_envelope(&file, "correct horse").unwrap();
    assert_eq!(opened, payload);
    let text = encode_envelope(&file).unwrap();
    let (read, decrypted) = decrypt_vault(&text, "correct horse").unwrap();
    assert_eq!(read, file);
    assert_eq!(decrypted, payload);
}

#[test]
fn every_encryption_takes_a_fresh_salt_and_nonce() {
    let payload = sample_payload();
    let kdf = light_kdf();
    let a = encrypt_payload(&payload, "pw", Some(&kdf)).unwrap();
    let b = encrypt_payload(&payload, "pw", Some(&kdf)).unwrap();
    assert_ne!(a.salt, b.salt);
    assert_ne!(a.nonce, b.nonce);
    assert_ne!(a.ciphertext, b.ciphertext);
    assert_eq!(a.kdf, b.kdf);
    for file in [&a, &b] {
        assert_eq!(base64::engine::general_purpose::STANDARD.decode(&file.salt).unwrap().len(), 16);
        assert_eq!(base64::engine::general_purpose::STANDARD.decode(&file.nonce).unwrap().len(), 12);
    }
    let mut longer = light_kdf();
    longer.salt_length = 24;
    let c = encrypt_payload(&payload, "pw", Some(&longer)).unwrap();
    assert_eq!(base64::engine::general_purpose::STANDARD.decode(&c.salt).unwrap().len(), 24);
    assert_eq!(open_envelope(&c, "pw").unwrap(), payload);
}

#[test]
fn sealing_with_given_salt_and_nonce_is_exact() {
    let payload = StoredVault { vault_name: "V".to_string(), folders: vec![] };
    let kdf = light_kdf();
    let salt = [9u8; 16];
    let nonce = [3u8; 12];
    let a = seal_payload(&payload, "pw", &kdf, &salt, &nonce).unwrap();
    let b = seal_payload(&payload, "pw", &kdf, &salt, &nonce).unwrap();
    assert_eq!(a, b);
    assert_eq!(a.salt, "CQkJCQkJCQkJCQkJCQkJCQ==");
    assert_eq!(a.nonce, "AwMDAwMDAwMDAwMD");
    assert_eq!(base64::engine::general_purpose::STANDARD.decode(&a.salt).unwrap(), salt.to_vec());
    assert_eq!(base64::engine::general_purpose::STANDARD.decode(&a.nonce).unwrap(), nonce.to_vec());
    assert_eq!(a.version, 1);
    // {"vaultName":"V","folders":[]} is 30 bytes; the tag adds 16; base64 of 46 bytes is 64 characters
    assert_eq!(a.ciphertext.len(), 64);
    assert_eq!(open_envelope(&a, "pw").unwrap(), payload);
}

#[test]
fn wrong_password_fails_as_authentication() {
    let payload = sample_payload();
    let file = encrypt_payload(&payload, "correct horse", Some(&light_kdf())).unwrap();
    let text = encode_envelope(&file).unwrap();
    let err = decrypt_vault(&text, "wrong password").unwrap_err();
    assert_eq!(err, VaultError::Authentication);
    assert_eq!(err.class(), ErrorClass::Authentication);
    assert_eq!(open_vault_inner(&text, "wrong password").unwrap_err(), VaultError::Authentication);
}

fn flip_first_base64_char(text: &str) -> String {
    let mut chars: Vec<char> = text.chars().collect();
    chars[0] = if chars[0] == 'A' { 'B' } else { 'A' };
    chars.into_iter().collect()
}

#[test]
fn tampering_fails_as_authentication() {
    let payload = sample_payload();
    let file = encrypt_payload(&payload, "correct horse", Some(&light_kdf())).unwrap();

    let mut bad = file.clone();
    bad.ciphertext = flip_first_base64_char(&file.ciphertext);
    assert_eq!(open_envelope(&bad, "correct horse").unwrap_err(), VaultError::Authentication);

    let mut bad = file.clone();
    bad.nonce = flip_first_base64_char(&file.nonce);
    assert_eq!(open_envelope(&bad, "correct horse").unwrap_err(), VaultError::Authentication);

    let mut bad = file.clone();
    bad.salt = flip_first_base64_char(&file.salt);
    assert_eq!(open_envelope(&bad, "correct horse").unwrap_err(), VaultError::Authentication);
}

#[test]
fn every_byte_of_a_small_ciphertext_is_protected() {
    let payload = StoredVault { vault_name: "V".to_string(), folders: vec![] };
    let file = encrypt_payload(&payload, "pw", Some(&light_kdf())).unwrap();
    let sealed = base64::engine::general_purpose::STANDARD.decode(&file.ciphertext).unwrap();
    for i in 0..sealed.len() {
        let mut altered = sealed.clone();
        altered[i] ^= 0x01;
        let mut bad = file.clone();
        bad.ciphertext = base64::engine::general_purpose::STANDARD.encode(&altered);
        assert_eq!(open_envelope(&bad, "pw").unwrap_err(), VaultError::Authentication);
    }
}

fn with_byte_flipped(text: &str, index: usize) -> String {
    let mut bytes = base64::engine::general_purpose::STANDARD.decode(text).unwrap();
    bytes[index] ^= 0x80;
    base64::engine::general_purpose::STANDARD.encode(&bytes)
}

#[test]
fn every_byte_of_salt_and_nonce_is_protected() {
    let payload = StoredVault { vault_name: "V".to_string(), folders: vec![] };
    let file = encrypt_payload(&payload, "pw", Some(&light_kdf())).unwrap();
    for i in 0..16 {
        let mut bad = file.clone();
        bad.salt = with_byte_flipped(&file.salt, i);
        assert_eq!(open_envelope(&bad, "pw").unwrap_err(), VaultError::Authentication);
    }
    for i in 0..12 {
        let mut bad = file.clone();
        bad.nonce = with_byte_flipped(&file.nonce, i);
        assert_eq!(open_envelope(&bad, "pw").unwrap_err(), VaultError::Authentication);
    }
    assert_eq!(open_envelope(&file, "pw").unwrap(), payload);
}

#[test]
fn malformed_envelopes_are_format_errors() {
    for text in ["", "garbage", "[]", "{}", "{\"version\":1}", "{\"version\":1,\"vaultName\":\"n\",\"kdf\":{},\"salt\":\"\",\"nonce\":\"\",\"ciphertext\":\"\"}"] {
        let err = decode_envelope(text).unwrap_err();
        assert_eq!(err, VaultError::MalformedEnvelope);
        assert_eq!(err.class(), ErrorClass::Format);
        assert_eq!(decrypt_vault(text, "pw").unwrap_err(), VaultError::MalformedEnvelope);
    }
}

fn envelope_text(version: &str, salt: &str, nonce: &str, ciphertext: &str) -> String {
    format!(
        "{{\"version\":{},\"vaultName\":\"n\",\"kdf\":{{\"algorithm\":\"Argon2id\",\"memoryKib\":64,\"timeCost\":1,\"parallelism\":1,\"hashLength\":32,\"saltLength\":16}},\"salt\":\"{}\",\"nonce\":\"{}\",\"ciphertext\":\"{}\",\"extra\":null}}",
        version, salt, nonce, ciphertext
    )
}

#[test]
fn envelope_fields_are_checked_in_order() {
    let good_salt = "CQkJCQkJCQkJCQkJCQkJCQ==";
    let good_nonce = "AwMDAwMDAwMDAwMD";
    let file = decode_envelope(&envelope_text("1", good_salt, good_nonce, "AAAA")).unwrap();
    assert_eq!(file.version, 1);
    assert_eq!(file.vault_name, "n");
    assert_eq!(file.kdf, light_kdf());

    assert_eq!(decode_envelope(&envelope_text("256", good_salt, good_nonce, "AAAA")).unwrap_err(), VaultError::MalformedEnvelope);
    assert_eq!(decode_envelope(&envelope_text("-1", good_salt, good_nonce, "AAAA")).unwrap_err(), VaultError::MalformedEnvelope);
    assert_eq!(decode_envelope(&envelope_text("1.0", good_salt, good_nonce, "AAAA")).unwrap_err(), VaultError::MalformedEnvelope);

    assert_eq!(decrypt_vault(&envelope_text("1", "***", good_nonce, "AAAA"), "pw").unwrap_err(), VaultError::InvalidSaltEncoding);
    assert_eq!(decrypt_vault(&envelope_text("1", good_salt, "***", "AAAA"), "pw").unwrap_err(), VaultError::InvalidNonceEncoding);
    assert_eq!(decrypt_vault(&envelope_text("1", good_salt, good_nonce, "***"), "pw").unwrap_err(), VaultError::InvalidCiphertextEncoding);
    // a salt of four bytes is too short for Argon2
    assert_eq!(decrypt_vault(&envelope_text("1", "AAAAAA==", good_nonce, "AAAA"), "pw").unwrap_err(), VaultError::KeyDerivation);
    // a nonce of three bytes is not a nonce
    assert_eq!(decrypt_vault(&envelope_text("1", good_salt, "AAAA", "AAAA"), "pw").unwrap_err(), VaultError::InvalidNonceEncoding);
    // three bytes of ciphertext are shorter than a tag
    assert_eq!(decrypt_vault(&envelope_text("1", good_salt, good_nonce, "AAAA"), "pw").unwrap_err(), VaultError::Authentication);
}

#[test]
fn unusable_parameters_fail_as_key_derivation() {
    let payload = StoredVault { vault_name: "V".to_string(), folders: vec![] };
    let mut kdf = light_kdf();
    kdf.memory_kib = 4;
    let err = encrypt_payload(&payload, "pw", Some(&kdf)).unwrap_err();
    assert_eq!(err, VaultError::KeyDerivation);
    assert_eq!(err.class(), ErrorClass::KeyDerivation);

    let mut kdf = light_kdf();
    kdf.time_cost = 0;
    assert_eq!(encrypt_payload(&payload, "pw", Some(&kdf)).unwrap_err(), VaultError::KeyDerivation);

    let mut kdf = light_kdf();
    kdf.parallelism = 0x2000_0000;
    assert_eq!(encrypt_payload(&payload, "pw", Some(&kdf)).unwrap_err(), VaultError::KeyDerivation);

    let mut kdf = light_kdf();
    kdf.salt_length = 4;
    assert_eq!(encrypt_payload(&payload, "pw", Some(&kdf)).unwrap_err(), VaultError::KeyDerivation);

    let mut kdf = light_kdf();
    kdf.hash_length = 16;
    assert_eq!(encrypt_payload(&payload, "pw", Some(&kdf)).unwrap_err(), VaultError::UnusableKey);
}

#[test]
fn the_algorithm_written_is_always_argon2id() {
    let payload = StoredVault { vault_name: "V".to_string(), folders: vec![] };
    let mut kdf = light_kdf();
    kdf.algorithm = "something else".to_string();
    let file = encrypt_payload(&payload, "pw", Some(&kdf)).unwrap();
    assert_eq!(file.kdf, light_kdf());
}

#[test]
fn open_vault_shows_contents_without_pin_hashes() {
    let payload = sample_payload();
    let file = encrypt_payload(&payload, "pw", Some(&light_kdf())).unwrap();
    let text = encode_envelope(&file).unwrap();
    let contents = open_vault_inner(&text, "pw").unwrap();
    assert_eq!(contents.vault_name, "Personal");
    assert_eq!(contents.folders.len(), 2);
    assert_eq!(contents.folders[0].name, "Banking");
    assert!(!contents.folders[0].secure);
    assert_eq!(contents.folders[0].credentials.len(), 2);
    assert_eq!(contents.folders[0].credentials[0].username, "alice");
    assert_eq!(contents.folders[0].credentials[0].notes.as_deref(), Some("line one\nline two"));
    assert_eq!(contents.folders[0].credentials[1].notes, None);
    assert!(contents.folders[1].secure);
    assert_eq!(contents.folders[1].id, "f-2");
}

#[test]
fn the_envelope_text_has_its_fields_in_order() {
    let payload = StoredVault { vault_name: "V".to_string(), folders: vec![] };
    let file = encrypt_payload(&payload, "pw", Some(&light_kdf())).unwrap();
    let text = encode_envelope(&file).unwrap();
    let value: serde_json::Value = serde_json::from_str(&text).unwrap();
    let object = value.as_object().unwrap();
    let keys: Vec<&str> = object.keys().map(|k| k.as_str()).collect();
    assert_eq!(keys, vec!["version", "vaultName", "kdf", "salt", "nonce", "ciphertext"]);
    let kdf_keys: Vec<&str> = object["kdf"].as_object().unwrap().keys().map(|k| k.as_str()).collect();
    assert_eq!(kdf_keys, vec!["algorithm", "memoryKib", "timeCost", "parallelism", "hashLength", "saltLength"]);
    assert_eq!(object["version"].as_u64(), Some(1));
    assert_eq!(object["kdf"]["memoryKib"].as_u64(), Some(64));
    assert!(text.contains('\n'));
}
