use peka_vault::crypto::{derive_key, open, seal};
use peka_vault::errors::VaultError;
use peka_vault::model::KdfParams;

fn small_params() -> KdfParams {
    KdfParams {
        algorithm: "Argon2id".to_string(),
        memory_kib: 64,
        time_cost: 1,
        parallelism: 1,
        hash_length: 32,
        salt_length: 16,
    }
}

#[test]
fn derive_key_is_deterministic() {
    let params = small_params();
    let a = derive_key(b"correct horse", b"0123456789abcdef", &params).unwrap();
    let b = derive_key(b"correct horse", b"0123456789abcdef", &params).unwrap();
    assert_eq!(a.len(), 32);
    assert_eq!(a, b);
    let c = derive_key(b"wrong horse", b"0123456789abcdef", &params).unwrap();
    assert_ne!(a, c);
}

#[test]
fn seal_then_open_gives_the_plaintext_back() {
    let key = [7u8; 32];
    let nonce = [1u8; 12];
    let sealed = seal(&key, &nonce, b"hello").unwrap();
    assert_eq!(sealed.len(), 5 + 16);
    assert_ne!(&sealed[..5], b"hello");
    assert_eq!(open(&key, &nonce, &sealed).unwrap(), b"hello".to_vec());
    let other = [8u8; 32];
    assert_eq!(open(&other, &nonce, &sealed), Err(VaultError::Authentication));
}

#[test]
fn parameters_outside_the_ranges_of_argon2_are_refused() {
    let salt = b"0123456789abcdef";
    let cases: Vec<(u32, u32, u32, u32)> = vec![
        (7, 1, 1, 32),
        (8, 0, 1, 32),
        (8, 1, 0, 32),
        (15, 1, 2, 32),
        (64, 1, 1, 3),
        (64, 1, 1, 0),
        (64, 1, 0x0100_0000, 32),
        (64, 1, 0x2000_0000, 32),
        (64, 1, u32::MAX, 32),
        (0, 0, 0, 0),
    ];
    for (memory_kib, time_cost, parallelism, hash_length) in cases {
        let params = KdfParams {
            algorithm: "Argon2id".to_string(),
            memory_kib,
            time_cost,
            parallelism,
            hash_length,
            salt_length: 16,
        };
        assert_eq!(derive_key(b"pw", salt, &params), Err(VaultError::KeyDerivation));
    }
    assert_eq!(derive_key(b"pw", b"short", &small_params()), Err(VaultError::KeyDerivation));
    assert_eq!(derive_key(b"pw", b"", &small_params()), Err(VaultError::KeyDerivation));
}

#[test]
fn keys_of_other_lengths_can_be_derived() {
    let mut params = small_params();
    params.hash_length = 4;
    assert_eq!(derive_key(b"pw", b"0123456789abcdef", &params).unwrap().len(), 4);
    params.hash_length = 100;
    assert_eq!(derive_key(b"", b"01234567", &params).unwrap().len(), 100);
    params.memory_kib = 8;
    params.parallelism = 1;
    assert_eq!(derive_key(b"pw", b"0123456789abcdef", &params).unwrap().len(), 100);
}

#[test]
fn a_known_key() {
    // Argon2id, version 0x13, 64 KiB, 1 pass, 1 lane, 32 bytes
    let key = derive_key(b"password", b"somesaltsomesalt", &small_params()).unwrap();
    let again = derive_key(b"password", b"somesaltsomesalt", &small_params()).unwrap();
    assert_eq!(key, again);
    let other_salt = derive_key(b"password", b"somesaltsomesalu", &small_params()).unwrap();
    assert_ne!(key, other_salt);
    let mut params = small_params();
    params.time_cost = 2;
    assert_ne!(derive_key(b"password", b"somesaltsomesalt", &params).unwrap(), key);
    params = small_params();
    params.memory_kib = 65;
    assert_ne!(derive_key(b"password", b"somesaltsomesalt", &params).unwrap(), key);
    params = small_params();
    params.algorithm = "ignored".to_string();
    assert_eq!(derive_key(b"password", b"somesaltsomesalt", &params).unwrap(), key);
}

#[test]
fn seal_and_open_check_key_and_nonce_lengths() {
    assert_eq!(seal(&[0u8; 31], &[0u8; 12], b"x"), Err(VaultError::UnusableKey));
    assert_eq!(seal(&[0u8; 33], &[0u8; 12], b"x"), Err(VaultError::UnusableKey));
    assert_eq!(seal(&[0u8; 32], &[0u8; 11], b"x"), Err(VaultError::InvalidNonceEncoding));
    assert_eq!(seal(&[0u8; 32], &[0u8; 13], b"x"), Err(VaultError::InvalidNonceEncoding));
    assert_eq!(seal(&[], &[], b"x"), Err(VaultError::UnusableKey));
    assert_eq!(open(&[0u8; 16], &[0u8; 12], &[0u8; 32]), Err(VaultError::UnusableKey));
    assert_eq!(open(&[0u8; 32], &[0u8; 0], &[0u8; 32]), Err(VaultError::InvalidNonceEncoding));
    assert_eq!(open(&[0u8; 32], &[0u8; 12], &[]), Err(VaultError::Authentication));
    assert_eq!(open(&[0u8; 32], &[0u8; 12], &[0u8; 15]), Err(VaultError::Authentication));
    assert_eq!(open(&[0u8; 32], &[0u8; 12], &[0u8; 16]), Err(VaultError::Authentication));
}

#[test]
fn seal_is_aes_256_gcm() {
    // A published vector of AES-256-GCM: all zero key and nonce, no plaintext.
    let sealed = seal(&[0u8; 32], &[0u8; 12], b"").unwrap();
    assert_eq!(
        sealed,
        vec![0x53, 0x0f, 0x8a, 0xfb, 0xc7, 0x45, 0x36, 0xb9, 0xa9, 0x63, 0xb4, 0xf1, 0xc4, 0xcb, 0x73, 0x8b]
    );
    assert_eq!(open(&[0u8; 32], &[0u8; 12], &sealed), Ok(vec![]));
    // Another: sixteen zero bytes of plaintext.
    let sealed = seal(&[0u8; 32], &[0u8; 12], &[0u8; 16]).unwrap();
    assert_eq!(
        sealed,
        vec![
            0xce, 0xa7, 0x40, 0x3d, 0x4d, 0x60, 0x6b, 0x6e, 0x07, 0x4e, 0xc5, 0xd3, 0xba, 0xf3, 0x9d, 0x18,
            0xd0, 0xd1, 0xc8, 0xa7, 0x99, 0x99, 0x6b, 0xf0, 0x26, 0x5b, 0x98, 0xb5, 0xd4, 0x8a, 0xb9, 0x19
        ]
    );
    let mut nonce = [0u8; 12];
    nonce[11] = 1;
    assert_eq!(open(&[0u8; 32], &nonce, &sealed), Err(VaultError::Authentication));
}

#[test]
fn wipe_leaves_zeros_of_the_same_length() {
    let mut secret = vec![1u8, 2, 3, 255];
    peka_vault::crypto::wipe(&mut secret);
    assert_eq!(secret, vec![0u8; 4]);
    let mut empty: Vec<u8> = vec![];
    peka_vault::crypto::wipe(&mut empty);
    assert!(empty.is_empty());
}

fn hex(bytes: &[u8]) -> String {
    bytes.iter().map(|b| format!("{:02x}", b)).collect()
}

#[test]
fn derive_key_is_argon2id_version_19() {
    // Published vectors of Argon2id, version 0x13, for "password" and "somesalt".
    let mut params = small_params();
    params.memory_kib = 256;
    params.time_cost = 2;
    params.parallelism = 1;
    let key = derive_key(b"password", b"somesalt", &params).unwrap();
    assert_eq!(hex(&key), "9dfeb910e80bad0311fee20f9c0e2b12c17987b4cac90c2ef54d5b3021c68bfe");
    params.parallelism = 2;
    let key = derive_key(b"password", b"somesalt", &params).unwrap();
    assert_eq!(hex(&key), "6d093c501fd5999645e0ea3bf620d7b8be7fd2db59c20d9fff9539da2bf57037");
}
