use peka_vault::errors::{ErrorClass, VaultError};
use peka_vault::paths::{
    check_target, delete_vault_inner, export_vault_file_inner, is_below, is_vault_file_name,
    list_vaults_inner, resolve_vault_directory, DirectoryEntry, PathProbe, VaultSummary,
};

fn parts(items: &[&str]) -> Vec<String> {
    items.iter().map(|s| s.to_string()).collect()
}

fn found(items: &[&str]) -> PathProbe {
    PathProbe { exists: true, canonical: Some(parts(items)) }
}

#[test]
fn the_vault_directory_is_vaults_under_the_data_directory() {
    let data = parts(&["/", "home", "u", ".local", "share", "peka"]);
    let current = parts(&["/", "tmp"]);
    assert_eq!(
        resolve_vault_directory(Some(data.clone()), Some(current.clone())),
        Ok(parts(&["/", "home", "u", ".local", "share", "peka", "vaults"]))
    );
    assert_eq!(resolve_vault_directory(Some(data), None), Ok(parts(&["/", "home", "u", ".local", "share", "peka", "vaults"])));
    assert_eq!(resolve_vault_directory(None, Some(current)), Ok(parts(&["/", "tmp", "vaults"])));
    let err = resolve_vault_directory(None, None).unwrap_err();
    assert_eq!(err, VaultError::NoVaultDirectory);
    assert_eq!(err.class(), ErrorClass::Io);
}

#[test]
fn vault_files_end_in_peka_after_a_name() {
    assert!(is_vault_file_name("a.peka"));
    assert!(is_vault_file_name("My_Vault.peka"));
    assert!(is_vault_file_name("x.tar.peka"));
    assert!(is_vault_file_name("..peka"));
    assert!(!is_vault_file_name(".peka"));
    assert!(!is_vault_file_name("peka"));
    assert!(!is_vault_file_name("a.PEKA"));
    assert!(!is_vault_file_name("a.peka "));
    assert!(!is_vault_file_name("a.peka.bak"));
    assert!(!is_vault_file_name("a_peka"));
    assert!(!is_vault_file_name(""));
    assert!(is_vault_file_name("é.peka"));
}

#[test]
fn below_means_whole_components_and_at_least_one_more() {
    let dir = parts(&["/", "data", "vaults"]);
    assert!(is_below(&dir, &parts(&["/", "data", "vaults", "a.peka"])));
    assert!(is_below(&dir, &parts(&["/", "data", "vaults", "sub", "a.peka"])));
    assert!(!is_below(&dir, &parts(&["/", "data", "vaults"])));
    assert!(!is_below(&dir, &parts(&["/", "data", "vaults2", "a.peka"])));
    assert!(!is_below(&dir, &parts(&["/", "data"])));
    assert!(!is_below(&dir, &parts(&["/", "etc", "passwd.peka"])));
    assert!(!is_below(&dir, &parts(&[])));
    assert!(is_below(&parts(&[]), &parts(&["a.peka"])));
}

#[test]
fn deletion_is_decided_in_order() {
    let dir = parts(&["/", "data", "vaults"]);
    let inside = found(&["/", "data", "vaults", "a.peka"]);
    assert_eq!(delete_vault_inner("a.peka", &inside, Some(&dir)), Ok(()));

    let missing = PathProbe { exists: false, canonical: None };
    let err = delete_vault_inner("  ", &missing, Some(&dir)).unwrap_err();
    assert_eq!(err, VaultError::VaultPathRequired);
    assert_eq!(err.class(), ErrorClass::Validation);
    assert_eq!(delete_vault_inner("  ", &inside, Some(&dir)), Err(VaultError::VaultPathRequired));

    let err = delete_vault_inner("gone.peka", &missing, Some(&dir)).unwrap_err();
    assert_eq!(err, VaultError::VaultFileNotFound);
    assert_eq!(err.class(), ErrorClass::NotFound);

    let unresolved = PathProbe { exists: true, canonical: None };
    let err = delete_vault_inner("a.peka", &unresolved, Some(&dir)).unwrap_err();
    assert_eq!(err, VaultError::UnresolvablePath);
    assert_eq!(err.class(), ErrorClass::PathSafety);

    assert_eq!(delete_vault_inner("a.peka", &inside, None), Err(VaultError::NoVaultDirectory));

    let outside = found(&["/", "etc", "passwd.peka"]);
    let err = delete_vault_inner("../../etc/passwd.peka", &outside, Some(&dir)).unwrap_err();
    assert_eq!(err, VaultError::OutsideVaultDirectory);
    assert_eq!(err.class(), ErrorClass::PathSafety);

    let other = found(&["/", "data", "vaults", "notes.txt"]);
    let err = delete_vault_inner("notes.txt", &other, Some(&dir)).unwrap_err();
    assert_eq!(err, VaultError::NotAVaultFile);
    assert_eq!(err.class(), ErrorClass::PathSafety);

    let outside_and_other = found(&["/", "etc", "passwd"]);
    assert_eq!(delete_vault_inner("x", &outside_and_other, Some(&dir)), Err(VaultError::OutsideVaultDirectory));

    let the_directory = found(&["/", "data", "vaults"]);
    assert_eq!(delete_vault_inner("x", &the_directory, Some(&dir)), Err(VaultError::OutsideVaultDirectory));
    assert_eq!(check_target(&inside, Some(&dir)), Ok(()));
}

#[test]
fn export_is_decided_in_order() {
    let dir = parts(&["/", "data", "vaults"]);
    let inside = found(&["/", "data", "vaults", "a.peka"]);
    assert_eq!(export_vault_file_inner("a.peka", "/tmp/out.peka", &inside, Some(&dir)), Ok(()));
    assert_eq!(export_vault_file_inner(" ", "/tmp/out.peka", &inside, Some(&dir)), Err(VaultError::SourcePathRequired));
    assert_eq!(export_vault_file_inner("a.peka", "\t", &inside, Some(&dir)), Err(VaultError::DestinationPathRequired));
    assert_eq!(export_vault_file_inner(" ", " ", &inside, Some(&dir)), Err(VaultError::SourcePathRequired));
    let missing = PathProbe { exists: false, canonical: None };
    assert_eq!(export_vault_file_inner("a.peka", "o", &missing, Some(&dir)), Err(VaultError::VaultFileNotFound));
    let unresolved = PathProbe { exists: true, canonical: None };
    let err = export_vault_file_inner("a.peka", "o", &unresolved, Some(&dir)).unwrap_err();
    assert_eq!(err, VaultError::UnresolvableSourcePath);
    assert_eq!(err.class(), ErrorClass::PathSafety);
    let outside = found(&["/", "etc", "passwd.peka"]);
    assert_eq!(export_vault_file_inner("../../etc/passwd.peka", "o", &outside, Some(&dir)), Err(VaultError::OutsideVaultDirectory));
    let other = found(&["/", "data", "vaults", "notes.txt"]);
    assert_eq!(export_vault_file_inner("notes.txt", "o", &other, Some(&dir)), Err(VaultError::NotAVaultFile));
}

fn envelope(name: &str) -> String {
    format!(
        "{{\"version\":1,\"vaultName\":\"{}\",\"kdf\":{{\"algorithm\":\"Argon2id\",\"memoryKib\":64,\"timeCost\":1,\"parallelism\":1,\"hashLength\":32,\"saltLength\":16}},\"salt\":\"AAAA\",\"nonce\":\"AAAA\",\"ciphertext\":\"not even base64\"}}",
        name
    )
}

fn entry(path: &str, file_name: &str, is_file: bool, content: Option<&str>) -> DirectoryEntry {
    DirectoryEntry {
        path: path.to_string(),
        file_name: file_name.to_string(),
        is_file,
        content: content.map(|s| s.to_string()),
    }
}

#[test]
fn listing_passes_over_what_is_no_vault() {
    let entries = vec![
        entry("/v/good.peka", "good.peka", true, Some(&envelope("Good"))),
        entry("/v/garbage.peka", "garbage.peka", true, Some("garbage")),
    ];
    assert_eq!(
        list_vaults_inner(&entries),
        vec![VaultSummary { path: "/v/good.peka".to_string(), vault_name: "Good".to_string() }]
    );
}

#[test]
fn listing_keeps_the_order_and_reads_envelopes_only() {
    let entries = vec![
        entry("/v/b.peka", "b.peka", true, Some(&envelope("B"))),
        entry("/v/dir.peka", "dir.peka", false, Some(&envelope("Dir"))),
        entry("/v/unread.peka", "unread.peka", true, None),
        entry("/v/a.txt", "a.txt", true, Some(&envelope("Text"))),
        entry("/v/empty.peka", "empty.peka", true, Some("")),
        entry("/v/array.peka", "array.peka", true, Some("[1,2,3]")),
        entry("/v/a.peka", "a.peka", true, Some(&envelope("A"))),
    ];
    assert_eq!(
        list_vaults_inner(&entries),
        vec![
            VaultSummary { path: "/v/b.peka".to_string(), vault_name: "B".to_string() },
            VaultSummary { path: "/v/a.peka".to_string(), vault_name: "A".to_string() },
        ]
    );
    assert_eq!(list_vaults_inner(&Vec::new()), Vec::new());
}
