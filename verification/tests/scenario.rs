use peka_vault::errors::VaultError;
use peka_vault::operations::create_vault_inner;
use peka_vault::vault::open_vault_inner;

#[test]
fn a_new_vault_opens_with_its_password_only() {
    let vault = create_vault_inner("Personal".to_string(), "correct horse".to_string()).unwrap();
    assert_eq!(vault.file_name, "Personal.peka");
    let contents = open_vault_inner(&vault.text, "correct horse").unwrap();
    assert_eq!(contents.vault_name, "Personal");
    assert!(contents.folders.is_empty());
}

#[test]
fn a_new_vault_stays_shut_for_a_wrong_password() {
    let vault = create_vault_inner("Personal".to_string(), "correct horse".to_string()).unwrap();
    assert_eq!(open_vault_inner(&vault.text, "wrong password").unwrap_err(), VaultError::Authentication);
}
