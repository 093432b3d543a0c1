use peka_vault::errors::VaultError;
use peka_vault::model::{payload_to_public, StoredCredential, StoredFolder, StoredVault};
use peka_vault::operations::check_folder_pin;
use peka_vault::store::{
    add_credential, add_folder, find_credential, find_folder, remove_credential, remove_folder,
};

fn credential(id: &str) -> StoredCredential {
    StoredCredential {
        id: id.to_string(),
        title: format!("title {}", id),
        username: "u".to_string(),
        password: "p".to_string(),
        notes: None,
        created_at: "t0".to_string(),
        updated_at: "t0".to_string(),
    }
}

fn folder(id: &str, credentials: Vec<StoredCredential>) -> StoredFolder {
    StoredFolder {
        id: id.to_string(),
        name: format!("name {}", id),
        secure: false,
        pin_hash: None,
        credentials,
        created_at: "t0".to_string(),
        updated_at: "t0".to_string(),
    }
}

fn vault(folders: Vec<StoredFolder>) -> StoredVault {
    StoredVault { vault_name: "V".to_string(), folders }
}

#[test]
fn add_folder_appends_an_empty_folder() {
    let before = vault(vec![folder("a", vec![credential("1")])]);
    let after = add_folder(
        vault(vec![folder("a", vec![credential("1")])]),
        "b".to_string(),
        "B".to_string(),
        None,
        "t1".to_string(),
    );
    assert_eq!(after.vault_name, "V");
    assert_eq!(after.folders.len(), 2);
    assert_eq!(after.folders[0], before.folders[0]);
    assert_eq!(
        after.folders[1],
        StoredFolder {
            id: "b".to_string(),
            name: "B".to_string(),
            secure: false,
            pin_hash: None,
            credentials: vec![],
            created_at: "t1".to_string(),
            updated_at: "t1".to_string(),
        }
    );
    let after = add_folder(after, "c".to_string(), "C".to_string(), Some("hash".to_string()), "t2".to_string());
    assert!(after.folders[2].secure);
    assert_eq!(after.folders[2].pin_hash.as_deref(), Some("hash"));
    for f in &after.folders {
        assert_eq!(f.secure, f.pin_hash.is_some());
    }
}

#[test]
fn find_takes_the_first_match() {
    let folders = vec![folder("a", vec![]), folder("b", vec![]), folder("a", vec![])];
    assert_eq!(find_folder(&folders, "a"), Some(0));
    assert_eq!(find_folder(&folders, "b"), Some(1));
    assert_eq!(find_folder(&folders, "c"), None);
    assert_eq!(find_folder(&folders, ""), None);
    assert_eq!(find_folder(&Vec::new(), "a"), None);
    let credentials = vec![credential("1"), credential("2"), credential("2")];
    assert_eq!(find_credential(&credentials, "2"), Some(1));
    assert_eq!(find_credential(&credentials, "3"), None);
}

#[test]
fn remove_folder_takes_out_the_first_match() {
    let after = remove_folder(vault(vec![folder("a", vec![]), folder("b", vec![credential("1")]), folder("c", vec![])]), "b").unwrap();
    assert_eq!(after, vault(vec![folder("a", vec![]), folder("c", vec![])]));
    assert_eq!(remove_folder(vault(vec![folder("a", vec![])]), "b"), Err(VaultError::FolderNotFound));
    assert_eq!(remove_folder(vault(vec![]), "b"), Err(VaultError::FolderNotFound));
}

#[test]
fn add_credential_appends_and_stamps_the_folder() {
    let after = add_credential(
        vault(vec![folder("a", vec![]), folder("b", vec![credential("1")])]),
        "b",
        "2".to_string(),
        "Title".to_string(),
        "user".to_string(),
        "pass".to_string(),
        "t9".to_string(),
    )
    .unwrap();
    assert_eq!(after.folders[0], folder("a", vec![]));
    let b = &after.folders[1];
    assert_eq!(b.id, "b");
    assert_eq!(b.created_at, "t0");
    assert_eq!(b.updated_at, "t9");
    assert_eq!(b.credentials.len(), 2);
    assert_eq!(b.credentials[0], credential("1"));
    assert_eq!(
        b.credentials[1],
        StoredCredential {
            id: "2".to_string(),
            title: "Title".to_string(),
            username: "user".to_string(),
            password: "pass".to_string(),
            notes: None,
            created_at: "t9".to_string(),
            updated_at: "t9".to_string(),
        }
    );
    assert_eq!(
        add_credential(vault(vec![]), "b", "2".to_string(), "T".to_string(), "u".to_string(), "p".to_string(), "t".to_string()),
        Err(VaultError::FolderNotFound)
    );
}

#[test]
fn remove_credential_takes_out_the_first_match_and_stamps_the_folder() {
    let start = || vault(vec![folder("a", vec![credential("1")]), folder("b", vec![credential("1"), credential("2"), credential("3")])]);
    let after = remove_credential(start(), "b", "2", "t9".to_string()).unwrap();
    assert_eq!(after.folders[0], folder("a", vec![credential("1")]));
    assert_eq!(after.folders[1].credentials, vec![credential("1"), credential("3")]);
    assert_eq!(after.folders[1].updated_at, "t9");
    assert_eq!(after.folders[1].created_at, "t0");
    assert_eq!(remove_credential(start(), "z", "2", "t9".to_string()), Err(VaultError::FolderNotFound));
    assert_eq!(remove_credential(start(), "a", "2", "t9".to_string()), Err(VaultError::CredentialNotFound));
}

#[test]
fn the_public_view_drops_the_pin_hash_only() {
    let mut secure = folder("s", vec![credential("1")]);
    secure.secure = true;
    secure.pin_hash = Some("hash".to_string());
    let mut with_notes = credential("2");
    with_notes.notes = Some("n".to_string());
    let payload = vault(vec![folder("a", vec![with_notes]), secure]);
    let contents = payload_to_public(&payload);
    assert_eq!(contents.vault_name, "V");
    assert_eq!(contents.folders.len(), 2);
    assert_eq!(contents.folders[0].id, "a");
    assert_eq!(contents.folders[0].name, "name a");
    assert!(!contents.folders[0].secure);
    assert_eq!(contents.folders[0].credentials[0].id, "2");
    assert_eq!(contents.folders[0].credentials[0].title, "title 2");
    assert_eq!(contents.folders[0].credentials[0].notes.as_deref(), Some("n"));
    assert_eq!(contents.folders[0].created_at, "t0");
    assert!(contents.folders[1].secure);
    assert_eq!(contents.folders[1].credentials.len(), 1);
    assert_eq!(contents.folders[1].credentials[0].password, "p");
    assert_eq!(payload_to_public(&vault(vec![])).folders.len(), 0);
}

#[test]
fn a_folder_that_is_not_secure_is_open_to_every_pin() {
    let mut secure_without_hash = folder("broken", vec![]);
    secure_without_hash.secure = true;
    let mut unreadable = folder("unreadable", vec![]);
    unreadable.secure = true;
    unreadable.pin_hash = Some("garbage".to_string());
    let mut stale = folder("stale", vec![]);
    stale.pin_hash = Some("garbage".to_string());
    let payload = vault(vec![folder("open", vec![]), secure_without_hash, unreadable, stale]);
    assert_eq!(check_folder_pin(&payload, "open", "1234"), Ok(true));
    assert_eq!(check_folder_pin(&payload, "open", ""), Ok(true));
    assert_eq!(check_folder_pin(&payload, "stale", "whatever"), Ok(true));
    assert_eq!(check_folder_pin(&payload, "broken", "1234"), Err(VaultError::PinHashMissing));
    assert_eq!(check_folder_pin(&payload, "unreadable", "1234"), Err(VaultError::PinHashUnreadable));
    assert_eq!(check_folder_pin(&payload, "absent", "1234"), Err(VaultError::FolderNotFound));
}
