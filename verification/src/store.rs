//! The changes a vault's payload can undergo: folders and credentials that
//! come and go. Each function here works on a decrypted payload in memory.

use vstd::prelude::*;

use crate::errors::VaultError;
use crate::model::credential_views;
use crate::model::folder_views;
use crate::model::payload_result_view;
use crate::model::text_option_view;
use crate::model::CredentialView;
use crate::model::FolderView;
use crate::model::StoredCredential;
use crate::model::StoredFolder;
use crate::model::StoredVault;
use crate::model::VaultView;

verus! {

/// The first position at or after `from` whose identifier is `id`.
pub open spec fn first_with_id(ids: Seq<Seq<char>>, id: Seq<char>, from: int) -> Option<int>
    decreases ids.len() - from,
{
    if from < 0 || from >= ids.len() {
        None
    } else if ids[from] == id {
        Some(from)
    } else {
        first_with_id(ids, id, from + 1)
    }
}

/// The position of the first folder with the given identifier.
pub open spec fn folder_position(folders: Seq<FolderView>, id: Seq<char>) -> Option<int> {
    first_with_id(folders.map_values(|f: FolderView| f.id), id, 0)
}

/// The position of the first credential with the given identifier.
pub open spec fn credential_position(credentials: Seq<CredentialView>, id: Seq<char>) -> Option<
    int,
> {
    first_with_id(credentials.map_values(|c: CredentialView| c.id), id, 0)
}

/// A position that `first_with_id` finds is within the sequence, holds the
/// identifier, and is the first to do so; where it finds none, there is none.
pub proof fn lemma_first_with_id(ids: Seq<Seq<char>>, id: Seq<char>, from: int)
    requires
        0 <= from,
    ensures
        match first_with_id(ids, id, from) {
            Some(i) => from <= i < ids.len() && ids[i] == id && forall|j: int|
                from <= j < i ==> ids[j] != id,
            None => forall|j: int| from <= j < ids.len() ==> ids[j] != id,
        },
    decreases ids.len() - from,
{
    if from < ids.len() && ids[from] != id {
        lemma_first_with_id(ids, id, from + 1);
    }
}

/// A folder that has just been made: empty, created and updated at the same
/// moment, and secure exactly when it has a PIN hash.
pub open spec fn new_folder(
    id: Seq<char>,
    name: Seq<char>,
    pin_hash: Option<Seq<char>>,
    now: Seq<char>,
) -> FolderView {
    FolderView {
        id,
        name,
        secure: pin_hash is Some,
        pin_hash,
        credentials: Seq::empty(),
        created_at: now,
        updated_at: now,
    }
}

/// A credential that has just been made: without notes, created and updated
/// at the same moment.
pub open spec fn new_credential(
    id: Seq<char>,
    title: Seq<char>,
    username: Seq<char>,
    password: Seq<char>,
    now: Seq<char>,
) -> CredentialView {
    CredentialView { id, title, username, password, notes: None, created_at: now, updated_at: now }
}

/// A payload with one more folder at its end.
pub open spec fn with_folder(payload: VaultView, folder: FolderView) -> VaultView {
    VaultView { vault_name: payload.vault_name, folders: payload.folders.push(folder) }
}

/// A payload without the first folder that has the given identifier.
pub open spec fn without_folder(payload: VaultView, folder_id: Seq<char>) -> Result<
    VaultView,
    VaultError,
> {
    match folder_position(payload.folders, folder_id) {
        None => Err(VaultError::FolderNotFound),
        Some(i) => Ok(
            VaultView { vault_name: payload.vault_name, folders: payload.folders.remove(i) },
        ),
    }
}

/// A folder with one more credential at its end, updated at `now`.
pub open spec fn folder_with_credential(
    folder: FolderView,
    credential: CredentialView,
    now: Seq<char>,
) -> FolderView {
    FolderView {
        id: folder.id,
        name: folder.name,
        secure: folder.secure,
        pin_hash: folder.pin_hash,
        credentials: folder.credentials.push(credential),
        created_at: folder.created_at,
        updated_at: now,
    }
}

/// A folder without the credential at a position, updated at `now`.
pub open spec fn folder_without_credential(folder: FolderView, position: int, now: Seq<char>) -> FolderView {
    FolderView {
        id: folder.id,
        name: folder.name,
        secure: folder.secure,
        pin_hash: folder.pin_hash,
        credentials: folder.credentials.remove(position),
        created_at: folder.created_at,
        updated_at: now,
    }
}

/// A payload in which the first folder with the given identifier has one
/// more credential and was updated at `now`.
pub open spec fn with_credential(
    payload: VaultView,
    folder_id: Seq<char>,
    credential: CredentialView,
    now: Seq<char>,
) -> Result<VaultView, VaultError> {
    match folder_position(payload.folders, folder_id) {
        None => Err(VaultError::FolderNotFound),
        Some(i) => Ok(
            VaultView {
                vault_name: payload.vault_name,
                folders: payload.folders.update(
                    i,
                    folder_with_credential(payload.folders[i], credential, now),
                ),
            },
        ),
    }
}

/// A payload in which the first folder with the given identifier has lost
/// its first credential with the given identifier and was updated at `now`.
pub open spec fn without_credential(
    payload: VaultView,
    folder_id: Seq<char>,
    credential_id: Seq<char>,
    now: Seq<char>,
) -> Result<VaultView, VaultError> {
    match folder_position(payload.folders, folder_id) {
        None => Err(VaultError::FolderNotFound),
        Some(i) => match credential_position(payload.folders[i].credentials, credential_id) {
            None => Err(VaultError::CredentialNotFound),
            Some(j) => Ok(
                VaultView {
                    vault_name: payload.vault_name,
                    folders: payload.folders.update(
                        i,
                        folder_without_credential(payload.folders[i], j, now),
                    ),
                },
            ),
        },
    }
}

/// Finds the first folder with the given identifier.
pub fn find_folder(folders: &Vec<StoredFolder>, folder_id: &str) -> (r: Option<usize>)
    ensures
        match r {
            Some(i) => folder_position(folder_views(folders@), folder_id@) == Some(i as int) && i
                < folders@.len(),
            None => folder_position(folder_views(folders@), folder_id@) is None,
        },
{
    let wanted: String = folder_id.to_owned();
    let ghost ids = folder_views(folders@).map_values(|f: FolderView| f.id);
    let mut i: usize = 0;
    while i < folders.len()
        invariant
            i <= folders.len(),
            wanted@ == folder_id@,
            ids == folder_views(folders@).map_values(|f: FolderView| f.id),
            first_with_id(ids, folder_id@, 0) == first_with_id(ids, folder_id@, i as int),
        decreases folders.len() - i,
    {
        if folders[i].id == wanted {
            return Some(i);
        }
        i = i + 1;
    }
    None
}

/// Finds the first credential with the given identifier.
pub fn find_credential(credentials: &Vec<StoredCredential>, credential_id: &str) -> (r: Option<
    usize,
>)
    ensures
        match r {
            Some(i) => credential_position(credential_views(credentials@), credential_id@) == Some(
                i as int,
            ) && i < credentials@.len(),
            None => credential_position(credential_views(credentials@), credential_id@) is None,
        },
{
    let wanted: String = credential_id.to_owned();
    let ghost ids = credential_views(credentials@).map_values(|c: CredentialView| c.id);
    let mut i: usize = 0;
    while i < credentials.len()
        invariant
            i <= credentials.len(),
            wanted@ == credential_id@,
            ids == credential_views(credentials@).map_values(|c: CredentialView| c.id),
            first_with_id(ids, credential_id@, 0) == first_with_id(ids, credential_id@, i as int),
        decreases credentials.len() - i,
    {
        if credentials[i].id == wanted {
            return Some(i);
        }
        i = i + 1;
    }
    None
}

/// Appends a new, empty folder to a payload.
///
/// The folder is secure exactly when it is given a PIN hash, so a payload in
/// which that holds of every folder stays such a payload.
pub fn add_folder(
    payload: StoredVault,
    id: String,
    name: String,
    pin_hash: Option<String>,
    now: String,
) -> (r: StoredVault)
    ensures
        r@ == with_folder(payload@, new_folder(id@, name@, text_option_view(pin_hash), now@)),
        payload@.wf() ==> r@.wf(),
{
    let secure = pin_hash.is_some();
    let folder = StoredFolder {
        id,
        name,
        secure,
        pin_hash,
        credentials: Vec::new(),
        created_at: now.clone(),
        updated_at: now,
    };
    let mut folders = payload.folders;
    folders.push(folder);
    let r = StoredVault { vault_name: payload.vault_name, folders };
    proof {
        assert(folder@.credentials =~= Seq::empty());
        assert(r@.folders =~= payload@.folders.push(folder@));
    }
    r
}

/// Removes the first folder with the given identifier from a payload, with
/// all its credentials. Where there is none the error is `FolderNotFound`.
pub fn remove_folder(payload: StoredVault, folder_id: &str) -> (r: Result<StoredVault, VaultError>)
    ensures
        payload_result_view(r) == without_folder(payload@, folder_id@),
        payload@.wf() && r is Ok ==> r->Ok_0@.wf(),
{
    match find_folder(&payload.folders, folder_id) {
        None => Err(VaultError::FolderNotFound),
        Some(position) => {
            let mut folders = payload.folders;
            folders.remove(position);
            let r = StoredVault { vault_name: payload.vault_name, folders };
            proof {
                assert(r@.folders =~= payload@.folders.remove(position as int));
            }
            Ok(r)
        },
    }
}

/// Appends a new credential to the first folder with the given identifier
/// and marks the folder as updated. Where there is no such folder the error
/// is `FolderNotFound`.
pub fn add_credential(
    payload: StoredVault,
    folder_id: &str,
    id: String,
    title: String,
    username: String,
    password: String,
    now: String,
) -> (r: Result<StoredVault, VaultError>)
    ensures
        payload_result_view(r) == with_credential(
            payload@,
            folder_id@,
            new_credential(id@, title@, username@, password@, now@),
            now@,
        ),
        payload@.wf() && r is Ok ==> r->Ok_0@.wf(),
{
    match find_folder(&payload.folders, folder_id) {
        None => Err(VaultError::FolderNotFound),
        Some(position) => {
            let credential = StoredCredential {
                id,
                title,
                username,
                password,
                notes: None,
                created_at: now.clone(),
                updated_at: now.clone(),
            };
            let mut folders = payload.folders;
            let mut folder = folders.remove(position);
            let ghost before = folder@;
            folder.credentials.push(credential);
            folder.updated_at = now;
            proof {
                assert(folder@.credentials =~= before.credentials.push(credential@));
            }
            folders.insert(position, folder);
            let r = StoredVault { vault_name: payload.vault_name, folders };
            proof {
                assert(r@.folders =~= payload@.folders.update(
                    position as int,
                    folder_with_credential(before, credential@, now@),
                ));
            }
            Ok(r)
        },
    }
}

/// Removes the first credential with the given identifier from the first
/// folder with the given identifier and marks the folder as updated. The
/// error is `FolderNotFound` where there is no such folder, and
/// `CredentialNotFound` where the folder has no such credential.
pub fn remove_credential(
    payload: StoredVault,
    folder_id: &str,
    credential_id: &str,
    now: String,
) -> (r: Result<StoredVault, VaultError>)
    ensures
        payload_result_view(r) == without_credential(
            payload@,
            folder_id@,
            credential_id@,
            now@,
        ),
        payload@.wf() && r is Ok ==> r->Ok_0@.wf(),
{
    match find_folder(&payload.folders, folder_id) {
        None => Err(VaultError::FolderNotFound),
        Some(position) => {
            match find_credential(&payload.folders[position].credentials, credential_id) {
                None => Err(VaultError::CredentialNotFound),
                Some(index) => {
                    let mut folders = payload.folders;
                    let mut folder = folders.remove(position);
                    let ghost before = folder@;
                    folder.credentials.remove(index);
                    folder.updated_at = now;
                    proof {
                        assert(folder@.credentials =~= before.credentials.remove(index as int));
                    }
                    folders.insert(position, folder);
                    let r = StoredVault { vault_name: payload.vault_name, folders };
                    proof {
                        assert(r@.folders =~= payload@.folders.update(
                            position as int,
                            folder_without_credential(before, index as int, now@),
                        ));
                    }
                    Ok(r)
                },
            }
        },
    }
}

/// Every change keeps the folders well formed: in a payload whose folders
/// are each secure exactly when they carry a PIN hash, that still holds
/// after a folder was added or removed and after a credential was added or
/// removed.
pub proof fn lemma_changes_keep_folders_well_formed(
    payload: VaultView,
    id: Seq<char>,
    name: Seq<char>,
    pin_hash: Option<Seq<char>>,
    credential: CredentialView,
    now: Seq<char>,
)
    requires
        payload.wf(),
    ensures
        with_folder(payload, new_folder(id, name, pin_hash, now)).wf(),
        without_folder(payload, id) matches Ok(after) ==> after.wf(),
        with_credential(payload, id, credential, now) matches Ok(after) ==> after.wf(),
        without_credential(payload, id, credential.id, now) matches Ok(after) ==> after.wf(),
{
    lemma_first_with_id(payload.folders.map_values(|f: FolderView| f.id), id, 0);
}

/// Whether one payload comes from another by one change: a new folder, a
/// folder removed, a credential added or a credential removed.
pub open spec fn one_change(before: VaultView, after: VaultView) -> bool {
    ||| exists|id: Seq<char>, name: Seq<char>, pin_hash: Option<Seq<char>>, now: Seq<char>| #[trigger]
        with_folder(before, new_folder(id, name, pin_hash, now)) == after
    ||| exists|id: Seq<char>| #[trigger]
        without_folder(before, id) == Ok::<VaultView, VaultError>(after)
    ||| exists|folder_id: Seq<char>, credential: CredentialView, now: Seq<char>| #[trigger]
        with_credential(before, folder_id, credential, now) == Ok::<VaultView, VaultError>(after)
    ||| exists|folder_id: Seq<char>, credential_id: Seq<char>, now: Seq<char>| #[trigger]
        without_credential(before, folder_id, credential_id, now) == Ok::<VaultView, VaultError>(
            after,
        )
}

/// One change keeps the folders well formed.
pub proof fn lemma_one_change_keeps_folders_well_formed(before: VaultView, after: VaultView)
    requires
        before.wf(),
        one_change(before, after),
    ensures
        after.wf(),
{
    if exists|id: Seq<char>| #[trigger] without_folder(before, id) == Ok::<VaultView, VaultError>(after) {
        let id = choose|id: Seq<char>| #[trigger]
            without_folder(before, id) == Ok::<VaultView, VaultError>(after);
        lemma_first_with_id(before.folders.map_values(|f: FolderView| f.id), id, 0);
    }
    if exists|folder_id: Seq<char>, credential: CredentialView, now: Seq<char>| #[trigger]
        with_credential(before, folder_id, credential, now) == Ok::<VaultView, VaultError>(after) {
        let (folder_id, credential, now) = choose|
            folder_id: Seq<char>,
            credential: CredentialView,
            now: Seq<char>,
        | #[trigger]
            with_credential(before, folder_id, credential, now) == Ok::<VaultView, VaultError>(
                after,
            );
        lemma_first_with_id(before.folders.map_values(|f: FolderView| f.id), folder_id, 0);
    }
    if exists|folder_id: Seq<char>, credential_id: Seq<char>, now: Seq<char>| #[trigger]
        without_credential(before, folder_id, credential_id, now) == Ok::<VaultView, VaultError>(
            after,
        ) {
        let (folder_id, credential_id, now) = choose|
            folder_id: Seq<char>,
            credential_id: Seq<char>,
            now: Seq<char>,
        | #[trigger]
            without_credential(before, folder_id, credential_id, now) == Ok::<
                VaultView,
                VaultError,
            >(after);
        lemma_first_with_id(before.folders.map_values(|f: FolderView| f.id), folder_id, 0);
    }
}

/// Through any number of changes the folders stay well formed.
///
/// `payloads` are the payloads of one vault in the order they were written:
/// the first well formed, each later one a change of the one before it.
pub proof fn lemma_folders_stay_well_formed(payloads: Seq<VaultView>, n: int)
    requires
        0 <= n < payloads.len(),
        payloads[0].wf(),
        forall|i: int|
            0 <= i && i + 1 < payloads.len() ==> one_change(payloads[i], #[trigger] payloads[i + 1]),
    ensures
        payloads[n].wf(),
    decreases n,
{
    if n > 0 {
        lemma_folders_stay_well_formed(payloads, n - 1);
        assert(one_change(payloads[n - 1], payloads[(n - 1) + 1]));
        lemma_one_change_keeps_folders_well_formed(payloads[n - 1], payloads[n]);
    }
}

} // verus!
