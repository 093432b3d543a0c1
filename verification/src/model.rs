//! The data a vault holds: the envelope on disk, the payload inside it and
//! the redacted contents handed to callers.

use vstd::prelude::*;

use crate::errors::VaultError;

verus! {

/// The cost parameters of the key derivation, as recorded in a vault file.
#[derive(Debug, PartialEq, Eq)]
pub struct KdfParams {
    pub algorithm: String,
    pub memory_kib: u32,
    pub time_cost: u32,
    pub parallelism: u32,
    pub hash_length: u32,
    pub salt_length: u32,
}

pub struct KdfParamsView {
    pub algorithm: Seq<char>,
    pub memory_kib: u32,
    pub time_cost: u32,
    pub parallelism: u32,
    pub hash_length: u32,
    pub salt_length: u32,
}

impl View for KdfParams {
    type V = KdfParamsView;

    open spec fn view(&self) -> KdfParamsView {
        KdfParamsView {
            algorithm: self.algorithm@,
            memory_kib: self.memory_kib,
            time_cost: self.time_cost,
            parallelism: self.parallelism,
            hash_length: self.hash_length,
            salt_length: self.salt_length,
        }
    }
}

impl Clone for KdfParams {
    fn clone(&self) -> (r: Self)
        ensures
            r@ == self@,
    {
        KdfParams {
            algorithm: self.algorithm.clone(),
            memory_kib: self.memory_kib,
            time_cost: self.time_cost,
            parallelism: self.parallelism,
            hash_length: self.hash_length,
            salt_length: self.salt_length,
        }
    }
}

/// The envelope: one vault file, with everything needed to decrypt it except
/// the master password. Salt, nonce and ciphertext are base64 text.
#[derive(Debug, PartialEq, Eq)]
pub struct VaultFile {
    pub version: u8,
    pub vault_name: String,
    pub kdf: KdfParams,
    pub salt: String,
    pub nonce: String,
    pub ciphertext: String,
}

pub struct VaultFileView {
    pub version: u8,
    pub vault_name: Seq<char>,
    pub kdf: KdfParamsView,
    pub salt: Seq<char>,
    pub nonce: Seq<char>,
    pub ciphertext: Seq<char>,
}

impl View for VaultFile {
    type V = VaultFileView;

    open spec fn view(&self) -> VaultFileView {
        VaultFileView {
            version: self.version,
            vault_name: self.vault_name@,
            kdf: self.kdf@,
            salt: self.salt@,
            nonce: self.nonce@,
            ciphertext: self.ciphertext@,
        }
    }
}

impl Clone for VaultFile {
    fn clone(&self) -> (r: Self)
        ensures
            r@ == self@,
    {
        VaultFile {
            version: self.version,
            vault_name: self.vault_name.clone(),
            kdf: self.kdf.clone(),
            salt: self.salt.clone(),
            nonce: self.nonce.clone(),
            ciphertext: self.ciphertext.clone(),
        }
    }
}

/// The view of an optional text.
pub open spec fn text_option_view(text: Option<String>) -> Option<Seq<char>> {
    match text {
        Some(s) => Some(s@),
        None => None,
    }
}

/// A copy of an optional text.
pub fn clone_text_option(text: &Option<String>) -> (r: Option<String>)
    ensures
        text_option_view(r) == text_option_view(*text),
{
    match text {
        Some(s) => Some(s.clone()),
        None => None,
    }
}

/// One login, as stored inside the encrypted payload.
#[derive(Debug, PartialEq, Eq)]
pub struct StoredCredential {
    pub id: String,
    pub title: String,
    pub username: String,
    pub password: String,
    pub notes: Option<String>,
    pub created_at: String,
    pub updated_at: String,
}

pub struct CredentialView {
    pub id: Seq<char>,
    pub title: Seq<char>,
    pub username: Seq<char>,
    pub password: Seq<char>,
    pub notes: Option<Seq<char>>,
    pub created_at: Seq<char>,
    pub updated_at: Seq<char>,
}

impl View for StoredCredential {
    type V = CredentialView;

    open spec fn view(&self) -> CredentialView {
        CredentialView {
            id: self.id@,
            title: self.title@,
            username: self.username@,
            password: self.password@,
            notes: text_option_view(self.notes),
            created_at: self.created_at@,
            updated_at: self.updated_at@,
        }
    }
}

impl Clone for StoredCredential {
    fn clone(&self) -> (r: Self)
        ensures
            r@ == self@,
    {
        StoredCredential {
            id: self.id.clone(),
            title: self.title.clone(),
            username: self.username.clone(),
            password: self.password.clone(),
            notes: clone_text_option(&self.notes),
            created_at: self.created_at.clone(),
            updated_at: self.updated_at.clone(),
        }
    }
}

/// The views of a sequence of stored credentials.
pub open spec fn credential_views(credentials: Seq<StoredCredential>) -> Seq<CredentialView> {
    credentials.map_values(|c: StoredCredential| c@)
}

/// A folder of credentials, as stored inside the encrypted payload.
#[derive(Debug, PartialEq, Eq)]
pub struct StoredFolder {
    pub id: String,
    pub name: String,
    pub secure: bool,
    pub pin_hash: Option<String>,
    pub credentials: Vec<StoredCredential>,
    pub created_at: String,
    pub updated_at: String,
}

pub struct FolderView {
    pub id: Seq<char>,
    pub name: Seq<char>,
    pub secure: bool,
    pub pin_hash: Option<Seq<char>>,
    pub credentials: Seq<CredentialView>,
    pub created_at: Seq<char>,
    pub updated_at: Seq<char>,
}

impl FolderView {
    /// A folder is secure exactly when it carries a PIN hash.
    pub open spec fn wf(self) -> bool {
        self.secure == self.pin_hash.is_some()
    }
}

impl View for StoredFolder {
    type V = FolderView;

    open spec fn view(&self) -> FolderView {
        FolderView {
            id: self.id@,
            name: self.name@,
            secure: self.secure,
            pin_hash: text_option_view(self.pin_hash),
            credentials: credential_views(self.credentials@),
            created_at: self.created_at@,
            updated_at: self.updated_at@,
        }
    }
}

impl Clone for StoredFolder {
    fn clone(&self) -> (r: Self)
        ensures
            r@ == self@,
    {
        let mut credentials: Vec<StoredCredential> = Vec::new();
        let mut i: usize = 0;
        while i < self.credentials.len()
            invariant
                i <= self.credentials.len(),
                credentials@.len() == i,
                forall|j: int| 0 <= j < i ==> (#[trigger] credentials@[j])@ == self.credentials@[j]@,
            decreases self.credentials.len() - i,
        {
            credentials.push(self.credentials[i].clone());
            i = i + 1;
        }
        assert(credential_views(credentials@) =~= credential_views(self.credentials@));
        StoredFolder {
            id: self.id.clone(),
            name: self.name.clone(),
            secure: self.secure,
            pin_hash: clone_text_option(&self.pin_hash),
            credentials,
            created_at: self.created_at.clone(),
            updated_at: self.updated_at.clone(),
        }
    }
}

/// The views of a sequence of stored folders.
pub open spec fn folder_views(folders: Seq<StoredFolder>) -> Seq<FolderView> {
    folders.map_values(|f: StoredFolder| f@)
}

/// The decrypted content of a vault. It lives in memory for the length of one
/// operation only.
#[derive(Debug, PartialEq, Eq)]
pub struct StoredVault {
    pub vault_name: String,
    pub folders: Vec<StoredFolder>,
}

pub struct VaultView {
    pub vault_name: Seq<char>,
    pub folders: Seq<FolderView>,
}

impl VaultView {
    /// Every folder of the vault is secure exactly when it carries a PIN hash.
    pub open spec fn wf(self) -> bool {
        forall|i: int| 0 <= i < self.folders.len() ==> (#[trigger] self.folders[i]).wf()
    }
}

impl View for StoredVault {
    type V = VaultView;

    open spec fn view(&self) -> VaultView {
        VaultView { vault_name: self.vault_name@, folders: folder_views(self.folders@) }
    }
}

impl Clone for StoredVault {
    fn clone(&self) -> (r: Self)
        ensures
            r@ == self@,
    {
        let mut folders: Vec<StoredFolder> = Vec::new();
        let mut i: usize = 0;
        while i < self.folders.len()
            invariant
                i <= self.folders.len(),
                folders@.len() == i,
                forall|j: int| 0 <= j < i ==> (#[trigger] folders@[j])@ == self.folders@[j]@,
            decreases self.folders.len() - i,
        {
            folders.push(self.folders[i].clone());
            i = i + 1;
        }
        assert(folder_views(folders@) =~= folder_views(self.folders@));
        StoredVault { vault_name: self.vault_name.clone(), folders }
    }
}

/// One login, as handed to callers.
#[derive(Debug, PartialEq, Eq)]
pub struct VaultCredential {
    pub id: String,
    pub title: String,
    pub username: String,
    pub password: String,
    pub notes: Option<String>,
    pub created_at: String,
    pub updated_at: String,
}

impl View for VaultCredential {
    type V = CredentialView;

    open spec fn view(&self) -> CredentialView {
        CredentialView {
            id: self.id@,
            title: self.title@,
            username: self.username@,
            password: self.password@,
            notes: text_option_view(self.notes),
            created_at: self.created_at@,
            updated_at: self.updated_at@,
        }
    }
}

/// A folder as handed to callers: the stored folder without its PIN hash.
#[derive(Debug, PartialEq, Eq)]
pub struct VaultFolderPublic {
    pub id: String,
    pub name: String,
    pub secure: bool,
    pub credentials: Vec<VaultCredential>,
    pub created_at: String,
    pub updated_at: String,
}

pub struct PublicFolderView {
    pub id: Seq<char>,
    pub name: Seq<char>,
    pub secure: bool,
    pub credentials: Seq<CredentialView>,
    pub created_at: Seq<char>,
    pub updated_at: Seq<char>,
}

impl View for VaultFolderPublic {
    type V = PublicFolderView;

    open spec fn view(&self) -> PublicFolderView {
        PublicFolderView {
            id: self.id@,
            name: self.name@,
            secure: self.secure,
            credentials: self.credentials@.map_values(|c: VaultCredential| c@),
            created_at: self.created_at@,
            updated_at: self.updated_at@,
        }
    }
}

/// The contents of a vault as handed to callers.
#[derive(Debug, PartialEq, Eq)]
pub struct VaultContents {
    pub vault_name: String,
    pub folders: Vec<VaultFolderPublic>,
}

pub struct ContentsView {
    pub vault_name: Seq<char>,
    pub folders: Seq<PublicFolderView>,
}

impl View for VaultContents {
    type V = ContentsView;

    open spec fn view(&self) -> ContentsView {
        ContentsView {
            vault_name: self.vault_name@,
            folders: self.folders@.map_values(|f: VaultFolderPublic| f@),
        }
    }
}

/// A folder without its PIN hash.
pub open spec fn public_folder(folder: FolderView) -> PublicFolderView {
    PublicFolderView {
        id: folder.id,
        name: folder.name,
        secure: folder.secure,
        credentials: folder.credentials,
        created_at: folder.created_at,
        updated_at: folder.updated_at,
    }
}

/// A payload without the PIN hashes of its folders.
pub open spec fn public_contents(payload: VaultView) -> ContentsView {
    ContentsView {
        vault_name: payload.vault_name,
        folders: payload.folders.map_values(|f: FolderView| public_folder(f)),
    }
}

fn credentials_to_public(credentials: &Vec<StoredCredential>) -> (r: Vec<VaultCredential>)
    ensures
        r@.map_values(|c: VaultCredential| c@) == credential_views(credentials@),
{
    let mut out: Vec<VaultCredential> = Vec::new();
    let mut i: usize = 0;
    while i < credentials.len()
        invariant
            i <= credentials.len(),
            out@.len() == i,
            forall|j: int| 0 <= j < i ==> (#[trigger] out@[j])@ == credentials@[j]@,
        decreases credentials.len() - i,
    {
        let cred = &credentials[i];
        out.push(
            VaultCredential {
                id: cred.id.clone(),
                title: cred.title.clone(),
                username: cred.username.clone(),
                password: cred.password.clone(),
                notes: clone_text_option(&cred.notes),
                created_at: cred.created_at.clone(),
                updated_at: cred.updated_at.clone(),
            },
        );
        i = i + 1;
    }
    out
}

/// The contents of a payload as handed to callers: every folder and
/// credential in order, with all fields but the PIN hashes.
pub fn payload_to_public(payload: &StoredVault) -> (r: VaultContents)
    ensures
        r@ == public_contents(payload@),
{
    let mut folders: Vec<VaultFolderPublic> = Vec::new();
    let mut i: usize = 0;
    while i < payload.folders.len()
        invariant
            i <= payload.folders.len(),
            folders@.len() == i,
            forall|j: int| 0 <= j < i ==> (#[trigger] folders@[j])@ == public_folder(payload.folders@[j]@),
        decreases payload.folders.len() - i,
    {
        let folder = &payload.folders[i];
        folders.push(
            VaultFolderPublic {
                id: folder.id.clone(),
                name: folder.name.clone(),
                secure: folder.secure,
                credentials: credentials_to_public(&folder.credentials),
                created_at: folder.created_at.clone(),
                updated_at: folder.updated_at.clone(),
            },
        );
        i = i + 1;
    }
    let r = VaultContents { vault_name: payload.vault_name.clone(), folders };
    assert(r@.folders =~= public_contents(payload@).folders);
    r
}

/// The view of a text or the error in its place.
pub open spec fn text_result_view(r: Result<String, VaultError>) -> Result<Seq<char>, VaultError> {
    match r {
        Ok(text) => Ok(text@),
        Err(e) => Err(e),
    }
}

/// The view of an envelope or the error in its place.
pub open spec fn file_result_view(r: Result<VaultFile, VaultError>) -> Result<
    VaultFileView,
    VaultError,
> {
    match r {
        Ok(file) => Ok(file@),
        Err(e) => Err(e),
    }
}

/// The view of a payload or the error in its place.
pub open spec fn payload_result_view(r: Result<StoredVault, VaultError>) -> Result<
    VaultView,
    VaultError,
> {
    match r {
        Ok(payload) => Ok(payload@),
        Err(e) => Err(e),
    }
}

/// The view of contents or the error in their place.
pub open spec fn contents_result_view(r: Result<VaultContents, VaultError>) -> Result<
    ContentsView,
    VaultError,
> {
    match r {
        Ok(contents) => Ok(contents@),
        Err(e) => Err(e),
    }
}

} // verus!
