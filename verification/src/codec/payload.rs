//! The payload: the tree of a vault's decrypted content.

use vstd::prelude::*;

use crate::codec::find_member;
use crate::codec::flag_member;
use crate::codec::json_option_view;
use crate::codec::member;
use crate::codec::member_from;
use crate::codec::optional_text_member;
use crate::codec::text_member;
use crate::codec::tree_flag;
use crate::codec::tree_optional_text;
use crate::codec::tree_text;
use crate::errors::VaultError;
use crate::json::items_view;
use crate::json::lemma_array_view;
use crate::json::lemma_object_view;
use crate::json::lemma_plain_deeper;
use crate::json::members_view;
use crate::json::Json;
use crate::json::JsonTree;
use crate::json::MAX_NESTING;
use crate::model::credential_views;
use crate::model::folder_views;
use crate::model::CredentialView;
use crate::model::FolderView;
use crate::model::StoredCredential;
use crate::model::StoredFolder;
use crate::model::StoredVault;
use crate::model::VaultView;

verus! {

/// The tree of a credential: an object with the members `id`, `title`,
/// `username`, `password`, `notes` where there are any, `createdAt` and
/// `updatedAt`.
pub open spec fn credential_tree(c: CredentialView) -> JsonTree {
    match c.notes {
        Some(notes) => JsonTree::Object(
            seq![
                ("id"@, JsonTree::String(c.id)),
                ("title"@, JsonTree::String(c.title)),
                ("username"@, JsonTree::String(c.username)),
                ("password"@, JsonTree::String(c.password)),
                ("notes"@, JsonTree::String(notes)),
                ("createdAt"@, JsonTree::String(c.created_at)),
                ("updatedAt"@, JsonTree::String(c.updated_at)),
            ],
        ),
        None => JsonTree::Object(
            seq![
                ("id"@, JsonTree::String(c.id)),
                ("title"@, JsonTree::String(c.title)),
                ("username"@, JsonTree::String(c.username)),
                ("password"@, JsonTree::String(c.password)),
                ("createdAt"@, JsonTree::String(c.created_at)),
                ("updatedAt"@, JsonTree::String(c.updated_at)),
            ],
        ),
    }
}

/// The credential that a tree stands for, or `None` where it is not an
/// object with the members of a credential in their types. `notes` may be
/// absent or null. Members with other keys are passed over.
pub open spec fn credential_of_tree(tree: JsonTree) -> Option<CredentialView> {
    match tree {
        JsonTree::Object(m) => {
            let id = tree_text(member(m, "id"@));
            let title = tree_text(member(m, "title"@));
            let username = tree_text(member(m, "username"@));
            let password = tree_text(member(m, "password"@));
            let notes = tree_optional_text(member(m, "notes"@));
            let created_at = tree_text(member(m, "createdAt"@));
            let updated_at = tree_text(member(m, "updatedAt"@));
            if id is Some && title is Some && username is Some && password is Some && notes is Some
                && created_at is Some && updated_at is Some {
                Some(
                    CredentialView {
                        id: id->0,
                        title: title->0,
                        username: username->0,
                        password: password->0,
                        notes: notes->0,
                        created_at: created_at->0,
                        updated_at: updated_at->0,
                    },
                )
            } else {
                None
            }
        },
        _ => None,
    }
}

/// The tree of a list of credentials: the array of their trees.
pub open spec fn credentials_tree(credentials: Seq<CredentialView>) -> JsonTree {
    JsonTree::Array(Seq::new(credentials.len(), |i: int| credential_tree(credentials[i])))
}

/// The credentials that a member stands for, or `None` where it is not an
/// array of credentials.
pub open spec fn credentials_of_tree(tree: Option<JsonTree>) -> Option<Seq<CredentialView>> {
    match tree {
        Some(JsonTree::Array(items)) => if forall|i: int|
            0 <= i < items.len() ==> (#[trigger] credential_of_tree(items[i])) is Some {
            Some(Seq::new(items.len(), |i: int| credential_of_tree(items[i])->0))
        } else {
            None
        },
        _ => None,
    }
}

/// The tree of a folder: an object with the members `id`, `name`, `secure`,
/// `pinHash` where there is one, `credentials`, `createdAt` and `updatedAt`.
pub open spec fn folder_tree(f: FolderView) -> JsonTree {
    match f.pin_hash {
        Some(pin_hash) => JsonTree::Object(
            seq![
                ("id"@, JsonTree::String(f.id)),
                ("name"@, JsonTree::String(f.name)),
                ("secure"@, JsonTree::Bool(f.secure)),
                ("pinHash"@, JsonTree::String(pin_hash)),
                ("credentials"@, credentials_tree(f.credentials)),
                ("createdAt"@, JsonTree::String(f.created_at)),
                ("updatedAt"@, JsonTree::String(f.updated_at)),
            ],
        ),
        None => JsonTree::Object(
            seq![
                ("id"@, JsonTree::String(f.id)),
                ("name"@, JsonTree::String(f.name)),
                ("secure"@, JsonTree::Bool(f.secure)),
                ("credentials"@, credentials_tree(f.credentials)),
                ("createdAt"@, JsonTree::String(f.created_at)),
                ("updatedAt"@, JsonTree::String(f.updated_at)),
            ],
        ),
    }
}

/// The folder that a tree stands for, or `None` where it is not an object
/// with the members of a folder in their types. `pinHash` may be absent or
/// null. Members with other keys are passed over.
pub open spec fn folder_of_tree(tree: JsonTree) -> Option<FolderView> {
    match tree {
        JsonTree::Object(m) => {
            let id = tree_text(member(m, "id"@));
            let name = tree_text(member(m, "name"@));
            let secure = tree_flag(member(m, "secure"@));
            let pin_hash = tree_optional_text(member(m, "pinHash"@));
            let credentials = credentials_of_tree(member(m, "credentials"@));
            let created_at = tree_text(member(m, "createdAt"@));
            let updated_at = tree_text(member(m, "updatedAt"@));
            if id is Some && name is Some && secure is Some && pin_hash is Some && credentials
                is Some && created_at is Some && updated_at is Some {
                Some(
                    FolderView {
                        id: id->0,
                        name: name->0,
                        secure: secure->0,
                        pin_hash: pin_hash->0,
                        credentials: credentials->0,
                        created_at: created_at->0,
                        updated_at: updated_at->0,
                    },
                )
            } else {
                None
            }
        },
        _ => None,
    }
}

/// The tree of a list of folders: the array of their trees.
pub open spec fn folders_tree(folders: Seq<FolderView>) -> JsonTree {
    JsonTree::Array(Seq::new(folders.len(), |i: int| folder_tree(folders[i])))
}

/// The folders that a member stands for, or `None` where it is not an array
/// of folders.
pub open spec fn folders_of_tree(tree: Option<JsonTree>) -> Option<Seq<FolderView>> {
    match tree {
        Some(JsonTree::Array(items)) => if forall|i: int|
            0 <= i < items.len() ==> (#[trigger] folder_of_tree(items[i])) is Some {
            Some(Seq::new(items.len(), |i: int| folder_of_tree(items[i])->0))
        } else {
            None
        },
        _ => None,
    }
}

/// The tree of a payload: an object with the members `vaultName` and
/// `folders`.
pub open spec fn payload_tree(payload: VaultView) -> JsonTree {
    JsonTree::Object(
        seq![
            ("vaultName"@, JsonTree::String(payload.vault_name)),
            ("folders"@, folders_tree(payload.folders)),
        ],
    )
}

/// The payload that a tree stands for, or `None` where it is not an object
/// with a vault name and a list of folders.
pub open spec fn payload_of_tree(tree: JsonTree) -> Option<VaultView> {
    match tree {
        JsonTree::Object(m) => {
            let vault_name = tree_text(member(m, "vaultName"@));
            let folders = folders_of_tree(member(m, "folders"@));
            if vault_name is Some && folders is Some {
                Some(VaultView { vault_name: vault_name->0, folders: folders->0 })
            } else {
                None
            }
        },
        _ => None,
    }
}

/// The keys of a credential differ from each other.
proof fn lemma_credential_keys()
    ensures
        "id"@ != "title"@,
        "id"@ != "username"@,
        "id"@ != "password"@,
        "id"@ != "notes"@,
        "id"@ != "createdAt"@,
        "id"@ != "updatedAt"@,
        "title"@ != "username"@,
        "title"@ != "password"@,
        "title"@ != "notes"@,
        "title"@ != "createdAt"@,
        "title"@ != "updatedAt"@,
        "username"@ != "password"@,
        "username"@ != "notes"@,
        "username"@ != "createdAt"@,
        "username"@ != "updatedAt"@,
        "password"@ != "notes"@,
        "password"@ != "createdAt"@,
        "password"@ != "updatedAt"@,
        "notes"@ != "createdAt"@,
        "notes"@ != "updatedAt"@,
        "createdAt"@ != "updatedAt"@,
{
    reveal_strlit("id");
    reveal_strlit("title");
    reveal_strlit("username");
    reveal_strlit("password");
    reveal_strlit("notes");
    reveal_strlit("createdAt");
    reveal_strlit("updatedAt");
    assert("createdAt"@.len() == 9 && "updatedAt"@.len() == 9);
    assert("title"@[0] != "notes"@[0]);
    assert("username"@[0] != "password"@[0]);
    assert("createdAt"@[0] != "updatedAt"@[0]);
}

/// The keys of a folder differ from each other.
proof fn lemma_folder_keys()
    ensures
        "id"@ != "name"@,
        "id"@ != "secure"@,
        "id"@ != "pinHash"@,
        "id"@ != "credentials"@,
        "id"@ != "createdAt"@,
        "id"@ != "updatedAt"@,
        "name"@ != "secure"@,
        "name"@ != "pinHash"@,
        "name"@ != "credentials"@,
        "name"@ != "createdAt"@,
        "name"@ != "updatedAt"@,
        "secure"@ != "pinHash"@,
        "secure"@ != "credentials"@,
        "secure"@ != "createdAt"@,
        "secure"@ != "updatedAt"@,
        "pinHash"@ != "credentials"@,
        "pinHash"@ != "createdAt"@,
        "pinHash"@ != "updatedAt"@,
        "credentials"@ != "createdAt"@,
        "credentials"@ != "updatedAt"@,
        "createdAt"@ != "updatedAt"@,
{
    reveal_strlit("id");
    reveal_strlit("name");
    reveal_strlit("secure");
    reveal_strlit("pinHash");
    reveal_strlit("credentials");
    reveal_strlit("createdAt");
    reveal_strlit("updatedAt");
    assert("id"@.len() == 2 && "name"@.len() == 4 && "secure"@.len() == 6);
    assert("pinHash"@.len() == 7 && "credentials"@.len() == 11);
    assert("createdAt"@[0] != "updatedAt"@[0]);
}

/// An index below seven is one of seven numbers.
proof fn lemma_seven_cases(i: int)
    requires
        0 <= i < 7,
    ensures
        i == 0 || i == 1 || i == 2 || i == 3 || i == 4 || i == 5 || i == 6,
{
}

/// Reading the tree of a credential gives the credential back, and the tree
/// can be written as it is.
pub proof fn lemma_credential_round_trip(c: CredentialView)
    ensures
        credential_of_tree(credential_tree(c)) == Some(c),
        credential_tree(c).plain(1),
{
    lemma_credential_keys();
    reveal_with_fuel(member_from, 8);
    let m = credential_tree(c)->Object_0;
    assert(JsonTree::distinct_keys(m)) by {
        assert forall|i: int, j: int| 0 <= i < j < m.len() implies (#[trigger] m[i]).0 != (
        #[trigger] m[j]).0 by {
            lemma_seven_cases(i);
            lemma_seven_cases(j);
        }
    }
    assert forall|i: int| 0 <= i < m.len() implies (#[trigger] m[i]).1.plain(0) by {
        lemma_seven_cases(i);
    }
}

/// Reading the tree of a list of credentials gives the list back, and the
/// tree can be written as it is.
pub proof fn lemma_credentials_round_trip(credentials: Seq<CredentialView>)
    ensures
        credentials_of_tree(Some(credentials_tree(credentials))) == Some(credentials),
        credentials_tree(credentials).plain(2),
{
    let items = credentials_tree(credentials)->Array_0;
    assert forall|i: int| 0 <= i < items.len() implies (#[trigger] credential_of_tree(items[i]))
        == Some(credentials[i]) && items[i].plain(1) by {
        lemma_credential_round_trip(credentials[i]);
    }
}

/// Reading the tree of a folder gives the folder back, and the tree can be
/// written as it is.
pub proof fn lemma_folder_round_trip(f: FolderView)
    ensures
        folder_of_tree(folder_tree(f)) == Some(f),
        folder_tree(f).plain(3),
{
    lemma_folder_keys();
    lemma_credentials_round_trip(f.credentials);
    reveal_with_fuel(member_from, 8);
    let m = folder_tree(f)->Object_0;
    assert(JsonTree::distinct_keys(m)) by {
        assert forall|i: int, j: int| 0 <= i < j < m.len() implies (#[trigger] m[i]).0 != (
        #[trigger] m[j]).0 by {
            lemma_seven_cases(i);
            lemma_seven_cases(j);
        }
    }
    assert forall|i: int| 0 <= i < m.len() implies (#[trigger] m[i]).1.plain(2) by {
        lemma_seven_cases(i);
    }
}

/// Reading the tree of a list of folders gives the list back, and the tree
/// can be written as it is.
pub proof fn lemma_folders_round_trip(folders: Seq<FolderView>)
    ensures
        folders_of_tree(Some(folders_tree(folders))) == Some(folders),
        folders_tree(folders).plain(4),
{
    let items = folders_tree(folders)->Array_0;
    assert forall|i: int| 0 <= i < items.len() implies (#[trigger] folder_of_tree(items[i]))
        == Some(folders[i]) && items[i].plain(3) by {
        lemma_folder_round_trip(folders[i]);
    }
}

/// Reading the tree of a payload gives the payload back, and the tree can be
/// written as it is.
pub proof fn lemma_payload_round_trip(payload: VaultView)
    ensures
        payload_of_tree(payload_tree(payload)) == Some(payload),
        payload_tree(payload).plain(MAX_NESTING as nat),
{
    reveal_strlit("vaultName");
    reveal_strlit("folders");
    assert("vaultName"@.len() == 9 && "folders"@.len() == 7);
    lemma_folders_round_trip(payload.folders);
    reveal_with_fuel(member_from, 4);
    let m = payload_tree(payload)->Object_0;
    assert(m[0].1.plain(4) && m[1].1.plain(4));
    lemma_plain_deeper(payload_tree(payload), 5, MAX_NESTING as nat);
}

/// Writes a credential as a tree.
pub fn credential_to_json(c: &StoredCredential) -> (tree: Json)
    ensures
        tree@ == credential_tree(c@),
{
    let mut members: Vec<(String, Json)> = Vec::new();
    members.push(("id".to_owned(), Json::String(c.id.clone())));
    members.push(("title".to_owned(), Json::String(c.title.clone())));
    members.push(("username".to_owned(), Json::String(c.username.clone())));
    members.push(("password".to_owned(), Json::String(c.password.clone())));
    match &c.notes {
        Some(notes) => {
            members.push(("notes".to_owned(), Json::String(notes.clone())));
        },
        None => {},
    }
    members.push(("createdAt".to_owned(), Json::String(c.created_at.clone())));
    members.push(("updatedAt".to_owned(), Json::String(c.updated_at.clone())));
    proof {
        lemma_object_view(members);
        assert(members_view(members@) =~= credential_tree(c@)->Object_0);
    }
    Json::Object(members)
}

/// Reads a credential from a tree.
pub fn credential_from_json(tree: &Json) -> (r: Option<StoredCredential>)
    ensures
        match r {
            Some(c) => credential_of_tree(tree@) == Some(c@),
            None => credential_of_tree(tree@) is None,
        },
{
    match tree {
        Json::Object(members) => {
            proof {
                lemma_object_view(*members);
            }
            let id = text_member(members, "id");
            let title = text_member(members, "title");
            let username = text_member(members, "username");
            let password = text_member(members, "password");
            let notes = optional_text_member(members, "notes");
            let created_at = text_member(members, "createdAt");
            let updated_at = text_member(members, "updatedAt");
            match (id, title, username, password, notes, created_at, updated_at) {
                (Some(i), Some(t), Some(u), Some(p), Some(n), Some(c), Some(d)) => Some(
                    StoredCredential {
                        id: i,
                        title: t,
                        username: u,
                        password: p,
                        notes: n,
                        created_at: c,
                        updated_at: d,
                    },
                ),
                _ => None,
            }
        },
        _ => None,
    }
}

/// Writes a list of credentials as an array.
pub fn credentials_to_json(credentials: &Vec<StoredCredential>) -> (tree: Json)
    ensures
        tree@ == credentials_tree(credential_views(credentials@)),
{
    let mut items: Vec<Json> = Vec::new();
    let mut i: usize = 0;
    while i < credentials.len()
        invariant
            i <= credentials.len(),
            items@.len() == i,
            forall|j: int| 0 <= j < i ==> (#[trigger] items@[j])@ == credential_tree(credentials@[j]@),
        decreases credentials.len() - i,
    {
        items.push(credential_to_json(&credentials[i]));
        i = i + 1;
    }
    proof {
        lemma_array_view(items);
        assert(items_view(items@) =~= credentials_tree(credential_views(credentials@))->Array_0);
    }
    Json::Array(items)
}

/// Reads a list of credentials from a member of a folder.
pub fn credentials_from_json(tree: Option<&Json>) -> (r: Option<Vec<StoredCredential>>)
    ensures
        match r {
            Some(credentials) => credentials_of_tree(json_option_view(tree)) == Some(
                credential_views(credentials@),
            ),
            None => credentials_of_tree(json_option_view(tree)) is None,
        },
{
    match tree {
        Some(Json::Array(items)) => {
            proof {
                lemma_array_view(*items);
            }
            let ghost trees = items_view(items@);
            let mut credentials: Vec<StoredCredential> = Vec::new();
            let mut i: usize = 0;
            while i < items.len()
                invariant
                    i <= items.len(),
                    trees == items_view(items@),
                    json_option_view(tree) == Some(JsonTree::Array(trees)),
                    credentials@.len() == i,
                    forall|j: int|
                        0 <= j < i ==> (#[trigger] credential_of_tree(trees[j])) == Some(
                            credentials@[j]@,
                        ),
                decreases items.len() - i,
            {
                match credential_from_json(&items[i]) {
                    Some(c) => {
                        credentials.push(c);
                    },
                    None => {
                        assert(credential_of_tree(trees[i as int]) is None);
                        return None;
                    },
                }
                i = i + 1;
            }
            Some(credentials)
        },
        _ => None,
    }
}

/// Writes a folder as a tree.
pub fn folder_to_json(f: &StoredFolder) -> (tree: Json)
    ensures
        tree@ == folder_tree(f@),
{
    let mut members: Vec<(String, Json)> = Vec::new();
    members.push(("id".to_owned(), Json::String(f.id.clone())));
    members.push(("name".to_owned(), Json::String(f.name.clone())));
    members.push(("secure".to_owned(), Json::Bool(f.secure)));
    match &f.pin_hash {
        Some(pin_hash) => {
            members.push(("pinHash".to_owned(), Json::String(pin_hash.clone())));
        },
        None => {},
    }
    members.push(("credentials".to_owned(), credentials_to_json(&f.credentials)));
    members.push(("createdAt".to_owned(), Json::String(f.created_at.clone())));
    members.push(("updatedAt".to_owned(), Json::String(f.updated_at.clone())));
    proof {
        lemma_object_view(members);
        assert(members_view(members@) =~= folder_tree(f@)->Object_0);
    }
    Json::Object(members)
}

/// Reads a folder from a tree.
pub fn folder_from_json(tree: &Json) -> (r: Option<StoredFolder>)
    ensures
        match r {
            Some(f) => folder_of_tree(tree@) == Some(f@),
            None => folder_of_tree(tree@) is None,
        },
{
    match tree {
        Json::Object(members) => {
            proof {
                lemma_object_view(*members);
            }
            let id = text_member(members, "id");
            let name = text_member(members, "name");
            let secure = flag_member(members, "secure");
            let pin_hash = optional_text_member(members, "pinHash");
            let credentials = credentials_from_json(find_member(members, "credentials"));
            let created_at = text_member(members, "createdAt");
            let updated_at = text_member(members, "updatedAt");
            match (id, name, secure, pin_hash, credentials, created_at, updated_at) {
                (Some(i), Some(n), Some(s), Some(p), Some(k), Some(c), Some(d)) => Some(
                    StoredFolder {
                        id: i,
                        name: n,
                        secure: s,
                        pin_hash: p,
                        credentials: k,
                        created_at: c,
                        updated_at: d,
                    },
                ),
                _ => None,
            }
        },
        _ => None,
    }
}

/// Writes a list of folders as an array.
pub fn folders_to_json(folders: &Vec<StoredFolder>) -> (tree: Json)
    ensures
        tree@ == folders_tree(folder_views(folders@)),
{
    let mut items: Vec<Json> = Vec::new();
    let mut i: usize = 0;
    while i < folders.len()
        invariant
            i <= folders.len(),
            items@.len() == i,
            forall|j: int| 0 <= j < i ==> (#[trigger] items@[j])@ == folder_tree(folders@[j]@),
        decreases folders.len() - i,
    {
        items.push(folder_to_json(&folders[i]));
        i = i + 1;
    }
    proof {
        lemma_array_view(items);
        assert(items_view(items@) =~= folders_tree(folder_views(folders@))->Array_0);
    }
    Json::Array(items)
}

/// Reads a list of folders from a member of a payload.
pub fn folders_from_json(tree: Option<&Json>) -> (r: Option<Vec<StoredFolder>>)
    ensures
        match r {
            Some(folders) => folders_of_tree(json_option_view(tree)) == Some(
                folder_views(folders@),
            ),
            None => folders_of_tree(json_option_view(tree)) is None,
        },
{
    match tree {
        Some(Json::Array(items)) => {
            proof {
                lemma_array_view(*items);
            }
            let ghost trees = items_view(items@);
            let mut folders: Vec<StoredFolder> = Vec::new();
            let mut i: usize = 0;
            while i < items.len()
                invariant
                    i <= items.len(),
                    trees == items_view(items@),
                    json_option_view(tree) == Some(JsonTree::Array(trees)),
                    folders@.len() == i,
                    forall|j: int|
                        0 <= j < i ==> (#[trigger] folder_of_tree(trees[j])) == Some(folders@[j]@),
                decreases items.len() - i,
            {
                match folder_from_json(&items[i]) {
                    Some(f) => {
                        folders.push(f);
                    },
                    None => {
                        assert(folder_of_tree(trees[i as int]) is None);
                        return None;
                    },
                }
                i = i + 1;
            }
            Some(folders)
        },
        _ => None,
    }
}

/// Writes a payload as a tree. The tree reads back as the same payload.
pub fn payload_to_json(payload: &StoredVault) -> (tree: Json)
    ensures
        tree@ == payload_tree(payload@),
        tree@.plain(MAX_NESTING as nat),
        payload_of_tree(tree@) == Some(payload@),
{
    let mut members: Vec<(String, Json)> = Vec::new();
    members.push(("vaultName".to_owned(), Json::String(payload.vault_name.clone())));
    members.push(("folders".to_owned(), folders_to_json(&payload.folders)));
    proof {
        lemma_object_view(members);
        assert(members_view(members@) =~= payload_tree(payload@)->Object_0);
        lemma_payload_round_trip(payload@);
    }
    Json::Object(members)
}

/// Reads a payload from a tree.
///
/// The tree must be an object with a string `vaultName` and an array
/// `folders` of folders, each with its credentials; anything else is
/// `MalformedPayload`.
pub fn payload_from_json(tree: &Json) -> (r: Result<StoredVault, VaultError>)
    ensures
        match r {
            Ok(payload) => payload_of_tree(tree@) == Some(payload@),
            Err(e) => e == VaultError::MalformedPayload && payload_of_tree(tree@) is None,
        },
{
    match tree {
        Json::Object(members) => {
            proof {
                lemma_object_view(*members);
            }
            let vault_name = text_member(members, "vaultName");
            let folders = folders_from_json(find_member(members, "folders"));
            match (vault_name, folders) {
                (Some(n), Some(f)) => Ok(StoredVault { vault_name: n, folders: f }),
                _ => Err(VaultError::MalformedPayload),
            }
        },
        _ => Err(VaultError::MalformedPayload),
    }
}

} // verus!
