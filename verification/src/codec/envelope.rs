//! The envelope: the tree of a vault file.

use vstd::prelude::*;

use crate::codec::find_member;
use crate::codec::member;
use crate::codec::member_from;
use crate::codec::number_member;
use crate::codec::json_option_view;
use crate::codec::text_member;
use crate::codec::tree_number;
use crate::codec::tree_text;
use crate::errors::VaultError;
use crate::json::lemma_object_view;
use crate::json::lemma_plain_deeper;
use crate::json::members_view;
use crate::json::Json;
use crate::json::JsonTree;
use crate::json::MAX_NESTING;
use crate::model::KdfParams;
use crate::model::KdfParamsView;
use crate::model::VaultFile;
use crate::model::VaultFileView;

verus! {

/// The largest value of an unsigned 32-bit field.
pub const U32_LIMIT: u64 = 0xFFFF_FFFF;

/// The largest value of the version field.
pub const VERSION_LIMIT: u64 = 0xFF;

/// The tree of the key derivation parameters: an object with the members
/// `algorithm`, `memoryKib`, `timeCost`, `parallelism`, `hashLength` and
/// `saltLength`.
pub open spec fn kdf_tree(kdf: KdfParamsView) -> JsonTree {
    JsonTree::Object(
        seq![
            ("algorithm"@, JsonTree::String(kdf.algorithm)),
            ("memoryKib"@, JsonTree::Unsigned(kdf.memory_kib as u64)),
            ("timeCost"@, JsonTree::Unsigned(kdf.time_cost as u64)),
            ("parallelism"@, JsonTree::Unsigned(kdf.parallelism as u64)),
            ("hashLength"@, JsonTree::Unsigned(kdf.hash_length as u64)),
            ("saltLength"@, JsonTree::Unsigned(kdf.salt_length as u64)),
        ],
    )
}

/// The key derivation parameters that a tree stands for, or `None` where it
/// is not an object with the six members in their types. Members with other
/// keys are passed over.
pub open spec fn kdf_of_tree(tree: Option<JsonTree>) -> Option<KdfParamsView> {
    match tree {
        Some(JsonTree::Object(m)) => {
            let algorithm = tree_text(member(m, "algorithm"@));
            let memory_kib = tree_number(member(m, "memoryKib"@), U32_LIMIT);
            let time_cost = tree_number(member(m, "timeCost"@), U32_LIMIT);
            let parallelism = tree_number(member(m, "parallelism"@), U32_LIMIT);
            let hash_length = tree_number(member(m, "hashLength"@), U32_LIMIT);
            let salt_length = tree_number(member(m, "saltLength"@), U32_LIMIT);
            if algorithm is Some && memory_kib is Some && time_cost is Some && parallelism is Some
                && hash_length is Some && salt_length is Some {
                Some(
                    KdfParamsView {
                        algorithm: algorithm->0,
                        memory_kib: memory_kib->0 as u32,
                        time_cost: time_cost->0 as u32,
                        parallelism: parallelism->0 as u32,
                        hash_length: hash_length->0 as u32,
                        salt_length: salt_length->0 as u32,
                    },
                )
            } else {
                None
            }
        },
        _ => None,
    }
}

/// The tree of an envelope: an object with the members `version`,
/// `vaultName`, `kdf`, `salt`, `nonce` and `ciphertext`.
pub open spec fn envelope_tree(file: VaultFileView) -> JsonTree {
    JsonTree::Object(
        seq![
            ("version"@, JsonTree::Unsigned(file.version as u64)),
            ("vaultName"@, JsonTree::String(file.vault_name)),
            ("kdf"@, kdf_tree(file.kdf)),
            ("salt"@, JsonTree::String(file.salt)),
            ("nonce"@, JsonTree::String(file.nonce)),
            ("ciphertext"@, JsonTree::String(file.ciphertext)),
        ],
    )
}

/// The envelope that a tree stands for, or `None` where it is not an object
/// with the six members in their types. Members with other keys are passed
/// over.
pub open spec fn envelope_of_tree(tree: JsonTree) -> Option<VaultFileView> {
    match tree {
        JsonTree::Object(m) => {
            let version = tree_number(member(m, "version"@), VERSION_LIMIT);
            let vault_name = tree_text(member(m, "vaultName"@));
            let kdf = kdf_of_tree(member(m, "kdf"@));
            let salt = tree_text(member(m, "salt"@));
            let nonce = tree_text(member(m, "nonce"@));
            let ciphertext = tree_text(member(m, "ciphertext"@));
            if version is Some && vault_name is Some && kdf is Some && salt is Some && nonce is Some
                && ciphertext is Some {
                Some(
                    VaultFileView {
                        version: version->0 as u8,
                        vault_name: vault_name->0,
                        kdf: kdf->0,
                        salt: salt->0,
                        nonce: nonce->0,
                        ciphertext: ciphertext->0,
                    },
                )
            } else {
                None
            }
        },
        _ => None,
    }
}

/// The keys of the key derivation parameters differ from each other.
proof fn lemma_kdf_keys()
    ensures
        "algorithm"@ != "memoryKib"@,
        "algorithm"@ != "timeCost"@,
        "algorithm"@ != "parallelism"@,
        "algorithm"@ != "hashLength"@,
        "algorithm"@ != "saltLength"@,
        "memoryKib"@ != "timeCost"@,
        "memoryKib"@ != "parallelism"@,
        "memoryKib"@ != "hashLength"@,
        "memoryKib"@ != "saltLength"@,
        "timeCost"@ != "parallelism"@,
        "timeCost"@ != "hashLength"@,
        "timeCost"@ != "saltLength"@,
        "parallelism"@ != "hashLength"@,
        "parallelism"@ != "saltLength"@,
        "hashLength"@ != "saltLength"@,
{
    reveal_strlit("algorithm");
    reveal_strlit("memoryKib");
    reveal_strlit("timeCost");
    reveal_strlit("parallelism");
    reveal_strlit("hashLength");
    reveal_strlit("saltLength");
    assert("parallelism"@.len() == 11 && "hashLength"@.len() == 10 && "saltLength"@.len() == 10);
    assert("memoryKib"@[0] != "algorithm"@[0]);
    assert("saltLength"@[0] != "hashLength"@[0]);
}

/// The keys of the envelope differ from each other.
proof fn lemma_envelope_keys()
    ensures
        "version"@ != "vaultName"@,
        "version"@ != "kdf"@,
        "version"@ != "salt"@,
        "version"@ != "nonce"@,
        "version"@ != "ciphertext"@,
        "vaultName"@ != "kdf"@,
        "vaultName"@ != "salt"@,
        "vaultName"@ != "nonce"@,
        "vaultName"@ != "ciphertext"@,
        "kdf"@ != "salt"@,
        "kdf"@ != "nonce"@,
        "kdf"@ != "ciphertext"@,
        "salt"@ != "nonce"@,
        "salt"@ != "ciphertext"@,
        "nonce"@ != "ciphertext"@,
{
    reveal_strlit("version");
    reveal_strlit("vaultName");
    reveal_strlit("kdf");
    reveal_strlit("salt");
    reveal_strlit("nonce");
    reveal_strlit("ciphertext");
    assert("version"@.len() == 7 && "vaultName"@.len() == 9 && "kdf"@.len() == 3);
    assert("salt"@.len() == 4 && "nonce"@.len() == 5 && "ciphertext"@.len() == 10);
}

/// Reading the tree of key derivation parameters gives them back, and the
/// tree can be written as it is.
pub proof fn lemma_kdf_round_trip(kdf: KdfParamsView)
    ensures
        kdf_of_tree(Some(kdf_tree(kdf))) == Some(kdf),
        kdf_tree(kdf).plain(1),
{
    lemma_kdf_keys();
    reveal_with_fuel(member_from, 8);
    let m = kdf_tree(kdf)->Object_0;
    assert(JsonTree::distinct_keys(m)) by {
        assert forall|i: int, j: int| 0 <= i < j < m.len() implies (#[trigger] m[i]).0 != (
        #[trigger] m[j]).0 by {
            lemma_six_cases(i);
            lemma_six_cases(j);
        }
    }
    assert forall|i: int| 0 <= i < m.len() implies (#[trigger] m[i]).1.plain(0) by {
        lemma_six_cases(i);
    }
}

/// An index below six is one of six numbers.
proof fn lemma_six_cases(i: int)
    requires
        0 <= i < 6,
    ensures
        i == 0 || i == 1 || i == 2 || i == 3 || i == 4 || i == 5,
{
}

/// Reading the tree of an envelope gives the envelope back, and the tree can
/// be written as it is.
pub proof fn lemma_envelope_round_trip(file: VaultFileView)
    ensures
        envelope_of_tree(envelope_tree(file)) == Some(file),
        envelope_tree(file).plain(2),
{
    lemma_envelope_keys();
    lemma_kdf_round_trip(file.kdf);
    reveal_with_fuel(member_from, 8);
    let m = envelope_tree(file)->Object_0;
    assert(JsonTree::distinct_keys(m)) by {
        assert forall|i: int, j: int| 0 <= i < j < m.len() implies (#[trigger] m[i]).0 != (
        #[trigger] m[j]).0 by {
            lemma_six_cases(i);
            lemma_six_cases(j);
        }
    }
    assert forall|i: int| 0 <= i < m.len() implies (#[trigger] m[i]).1.plain(1) by {
        lemma_six_cases(i);
    }
}

/// Writes key derivation parameters as a tree.
pub fn kdf_to_json(kdf: &KdfParams) -> (tree: Json)
    ensures
        tree@ == kdf_tree(kdf@),
{
    let mut members: Vec<(String, Json)> = Vec::new();
    members.push(("algorithm".to_owned(), Json::String(kdf.algorithm.clone())));
    members.push(("memoryKib".to_owned(), Json::Unsigned(kdf.memory_kib as u64)));
    members.push(("timeCost".to_owned(), Json::Unsigned(kdf.time_cost as u64)));
    members.push(("parallelism".to_owned(), Json::Unsigned(kdf.parallelism as u64)));
    members.push(("hashLength".to_owned(), Json::Unsigned(kdf.hash_length as u64)));
    members.push(("saltLength".to_owned(), Json::Unsigned(kdf.salt_length as u64)));
    proof {
        lemma_object_view(members);
        assert(members_view(members@) =~= kdf_tree(kdf@)->Object_0);
    }
    Json::Object(members)
}

/// Reads key derivation parameters from a member of an envelope.
pub fn kdf_from_json(tree: Option<&Json>) -> (r: Option<KdfParams>)
    ensures
        match r {
            Some(kdf) => kdf_of_tree(json_option_view(tree)) == Some(kdf@),
            None => kdf_of_tree(json_option_view(tree)) is None,
        },
{
    match tree {
        Some(Json::Object(members)) => {
            proof {
                lemma_object_view(*members);
            }
            let algorithm = text_member(members, "algorithm");
            let memory_kib = number_member(members, "memoryKib", U32_LIMIT);
            let time_cost = number_member(members, "timeCost", U32_LIMIT);
            let parallelism = number_member(members, "parallelism", U32_LIMIT);
            let hash_length = number_member(members, "hashLength", U32_LIMIT);
            let salt_length = number_member(members, "saltLength", U32_LIMIT);
            match (algorithm, memory_kib, time_cost, parallelism, hash_length, salt_length) {
                (Some(a), Some(m), Some(t), Some(p), Some(h), Some(s)) => Some(
                    KdfParams {
                        algorithm: a,
                        memory_kib: m as u32,
                        time_cost: t as u32,
                        parallelism: p as u32,
                        hash_length: h as u32,
                        salt_length: s as u32,
                    },
                ),
                _ => None,
            }
        },
        _ => None,
    }
}

/// Writes an envelope as a tree.
pub fn envelope_to_json(file: &VaultFile) -> (tree: Json)
    ensures
        tree@ == envelope_tree(file@),
        tree@.plain(MAX_NESTING as nat),
{
    let mut members: Vec<(String, Json)> = Vec::new();
    members.push(("version".to_owned(), Json::Unsigned(file.version as u64)));
    members.push(("vaultName".to_owned(), Json::String(file.vault_name.clone())));
    members.push(("kdf".to_owned(), kdf_to_json(&file.kdf)));
    members.push(("salt".to_owned(), Json::String(file.salt.clone())));
    members.push(("nonce".to_owned(), Json::String(file.nonce.clone())));
    members.push(("ciphertext".to_owned(), Json::String(file.ciphertext.clone())));
    proof {
        lemma_object_view(members);
        assert(members_view(members@) =~= envelope_tree(file@)->Object_0);
        lemma_envelope_round_trip(file@);
        lemma_plain_deeper(envelope_tree(file@), 2, MAX_NESTING as nat);
    }
    Json::Object(members)
}

/// Reads an envelope from a tree.
///
/// The tree must be an object whose members `version` (a number up to 255),
/// `vaultName`, `salt`, `nonce`, `ciphertext` (strings) and `kdf` (an object
/// of a string and five 32-bit numbers) are all present; anything else is
/// `MalformedEnvelope`.
pub fn envelope_from_json(tree: &Json) -> (r: Result<VaultFile, VaultError>)
    ensures
        match r {
            Ok(file) => envelope_of_tree(tree@) == Some(file@),
            Err(e) => e == VaultError::MalformedEnvelope && envelope_of_tree(tree@) is None,
        },
{
    match tree {
        Json::Object(members) => {
            proof {
                lemma_object_view(*members);
            }
            let version = number_member(members, "version", VERSION_LIMIT);
            let vault_name = text_member(members, "vaultName");
            let kdf = kdf_from_json(find_member(members, "kdf"));
            let salt = text_member(members, "salt");
            let nonce = text_member(members, "nonce");
            let ciphertext = text_member(members, "ciphertext");
            match (version, vault_name, kdf, salt, nonce, ciphertext) {
                (Some(v), Some(n), Some(k), Some(s), Some(o), Some(c)) => Ok(
                    VaultFile {
                        version: v as u8,
                        vault_name: n,
                        kdf: k,
                        salt: s,
                        nonce: o,
                        ciphertext: c,
                    },
                ),
                _ => Err(VaultError::MalformedEnvelope),
            }
        },
        _ => Err(VaultError::MalformedEnvelope),
    }
}

} // verus!
