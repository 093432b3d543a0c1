//! An encrypted credential store: one master password unlocks a vault file
//! that holds folders of login credentials.
//!
//! A vault file is an *envelope*: JSON text with a format version, the
//! vault's name, the cost parameters of the key derivation, and a salt, a
//! nonce and a ciphertext in base64. The ciphertext is the *payload*, the
//! folders and their credentials as compact JSON, encrypted with
//! AES-256-GCM under a key that Argon2id derives from the master password.
//!
//! The library never touches the file system. An operation takes the text
//! of a vault file as it was read and returns the text to write back; for
//! paths it decides on what a caller found out about them.
//!
//! - [`operations`]: what a user can do with a vault.
//! - [`vault`]: sealing a payload into an envelope and opening it again.
//! - [`store`]: the changes of a payload in memory.
//! - [`pin`]: the PIN of a secure folder.
//! - [`stamp`]: fresh identifiers and the time of a change.
//! - [`paths`]: the vault directory, path safety and the list of vaults.
//! - [`codec`], [`json`]: the two formats, over JSON trees.
//! - [`crypto`]: key derivation, the cipher, base64 and random bytes.
//! - [`text`]: trimming, PINs and file names.
//! - [`model`], [`errors`]: the data and the failures.
//!
//! Every function is verified against its contract, with these exceptions:
//! the calls into `argon2`, `aes-gcm`, `base64`, `rand`, `serde_json`,
//! `uuid` and `chrono` and into `String::push` and `SystemTime::elapsed`
//! of the standard library are made in small functions marked `external_body`, whose contracts are
//! taken on trust and say so. Where such a call is a function of its
//! arguments, its result has a name (an uninterpreted `spec fn`), and the
//! contracts built on it are exact in terms of that name.

pub mod codec;
pub mod crypto;
pub mod errors;
pub mod json;
pub mod model;
pub mod operations;
pub mod paths;
pub mod pin;
pub mod stamp;
pub mod store;
pub mod text;
pub mod vault;
