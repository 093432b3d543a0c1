//! JSON documents as trees, and their text.
//!
//! Reading and writing JSON text is the work of `serde_json`. This module
//! gives the library a tree type of its own, so that the vault formats can be
//! stated and proved over trees. It reaches `serde_json` through four
//! functions, one for each call, and converts between its values and trees
//! in two more; the contracts of these six are taken on trust.

use vstd::prelude::*;

verus! {

/// One JSON value.
#[derive(Debug, PartialEq, Eq)]
pub enum Json {
    Null,
    Bool(bool),
    /// A number that is a non-negative integer below 2^64.
    Unsigned(u64),
    /// Any other number: negative, fractional or with an exponent. Its value
    /// is not kept, since no vault format has a use for it.
    OtherNumber,
    String(String),
    Array(Vec<Json>),
    /// The members of an object, in the order of the text.
    Object(Vec<(String, Json)>),
}

/// The mathematical value of a [`Json`] tree.
pub enum JsonTree {
    Null,
    Bool(bool),
    Unsigned(u64),
    OtherNumber,
    String(Seq<char>),
    Array(Seq<JsonTree>),
    Object(Seq<(Seq<char>, JsonTree)>),
}

/// The value of a tree.
pub open spec fn tree_of(json: Json) -> JsonTree
    decreases json,
{
    match json {
        Json::Null => JsonTree::Null,
        Json::Bool(b) => JsonTree::Bool(b),
        Json::Unsigned(n) => JsonTree::Unsigned(n),
        Json::OtherNumber => JsonTree::OtherNumber,
        Json::String(s) => JsonTree::String(s@),
        Json::Array(items) => JsonTree::Array(
            Seq::new(
                items@.len(),
                |i: int|
                    if 0 <= i < items@.len() {
                        tree_of(items@[i])
                    } else {
                        JsonTree::Null
                    },
            ),
        ),
        Json::Object(members) => JsonTree::Object(
            Seq::new(
                members@.len(),
                |i: int|
                    if 0 <= i < members@.len() {
                        (members@[i].0@, tree_of(members@[i].1))
                    } else {
                        (Seq::empty(), JsonTree::Null)
                    },
            ),
        ),
    }
}

impl View for Json {
    type V = JsonTree;

    open spec fn view(&self) -> JsonTree {
        tree_of(*self)
    }
}

/// The values of a sequence of trees.
pub open spec fn items_view(items: Seq<Json>) -> Seq<JsonTree> {
    Seq::new(items.len(), |i: int| items[i]@)
}

/// The values of the members of an object.
pub open spec fn members_view(members: Seq<(String, Json)>) -> Seq<(Seq<char>, JsonTree)> {
    Seq::new(members.len(), |i: int| (members[i].0@, members[i].1@))
}

/// The value of an array is the sequence of the values of its items.
pub proof fn lemma_array_view(items: Vec<Json>)
    ensures
        Json::Array(items)@ == JsonTree::Array(items_view(items@)),
{
    assert(Json::Array(items)@->Array_0 =~= items_view(items@));
}

/// The value of an object is the sequence of the values of its members.
pub proof fn lemma_object_view(members: Vec<(String, Json)>)
    ensures
        Json::Object(members)@ == JsonTree::Object(members_view(members@)),
{
    assert(Json::Object(members)@->Object_0 =~= members_view(members@));
}

/// The deepest nesting of arrays and objects that this library writes. It is
/// well under the nesting that `serde_json` reads.
pub const MAX_NESTING: usize = 16;

impl JsonTree {
    /// Whether no two members of an object have the same key.
    pub open spec fn distinct_keys(members: Seq<(Seq<char>, JsonTree)>) -> bool {
        forall|i: int, j: int|
            0 <= i < j < members.len() ==> (#[trigger] members[i]).0 != (#[trigger] members[j]).0
    }

    /// Whether the tree can be written and read back unchanged: it holds no
    /// number other than an unsigned integer, no object with a repeated key,
    /// and nests arrays and objects at most `depth` deep.
    pub open spec fn plain(self, depth: nat) -> bool
        decreases depth,
    {
        match self {
            JsonTree::OtherNumber => false,
            JsonTree::Array(items) => depth > 0 && forall|i: int|
                0 <= i < items.len() ==> (#[trigger] items[i]).plain((depth - 1) as nat),
            JsonTree::Object(members) => depth > 0 && Self::distinct_keys(members) && forall|
                i: int,
            |
                0 <= i < members.len() ==> (#[trigger] members[i]).1.plain((depth - 1) as nat),
            _ => true,
        }
    }
}

/// A tree that nests at most `depth` deep nests at most `deeper` deep.
pub proof fn lemma_plain_deeper(tree: JsonTree, depth: nat, deeper: nat)
    requires
        tree.plain(depth),
        depth <= deeper,
    ensures
        tree.plain(deeper),
    decreases depth,
{
    match tree {
        JsonTree::Array(items) => {
            assert forall|i: int| 0 <= i < items.len() implies (#[trigger] items[i]).plain(
                (deeper - 1) as nat,
            ) by {
                lemma_plain_deeper(items[i], (depth - 1) as nat, (deeper - 1) as nat);
            }
        },
        JsonTree::Object(members) => {
            assert forall|i: int| 0 <= i < members.len() implies (#[trigger] members[i]).1.plain(
                (deeper - 1) as nat,
            ) by {
                lemma_plain_deeper(members[i].1, (depth - 1) as nat, (deeper - 1) as nat);
            }
        },
        _ => {},
    }
}

/// A `serde_json::Value`, carried between the crate's functions and the
/// conversions below.
#[verifier::external_type_specification]
#[verifier::external_body]
pub struct ExJsonValue(serde_json::Value);

/// What a `serde_json::Value` holds, as a tree. A number is `Unsigned`
/// where `serde_json::Number::as_u64` has a value for it, and `OtherNumber`
/// otherwise; the members of an object come in the order in which the value
/// iterates them.
pub uninterp spec fn value_tree(value: serde_json::Value) -> JsonTree;

/// What `serde_json::from_str` reads from a text, as a tree; `None` where it
/// reports an error.
pub uninterp spec fn json_text_parsed(text: Seq<char>) -> Option<JsonTree>;

/// What `serde_json::from_slice` reads from bytes, as a tree; `None` where it
/// reports an error.
pub uninterp spec fn json_bytes_parsed(bytes: Seq<u8>) -> Option<JsonTree>;

/// What `serde_json::to_string_pretty` writes for a tree; `None` where it
/// reports an error.
pub uninterp spec fn json_pretty_text(tree: JsonTree) -> Option<Seq<char>>;

/// What `serde_json::to_vec` writes for a tree; `None` where it reports an
/// error.
pub uninterp spec fn json_compact_bytes(tree: JsonTree) -> Option<Seq<u8>>;

/// Takes a `serde_json::Value` apart, variant by variant, with
/// `serde_json::Number::as_u64` for a number.
///
/// Trusted: the tree is what the value holds.
#[verifier::external_body]
fn json_from_value(value: serde_json::Value) -> (tree: Json)
    ensures
        tree@ == value_tree(value),
{
    match value {
        serde_json::Value::Null => Json::Null,
        serde_json::Value::Bool(b) => Json::Bool(b),
        serde_json::Value::Number(n) => n.as_u64().map_or(Json::OtherNumber, Json::Unsigned),
        serde_json::Value::String(s) => Json::String(s),
        serde_json::Value::Array(a) => Json::Array(a.into_iter().map(json_from_value).collect()),
        serde_json::Value::Object(o) => Json::Object(
            o.into_iter().map(|(k, v)| (k, json_from_value(v))).collect(),
        ),
    }
}

/// Builds a `serde_json::Value` from a tree, variant by variant, with
/// `serde_json::Value::from` for a number. An `OtherNumber`, which the
/// precondition rules out, would become null.
///
/// Trusted: the value holds the tree. That needs a tree without a repeated
/// key, which a `serde_json::Map` does not keep, and without a number whose
/// value the tree does not carry; and it relies on the `preserve_order`
/// feature of `serde_json`, with which a map keeps its members in the order
/// they were put in.
#[verifier::external_body]
fn value_from_json(tree: &Json) -> (value: serde_json::Value)
    requires
        tree@.plain(MAX_NESTING as nat),
    ensures
        value_tree(value) == tree@,
{
    match tree {
        Json::Null | Json::OtherNumber => serde_json::Value::Null,
        Json::Bool(b) => serde_json::Value::Bool(*b),
        Json::Unsigned(n) => serde_json::Value::from(*n),
        Json::String(s) => serde_json::Value::String(s.clone()),
        Json::Array(items) => serde_json::Value::Array(items.iter().map(value_from_json).collect()),
        Json::Object(members) => serde_json::Value::Object(
            members.iter().map(|(k, v)| (k.clone(), value_from_json(v))).collect(),
        ),
    }
}

/// `serde_json::from_str` at type `serde_json::Value`.
///
/// Trusted: the outcome is `json_text_parsed` of the text.
#[verifier::external_body]
fn value_from_text(text: &str) -> (r: Option<serde_json::Value>)
    ensures
        match r {
            Some(value) => json_text_parsed(text@) == Some(value_tree(value)),
            None => json_text_parsed(text@) is None,
        },
{
    serde_json::from_str::<serde_json::Value>(text).ok()
}

/// `serde_json::from_slice` at type `serde_json::Value`.
///
/// Trusted: the outcome is `json_bytes_parsed` of the bytes.
#[verifier::external_body]
fn value_from_bytes(bytes: &[u8]) -> (r: Option<serde_json::Value>)
    ensures
        match r {
            Some(value) => json_bytes_parsed(bytes@) == Some(value_tree(value)),
            None => json_bytes_parsed(bytes@) is None,
        },
{
    serde_json::from_slice::<serde_json::Value>(bytes).ok()
}

/// `serde_json::to_string_pretty` of a `serde_json::Value`.
///
/// Trusted: the outcome is `json_pretty_text` of what the value holds, and
/// the text reads back as the same tree. The members of an object are
/// written in their order, which relies on the `preserve_order` feature of
/// `serde_json`.
#[verifier::external_body]
fn value_to_pretty_text(value: &serde_json::Value) -> (r: Option<String>)
    requires
        value_tree(*value).plain(MAX_NESTING as nat),
    ensures
        match r {
            Some(text) => json_pretty_text(value_tree(*value)) == Some(text@) && json_text_parsed(
                text@,
            ) == Some(value_tree(*value)),
            None => json_pretty_text(value_tree(*value)) is None,
        },
{
    serde_json::to_string_pretty(value).ok()
}

/// `serde_json::to_vec` of a `serde_json::Value`.
///
/// Trusted: the outcome is `json_compact_bytes` of what the value holds, and
/// the bytes read back as the same tree. The members of an object are
/// written in their order, which relies on the `preserve_order` feature of
/// `serde_json`.
#[verifier::external_body]
fn value_to_compact_bytes(value: &serde_json::Value) -> (r: Option<Vec<u8>>)
    requires
        value_tree(*value).plain(MAX_NESTING as nat),
    ensures
        match r {
            Some(bytes) => json_compact_bytes(value_tree(*value)) == Some(bytes@)
                && json_bytes_parsed(bytes@) == Some(value_tree(*value)),
            None => json_compact_bytes(value_tree(*value)) is None,
        },
{
    serde_json::to_vec(value).ok()
}

/// Reads a JSON text as a tree, or returns `None` where it is no JSON.
pub fn parse_json_text(text: &str) -> (r: Option<Json>)
    ensures
        match r {
            Some(tree) => json_text_parsed(text@) == Some(tree@),
            None => json_text_parsed(text@) is None,
        },
{
    match value_from_text(text) {
        Some(value) => Some(json_from_value(value)),
        None => None,
    }
}

/// Reads JSON bytes as a tree, or returns `None` where they are no JSON.
pub fn parse_json_bytes(bytes: &[u8]) -> (r: Option<Json>)
    ensures
        match r {
            Some(tree) => json_bytes_parsed(bytes@) == Some(tree@),
            None => json_bytes_parsed(bytes@) is None,
        },
{
    match value_from_bytes(bytes) {
        Some(value) => Some(json_from_value(value)),
        None => None,
    }
}

/// Writes a tree as indented JSON text. The text reads back as the tree.
pub(crate) fn print_json_pretty(tree: &Json) -> (r: Option<String>)
    requires
        tree@.plain(MAX_NESTING as nat),
    ensures
        match r {
            Some(text) => json_pretty_text(tree@) == Some(text@) && json_text_parsed(text@)
                == Some(tree@),
            None => json_pretty_text(tree@) is None,
        },
{
    let value = value_from_json(tree);
    value_to_pretty_text(&value)
}

/// Writes a tree as compact JSON bytes. The bytes read back as the tree.
pub(crate) fn print_json_compact(tree: &Json) -> (r: Option<Vec<u8>>)
    requires
        tree@.plain(MAX_NESTING as nat),
    ensures
        match r {
            Some(bytes) => json_compact_bytes(tree@) == Some(bytes@) && json_bytes_parsed(bytes@)
                == Some(tree@),
            None => json_compact_bytes(tree@) is None,
        },
{
    let value = value_from_json(tree);
    value_to_compact_bytes(&value)
}

} // verus!
