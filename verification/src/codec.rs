//! The formats of a vault, stated over JSON trees: how members of an object
//! are found and read. The envelope that is written to disk and the payload
//! that is encrypted inside it have a module each.

use vstd::prelude::*;

use crate::json::members_view;
use crate::json::Json;
use crate::json::JsonTree;
use crate::model::text_option_view;

pub mod envelope;
pub mod payload;

verus! {


/// The value of the first member at or after `from` that has the given key.
pub open spec fn member_from(
    members: Seq<(Seq<char>, JsonTree)>,
    key: Seq<char>,
    from: int,
) -> Option<JsonTree>
    decreases members.len() - from,
{
    if from < 0 || from >= members.len() {
        None
    } else if members[from].0 == key {
        Some(members[from].1)
    } else {
        member_from(members, key, from + 1)
    }
}

/// The value of the first member with the given key.
pub open spec fn member(members: Seq<(Seq<char>, JsonTree)>, key: Seq<char>) -> Option<JsonTree> {
    member_from(members, key, 0)
}

/// The text of a member that is present and a string.
pub open spec fn tree_text(tree: Option<JsonTree>) -> Option<Seq<char>> {
    match tree {
        Some(JsonTree::String(s)) => Some(s),
        _ => None,
    }
}

/// The text of a member that may be absent or null.
pub open spec fn tree_optional_text(tree: Option<JsonTree>) -> Option<Option<Seq<char>>> {
    match tree {
        None => Some(None),
        Some(JsonTree::Null) => Some(None),
        Some(JsonTree::String(s)) => Some(Some(s)),
        _ => None,
    }
}

/// The value of a member that is present and a boolean.
pub open spec fn tree_flag(tree: Option<JsonTree>) -> Option<bool> {
    match tree {
        Some(JsonTree::Bool(b)) => Some(b),
        _ => None,
    }
}

/// The value of a member that is present and an unsigned integer of at most
/// `max`.
pub open spec fn tree_number(tree: Option<JsonTree>, max: u64) -> Option<u64> {
    match tree {
        Some(JsonTree::Unsigned(n)) => if n <= max {
            Some(n)
        } else {
            None
        },
        _ => None,
    }
}

/// The view of an optional tree.
pub open spec fn json_option_view(tree: Option<&Json>) -> Option<JsonTree> {
    match tree {
        Some(t) => Some(t@),
        None => None,
    }
}

/// Finds the first member of an object that has the given key.
pub fn find_member<'a>(members: &'a Vec<(String, Json)>, key: &str) -> (r: Option<&'a Json>)
    ensures
        json_option_view(r) == member(members_view(members@), key@),
{
    let wanted: String = key.to_owned();
    let mut i: usize = 0;
    while i < members.len()
        invariant
            i <= members.len(),
            wanted@ == key@,
            member(members_view(members@), key@) == member_from(
                members_view(members@),
                key@,
                i as int,
            ),
        decreases members.len() - i,
    {
        if members[i].0 == wanted {
            return Some(&members[i].1);
        }
        i = i + 1;
    }
    None
}

/// Reads a member that must be a string.
pub fn text_member(members: &Vec<(String, Json)>, key: &str) -> (r: Option<String>)
    ensures
        text_option_view(r) == tree_text(member(members_view(members@), key@)),
{
    match find_member(members, key) {
        Some(Json::String(s)) => Some(s.clone()),
        _ => None,
    }
}

/// Reads a member that is a string where it is present and not null.
pub fn optional_text_member(members: &Vec<(String, Json)>, key: &str) -> (r: Option<
    Option<String>,
>)
    ensures
        match r {
            Some(text) => tree_optional_text(member(members_view(members@), key@)) == Some(
                text_option_view(text),
            ),
            None => tree_optional_text(member(members_view(members@), key@)) is None,
        },
{
    match find_member(members, key) {
        None => Some(None),
        Some(Json::Null) => Some(None),
        Some(Json::String(s)) => Some(Some(s.clone())),
        _ => None,
    }
}

/// Reads a member that must be a boolean.
pub fn flag_member(members: &Vec<(String, Json)>, key: &str) -> (r: Option<bool>)
    ensures
        r == tree_flag(member(members_view(members@), key@)),
{
    match find_member(members, key) {
        Some(Json::Bool(b)) => Some(*b),
        _ => None,
    }
}

/// Reads a member that must be an unsigned integer of at most `max`.
pub fn number_member(members: &Vec<(String, Json)>, key: &str, max: u64) -> (r: Option<u64>)
    ensures
        r == tree_number(member(members_view(members@), key@), max),
{
    match find_member(members, key) {
        Some(Json::Unsigned(n)) => if *n <= max {
            Some(*n)
        } else {
            None
        },
        _ => None,
    }
}

} // verus!
