//! Reads the snapshot listing that the backup tool prints as JSON.

use vstd::prelude::*;
use crate::command::texts;
use crate::json::{json_document, parse_json, Json, Member};

verus! {

/// A point-in-time backup, as the tool lists it.
#[derive(Debug, Clone, PartialEq, Eq)]
pub struct Snapshot {
    pub time: String,
    pub tree: String,
    pub paths: Vec<String>,
    pub hostname: String,
    pub username: String,
    pub excludes: Option<Vec<String>>,
    pub id: String,
    pub short_id: String,
}

/// A snapshot as plain values.
pub struct SnapshotView {
    pub time: Seq<char>,
    pub tree: Seq<char>,
    pub paths: Seq<Seq<char>>,
    pub hostname: Seq<char>,
    pub username: Seq<char>,
    pub excludes: Option<Seq<Seq<char>>>,
    pub id: Seq<char>,
    pub short_id: Seq<char>,
}

impl View for Snapshot {
    type V = SnapshotView;

    open spec fn view(&self) -> SnapshotView {
        SnapshotView {
            time: self.time@,
            tree: self.tree@,
            paths: texts(self.paths@),
            hostname: self.hostname@,
            username: self.username@,
            excludes: match self.excludes {
                Some(list) => Some(texts(list@)),
                None => None,
            },
            id: self.id@,
            short_id: self.short_id@,
        }
    }
}

/// The snapshots of a sequence as plain values.
pub open spec fn snapshot_views(snapshots: Seq<Snapshot>) -> Seq<SnapshotView> {
    snapshots.map_values(|snapshot: Snapshot| snapshot@)
}

/// Why the output of the tool could not be read as a snapshot listing.
#[derive(Debug, Clone, PartialEq, Eq)]
pub enum SnapshotError {
    /// The output is not JSON; the message says where it went wrong.
    NotJson(String),
    /// The output is JSON, but not an array of snapshot objects.
    UnexpectedShape,
}

/// The value of the first member called `key`, if there is one.
pub open spec fn member_of(members: Seq<Member>, key: Seq<char>) -> Option<Json>
    decreases members.len(),
{
    if members.len() == 0 {
        None
    } else if members[0].key@ == key {
        Some(members[0].value)
    } else {
        member_of(members.skip(1), key)
    }
}

/// The text of a member that has to be a string.
pub open spec fn text_member(members: Seq<Member>, key: Seq<char>) -> Option<Seq<char>> {
    match member_of(members, key) {
        Some(Json::Text(text)) => Some(text@),
        _ => None,
    }
}

/// The text of a JSON string, and the empty text for any other value.
pub open spec fn text_or_empty(value: Json) -> Seq<char> {
    match value {
        Json::Text(text) => text@,
        _ => Seq::empty(),
    }
}

/// The texts of a value that has to be an array of strings.
pub open spec fn list_of(value: Json) -> Option<Seq<Seq<char>>> {
    match value {
        Json::Array(items) => if forall|i: int| 0 <= i < items@.len() ==> items@[i] is Text {
            Some(items@.map_values(|item: Json| text_or_empty(item)))
        } else {
            None
        },
        _ => None,
    }
}

/// The texts of a member that has to be an array of strings.
pub open spec fn list_member(members: Seq<Member>, key: Seq<char>) -> Option<Seq<Seq<char>>> {
    match member_of(members, key) {
        Some(value) => list_of(value),
        None => None,
    }
}

/// The texts of a member that may be missing or null, and has to be an array
/// of strings otherwise. The outer `None` says that it is something else.
pub open spec fn optional_list_member(members: Seq<Member>, key: Seq<char>) -> Option<
    Option<Seq<Seq<char>>>,
> {
    match member_of(members, key) {
        None => Some(None),
        Some(Json::Null) => Some(None),
        Some(value) => match list_of(value) {
            Some(list) => Some(Some(list)),
            None => None,
        },
    }
}

/// The snapshot that a JSON value stands for: an object whose members
/// `time`, `tree`, `hostname`, `username`, `id` and `short_id` are strings,
/// whose member `paths` is an array of strings, and whose member `excludes`,
/// if it has one that is not null, is an array of strings too. Other members
/// are of no account.
pub open spec fn snapshot_of(value: Json) -> Option<SnapshotView> {
    match value {
        Json::Object(members) => {
            let time = text_member(members@, "time"@);
            let tree = text_member(members@, "tree"@);
            let paths = list_member(members@, "paths"@);
            let hostname = text_member(members@, "hostname"@);
            let username = text_member(members@, "username"@);
            let excludes = optional_list_member(members@, "excludes"@);
            let id = text_member(members@, "id"@);
            let short_id = text_member(members@, "short_id"@);
            if time is Some && tree is Some && paths is Some && hostname is Some && username is Some
                && excludes is Some && id is Some && short_id is Some {
                Some(
                    SnapshotView {
                        time: time.unwrap(),
                        tree: tree.unwrap(),
                        paths: paths.unwrap(),
                        hostname: hostname.unwrap(),
                        username: username.unwrap(),
                        excludes: excludes.unwrap(),
                        id: id.unwrap(),
                        short_id: short_id.unwrap(),
                    },
                )
            } else {
                None
            }
        },
        _ => None,
    }
}

/// The snapshots that a JSON document lists: the document has to be an array
/// of which every item stands for a snapshot. Their order is that of the array.
pub open spec fn snapshots_of(document: Json) -> Option<Seq<SnapshotView>> {
    match document {
        Json::Array(items) => if forall|i: int|
            0 <= i < items@.len() ==> snapshot_of(#[trigger] items@[i]) is Some {
            Some(items@.map_values(|item: Json| snapshot_of(item).unwrap()))
        } else {
            None
        },
        _ => None,
    }
}

/// Finds the value of the first member called `key`.
fn member<'a>(members: &'a Vec<Member>, key: &str) -> (found: Option<&'a Json>)
    ensures
        match found {
            Some(value) => member_of(members@, key@) == Some(*value),
            None => member_of(members@, key@).is_none(),
        },
{
    let wanted = key.to_owned();
    let mut i: usize = 0;
    assert(members@.skip(0) =~= members@);
    while i < members.len()
        invariant
            i <= members.len(),
            wanted@ == key@,
            member_of(members@, key@) == member_of(members@.skip(i as int), key@),
        decreases members.len() - i,
    {
        if members[i].key == wanted {
            return Some(&members[i].value);
        }
        assert(members@.skip(i as int).skip(1) =~= members@.skip(i + 1));
        i += 1;
    }
    None
}

/// Reads a member that has to be a string.
fn read_text(members: &Vec<Member>, key: &str) -> (found: Option<String>)
    ensures
        match found {
            Some(text) => text_member(members@, key@) == Some(text@),
            None => text_member(members@, key@).is_none(),
        },
{
    match member(members, key) {
        Some(Json::Text(text)) => Some(text.clone()),
        _ => None,
    }
}

/// Reads a value that has to be an array of strings.
fn read_list(value: &Json) -> (found: Option<Vec<String>>)
    ensures
        match found {
            Some(list) => list_of(*value) == Some(texts(list@)),
            None => list_of(*value).is_none(),
        },
{
    match value {
        Json::Array(items) => {
            let mut list: Vec<String> = Vec::new();
            let mut i: usize = 0;
            while i < items.len()
                invariant
                    i <= items.len(),
                    list@.len() == i,
                    *value == Json::Array(*items),
                    forall|j: int| 0 <= j < i ==> items@[j] is Text,
                    forall|j: int| 0 <= j < i ==> list@[j]@ == text_or_empty(items@[j]),
                decreases items.len() - i,
            {
                match &items[i] {
                    Json::Text(text) => {
                        list.push(text.clone());
                    },
                    _ => {
                        return None;
                    },
                }
                i += 1;
            }
            Some(list)
        },
        _ => None,
    }
}

/// Reads the snapshot that a JSON value stands for.
pub fn snapshot_from_json(value: &Json) -> (found: Option<Snapshot>)
    ensures
        match found {
            Some(snapshot) => snapshot_of(*value) == Some(snapshot@),
            None => snapshot_of(*value).is_none(),
        },
{
    let members = match value {
        Json::Object(members) => members,
        _ => {
            return None;
        },
    };
    let time = read_text(members, "time");
    let tree = read_text(members, "tree");
    let paths = match member(members, "paths") {
        Some(list) => read_list(list),
        None => None,
    };
    let hostname = read_text(members, "hostname");
    let username = read_text(members, "username");
    let excludes = match member(members, "excludes") {
        None => Some(None),
        Some(Json::Null) => Some(None),
        Some(list) => match read_list(list) {
            Some(texts) => Some(Some(texts)),
            None => None,
        },
    };
    let id = read_text(members, "id");
    let short_id = read_text(members, "short_id");
    match (time, tree, paths, hostname, username, excludes, id, short_id) {
        (
            Some(time),
            Some(tree),
            Some(paths),
            Some(hostname),
            Some(username),
            Some(excludes),
            Some(id),
            Some(short_id),
        ) => Some(Snapshot { time, tree, paths, hostname, username, excludes, id, short_id }),
        _ => None,
    }
}

/// Reads the snapshots that a JSON document lists, in the order of the
/// document.
pub fn snapshots_from_json(document: &Json) -> (found: Option<Vec<Snapshot>>)
    ensures
        match found {
            Some(snapshots) => snapshots_of(*document) == Some(snapshot_views(snapshots@)),
            None => snapshots_of(*document).is_none(),
        },
{
    match document {
        Json::Array(items) => {
            let mut snapshots: Vec<Snapshot> = Vec::new();
            let mut i: usize = 0;
            while i < items.len()
                invariant
                    i <= items.len(),
                    snapshots@.len() == i,
                    *document == Json::Array(*items),
                    forall|j: int|
                        0 <= j < i ==> snapshot_of(#[trigger] items@[j]) == Some(snapshots@[j]@),
                decreases items.len() - i,
            {
                match snapshot_from_json(&items[i]) {
                    Some(snapshot) => {
                        snapshots.push(snapshot);
                    },
                    None => {
                        return None;
                    },
                }
                i += 1;
            }
            Some(snapshots)
        },
        _ => None,
    }
}

/// The outcome of reading a listing, from what the text denotes as JSON.
pub open spec fn listing_of(document: Option<Json>) -> Option<Seq<SnapshotView>> {
    match document {
        Some(json) => snapshots_of(json),
        None => None,
    }
}

impl Snapshot {
    /// Reads the snapshot listing that the tool printed. Text that is not
    /// JSON and JSON that is not a list of snapshots are both refused, with no
    /// partial result.
    pub fn from_string(input: String) -> (parsed: Result<Vec<Snapshot>, SnapshotError>)
        ensures
            match json_document(input@) {
                Some(document) => match snapshots_of(document) {
                    Some(listed) => parsed matches Ok(snapshots) && snapshot_views(snapshots@)
                        == listed,
                    None => parsed matches Err(SnapshotError::UnexpectedShape),
                },
                None => parsed matches Err(SnapshotError::NotJson(_)),
            },
    {
        match parse_json(input.as_str()) {
            Ok(document) => match snapshots_from_json(&document) {
                Some(snapshots) => Ok(snapshots),
                None => Err(SnapshotError::UnexpectedShape),
            },
            Err(error) => Err(SnapshotError::NotJson(error.message)),
        }
    }
}

} // verus!
