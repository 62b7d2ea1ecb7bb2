//! The compute half of the API client: parsing the bodies of the two remote
//! endpoints into the typed payloads. The transport (the HTTP GET itself)
//! lives outside the library and hands the body text in as a plain value.
//! Any schema mismatch is reported as `ApiError::Payload`, never by default
//! or partial data.

use vstd::prelude::*;
use crate::json::{
    parsed_json, str_content, u64_content, bool_content, array_content, member_content, js_parse,
    js_get, js_as_str, js_as_u64, js_as_bool, js_as_array,
};
use crate::model::{
    ApiError, ChangelogContent, ChangelogEntryView, ChangelogMessage, ChangelogMessageView,
    ReadableServersContent, ReadableServersMessage, ServerEntryView, ServersMessageView,
};

verus! {

/// The string member of a JSON object under a key, when the object has one.
pub open spec fn str_member(v: serde_json::Value, key: Seq<char>) -> Option<Seq<char>> {
    match member_content(v, key) {
        Some(m) => str_content(m),
        None => None,
    }
}

/// The `u64` member of a JSON object under a key, when the object has one.
pub open spec fn u64_member(v: serde_json::Value, key: Seq<char>) -> Option<u64> {
    match member_content(v, key) {
        Some(m) => u64_content(m),
        None => None,
    }
}

/// The boolean member of a JSON object under a key, when the object has one.
pub open spec fn bool_member(v: serde_json::Value, key: Seq<char>) -> Option<bool> {
    match member_content(v, key) {
        Some(m) => bool_content(m),
        None => None,
    }
}

/// The server entry a JSON value stands for: all seven members present with
/// their schema types, the permissions bitmask within `u8` range.
pub open spec fn spec_server_entry(v: serde_json::Value) -> Option<ServerEntryView> {
    match (
        str_member(v, "id"@),
        str_member(v, "gameMode"@),
        u64_member(v, "permissions"@),
        str_member(v, "playerCount"@),
        str_member(v, "provider"@),
        str_member(v, "region"@),
        str_member(v, "status"@),
    ) {
        (
            Some(id),
            Some(game_mode),
            Some(permissions),
            Some(player_count),
            Some(provider),
            Some(region),
            Some(status),
        ) => if permissions <= u8::MAX as u64 {
            Some(
                ServerEntryView {
                    id,
                    game_mode,
                    permissions: permissions as u8,
                    player_count,
                    provider,
                    region,
                    status,
                },
            )
        } else {
            None
        },
        _ => None,
    }
}

/// The server entries a JSON array stands for: defined exactly when every
/// element is a well-formed entry, in document order.
pub open spec fn spec_server_entries(a: Seq<serde_json::Value>) -> Option<Seq<ServerEntryView>> {
    if forall|i: int| 0 <= i < a.len() ==> spec_server_entry(a[i]) is Some {
        Some(Seq::new(a.len(), |i: int| spec_server_entry(a[i])->Some_0))
    } else {
        None
    }
}

/// The server listing a parsed JSON document stands for: an object with a
/// `content` array of well-formed entries and a string `contentType`.
pub open spec fn spec_servers_message(v: serde_json::Value) -> Option<ServersMessageView> {
    match (member_content(v, "content"@), str_member(v, "contentType"@)) {
        (Some(c), Some(content_type)) => match array_content(c) {
            Some(a) => match spec_server_entries(a) {
                Some(content) => Some(ServersMessageView { content, content_type }),
                None => None,
            },
            None => None,
        },
        _ => None,
    }
}

/// What parsing a server listing body yields: defined exactly on well-formed
/// bodies, where it mirrors the document's entries in order.
pub open spec fn spec_parse_servers(s: Seq<char>) -> Option<ServersMessageView> {
    match parsed_json(s) {
        Some(v) => spec_servers_message(v),
        None => None,
    }
}

/// The changelog entry a JSON value stands for: four string members and a
/// boolean `warn`.
pub open spec fn spec_changelog_entry(v: serde_json::Value) -> Option<ChangelogEntryView> {
    match (
        str_member(v, "content"@),
        str_member(v, "date"@),
        str_member(v, "title"@),
        str_member(v, "version"@),
        bool_member(v, "warn"@),
    ) {
        (Some(content), Some(date), Some(title), Some(version), Some(warn)) => Some(
            ChangelogEntryView { content, date, title, version, warn },
        ),
        _ => None,
    }
}

/// The changelog entries a JSON array stands for, in document order.
pub open spec fn spec_changelog_entries(a: Seq<serde_json::Value>) -> Option<
    Seq<ChangelogEntryView>,
> {
    if forall|i: int| 0 <= i < a.len() ==> spec_changelog_entry(a[i]) is Some {
        Some(Seq::new(a.len(), |i: int| spec_changelog_entry(a[i])->Some_0))
    } else {
        None
    }
}

/// The changelog a parsed JSON document stands for.
pub open spec fn spec_changelog_message(v: serde_json::Value) -> Option<ChangelogMessageView> {
    match (member_content(v, "content"@), str_member(v, "contentType"@)) {
        (Some(c), Some(content_type)) => match array_content(c) {
            Some(a) => match spec_changelog_entries(a) {
                Some(content) => Some(ChangelogMessageView { content, content_type }),
                None => None,
            },
            None => None,
        },
        _ => None,
    }
}

/// What parsing a changelog body yields: defined exactly on well-formed
/// bodies, where it mirrors the document's entries in order.
pub open spec fn spec_parse_changelog(s: Seq<char>) -> Option<ChangelogMessageView> {
    match parsed_json(s) {
        Some(v) => spec_changelog_message(v),
        None => None,
    }
}

/// Looks a string member up and takes an owned copy.
fn get_str_field(v: &serde_json::Value, key: &str) -> (r: Option<String>)
    ensures
        match r {
            Some(s) => str_member(*v, key@) == Some(s@),
            None => str_member(*v, key@) is None,
        },
{
    match js_get(v, key) {
        Some(m) => match js_as_str(m) {
            Some(s) => Some(s.to_owned()),
            None => None,
        },
        None => None,
    }
}

/// Looks a `u64` member up.
fn get_u64_field(v: &serde_json::Value, key: &str) -> (r: Option<u64>)
    ensures
        r == u64_member(*v, key@),
{
    match js_get(v, key) {
        Some(m) => js_as_u64(m),
        None => None,
    }
}

/// Looks a boolean member up.
fn get_bool_field(v: &serde_json::Value, key: &str) -> (r: Option<bool>)
    ensures
        r == bool_member(*v, key@),
{
    match js_get(v, key) {
        Some(m) => js_as_bool(m),
        None => None,
    }
}

/// Extracts one server entry from a JSON value, rejecting any value that is
/// not a well-formed entry.
fn extract_server_entry(v: &serde_json::Value) -> (r: Result<ReadableServersContent, ApiError>)
    ensures
        match r {
            Ok(e) => spec_server_entry(*v) == Some(e@),
            Err(err) => err == ApiError::Payload && spec_server_entry(*v) is None,
        },
{
    let id: String = match get_str_field(v, "id") {
        Some(s) => s,
        None => { return Err(ApiError::Payload); },
    };
    let game_mode: String = match get_str_field(v, "gameMode") {
        Some(s) => s,
        None => { return Err(ApiError::Payload); },
    };
    let permissions_raw: u64 = match get_u64_field(v, "permissions") {
        Some(n) => n,
        None => { return Err(ApiError::Payload); },
    };
    if permissions_raw > u8::MAX as u64 {
        return Err(ApiError::Payload);
    }
    let player_count: String = match get_str_field(v, "playerCount") {
        Some(s) => s,
        None => { return Err(ApiError::Payload); },
    };
    let provider: String = match get_str_field(v, "provider") {
        Some(s) => s,
        None => { return Err(ApiError::Payload); },
    };
    let region: String = match get_str_field(v, "region") {
        Some(s) => s,
        None => { return Err(ApiError::Payload); },
    };
    let status: String = match get_str_field(v, "status") {
        Some(s) => s,
        None => { return Err(ApiError::Payload); },
    };
    Ok(
        ReadableServersContent {
            id,
            gameMode: game_mode,
            permissions: permissions_raw as u8,
            playerCount: player_count,
            provider,
            region,
            status,
        },
    )
}

/// Extracts one changelog entry from a JSON value.
fn extract_changelog_entry(v: &serde_json::Value) -> (r: Result<ChangelogContent, ApiError>)
    ensures
        match r {
            Ok(e) => spec_changelog_entry(*v) == Some(e@),
            Err(err) => err == ApiError::Payload && spec_changelog_entry(*v) is None,
        },
{
    let content: String = match get_str_field(v, "content") {
        Some(s) => s,
        None => { return Err(ApiError::Payload); },
    };
    let date: String = match get_str_field(v, "date") {
        Some(s) => s,
        None => { return Err(ApiError::Payload); },
    };
    let title: String = match get_str_field(v, "title") {
        Some(s) => s,
        None => { return Err(ApiError::Payload); },
    };
    let version: String = match get_str_field(v, "version") {
        Some(s) => s,
        None => { return Err(ApiError::Payload); },
    };
    let warn: bool = match get_bool_field(v, "warn") {
        Some(b) => b,
        None => { return Err(ApiError::Payload); },
    };
    Ok(ChangelogContent { content, date, title, version, warn })
}

/// Parses a server listing body. Succeeds exactly on well-formed bodies, and
/// the result mirrors the document: same entries, same field values, same
/// order. Schema mismatch or malformed JSON is `ApiError::Payload`.
#[verifier::loop_isolation(false)]
pub fn parse_servers_response(body: &str) -> (r: Result<ReadableServersMessage, ApiError>)
    ensures
        match r {
            Ok(m) => spec_parse_servers(body@) == Some(m@),
            Err(e) => e == ApiError::Payload && spec_parse_servers(body@) is None,
        },
{
    let doc: serde_json::Value = match js_parse(body) {
        Some(v) => v,
        None => { return Err(ApiError::Payload); },
    };
    let content_type: String = match get_str_field(&doc, "contentType") {
        Some(s) => s,
        None => { return Err(ApiError::Payload); },
    };
    let content_member: &serde_json::Value = match js_get(&doc, "content") {
        Some(c) => c,
        None => { return Err(ApiError::Payload); },
    };
    let arr: &Vec<serde_json::Value> = match js_as_array(content_member) {
        Some(a) => a,
        None => { return Err(ApiError::Payload); },
    };
    let ghost elems: Seq<serde_json::Value> = arr@;
    let mut content: Vec<ReadableServersContent> = Vec::new();
    let mut i: usize = 0;
    while i < arr.len()
        invariant
            i <= arr.len(),
            arr@ == elems,
            content@.len() == i,
            forall|j: int| 0 <= j < i ==> spec_server_entry(elems[j]) is Some,
            forall|j: int| 0 <= j < i ==> #[trigger] content@[j]@ == spec_server_entry(
                elems[j],
            )->Some_0,
        decreases arr.len() - i,
    {
        match extract_server_entry(&arr[i]) {
            Ok(e) => {
                content.push(e);
            },
            Err(_) => {
                proof {
                    assert(!(forall|j: int|
                        0 <= j < elems.len() ==> spec_server_entry(elems[j]) is Some)) by {
                        assert(!(spec_server_entry(elems[i as int]) is Some));
                    }
                    assert(spec_server_entries(elems) is None);
                }
                return Err(ApiError::Payload);
            },
        }
        i = i + 1;
    }
    let m = ReadableServersMessage { content, contentType: content_type };
    proof {
        assert(spec_server_entries(elems) matches Some(s) && s =~= m@.content);
        assert(spec_servers_message(parsed_json(body@)->Some_0) matches Some(mv) && mv =~~= m@);
    }
    Ok(m)
}

/// Parses a changelog body. Succeeds exactly on well-formed bodies, and the
/// result mirrors the document: same entries, same field values, same order.
#[verifier::loop_isolation(false)]
pub fn parse_changelog_response(body: &str) -> (r: Result<ChangelogMessage, ApiError>)
    ensures
        match r {
            Ok(m) => spec_parse_changelog(body@) == Some(m@),
            Err(e) => e == ApiError::Payload && spec_parse_changelog(body@) is None,
        },
{
    let doc: serde_json::Value = match js_parse(body) {
        Some(v) => v,
        None => { return Err(ApiError::Payload); },
    };
    let content_type: String = match get_str_field(&doc, "contentType") {
        Some(s) => s,
        None => { return Err(ApiError::Payload); },
    };
    let content_member: &serde_json::Value = match js_get(&doc, "content") {
        Some(c) => c,
        None => { return Err(ApiError::Payload); },
    };
    let arr: &Vec<serde_json::Value> = match js_as_array(content_member) {
        Some(a) => a,
        None => { return Err(ApiError::Payload); },
    };
    let ghost elems: Seq<serde_json::Value> = arr@;
    let mut content: Vec<ChangelogContent> = Vec::new();
    let mut i: usize = 0;
    while i < arr.len()
        invariant
            i <= arr.len(),
            arr@ == elems,
            content@.len() == i,
            forall|j: int| 0 <= j < i ==> spec_changelog_entry(elems[j]) is Some,
            forall|j: int| 0 <= j < i ==> #[trigger] content@[j]@ == spec_changelog_entry(
                elems[j],
            )->Some_0,
        decreases arr.len() - i,
    {
        match extract_changelog_entry(&arr[i]) {
            Ok(e) => {
                content.push(e);
            },
            Err(_) => {
                proof {
                    assert(!(forall|j: int|
                        0 <= j < elems.len() ==> spec_changelog_entry(elems[j]) is Some)) by {
                        assert(!(spec_changelog_entry(elems[i as int]) is Some));
                    }
                    assert(spec_changelog_entries(elems) is None);
                }
                return Err(ApiError::Payload);
            },
        }
        i = i + 1;
    }
    let m = ChangelogMessage { content, contentType: content_type };
    proof {
        assert(spec_changelog_entries(elems) matches Some(s) && s =~= m@.content);
        assert(spec_changelog_message(parsed_json(body@)->Some_0) matches Some(mv) && mv =~~= m@);
    }
    Ok(m)
}

} // verus!
