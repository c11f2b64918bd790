//! The header check of a saved work: the text must be JSON and carry the format
//! version that this library reads.
use vstd::prelude::*;
use vstd::string::*;

use crate::text::{decimal, message_with_number, prefixed};

verus! {

/// The version of the saved-work format that this library writes and reads.
pub const SCHEMA_VERSION: u32 = 1;

/// Whether `serde_json` accepts `text` as one JSON value.
pub uninterp spec fn json_accepts(text: Seq<char>) -> bool;

/// The message of the error that `serde_json` gives for `text`.
pub uninterp spec fn json_error_text(text: Seq<char>) -> Seq<char>;

/// The member `key` of the top-level JSON object in `text`, where it is an unsigned
/// integer that fits in 64 bits.
pub uninterp spec fn json_u64_member(text: Seq<char>, key: Seq<char>) -> Option<u64>;

/// Reads `text` with `serde_json::from_str` as a `serde_json::Value`, then takes its
/// member `key` with `Value::get` and `Value::as_u64`.
///
/// Claimed of serde_json, not proved: the read fails exactly where serde_json refuses
/// the text, and then gives serde_json's error message; otherwise the member is a
/// function of the text and the key alone. Which texts serde_json accepts, and what the
/// member is, is left to those names.
#[verifier::external_body]
fn read_u64_member(text: &str, key: &str) -> (r: Result<Option<u64>, String>)
    ensures
        r is Ok <==> json_accepts(text@),
        r matches Err(m) ==> m@ == json_error_text(text@),
        r matches Ok(v) ==> v == json_u64_member(text@, key@),
{
    match serde_json::from_str::<serde_json::Value>(text) {
        Ok(value) => Ok(value.get(key).and_then(serde_json::Value::as_u64)),
        Err(e) => Err(e.to_string()),
    }
}

/// "The contents of the file could not be read: {detail}".
pub open spec fn msg_unreadable(detail: Seq<char>) -> Seq<char> {
    "ファイルの内容を読み取れませんでした: "@ + detail
}

/// "This is not a saved work".
pub open spec fn msg_not_a_work() -> Seq<char> {
    "作品ファイルの形式ではありません"@
}

/// "This file was made by a newer version of the app; please update the app".
pub open spec fn msg_newer_version() -> Seq<char> {
    "このファイルは新しい版のアプリで作られています。アプリを更新してください"@
}

/// "This file format (version {v}) is not supported".
pub open spec fn msg_older_version(v: nat) -> Seq<char> {
    "このファイルの形式(版"@ + decimal(v) + ")には対応していません"@
}

/// What the version check answers for the version found in a file, if any.
pub open spec fn version_verdict(found: Option<u64>) -> Result<(), Seq<char>> {
    match found {
        None => Err(msg_not_a_work()),
        Some(v) => if v > SCHEMA_VERSION {
            Err(msg_newer_version())
        } else if v < SCHEMA_VERSION {
            Err(msg_older_version(v as nat))
        } else {
            Ok(())
        },
    }
}

/// What the header check answers for a text.
pub open spec fn header_verdict(text: Seq<char>) -> Result<(), Seq<char>> {
    if !json_accepts(text) {
        Err(msg_unreadable(json_error_text(text)))
    } else {
        version_verdict(json_u64_member(text, "schema_version"@))
    }
}

/// A result whose error is a string, seen through the string's characters.
pub open spec fn unit_result_view(r: Result<(), String>) -> Result<(), Seq<char>> {
    match r {
        Ok(()) => Ok(()),
        Err(m) => Err(m@),
    }
}

/// Checks the format version found in a saved work: a file without one is no work,
/// a newer one asks for an update, an older one is not supported.
pub fn check_schema_version(found: Option<u64>) -> (r: Result<(), String>)
    ensures
        unit_result_view(r) == version_verdict(found),
{
    match found {
        None => Err(String::from_str("作品ファイルの形式ではありません")),
        Some(v) => {
            if v > SCHEMA_VERSION as u64 {
                Err(
                    String::from_str(
                        "このファイルは新しい版のアプリで作られています。アプリを更新してください",
                    ),
                )
            } else if v < SCHEMA_VERSION as u64 {
                Err(message_with_number("このファイルの形式(版", v, ")には対応していません"))
            } else {
                Ok(())
            }
        },
    }
}

/// Checks the header of a saved work: the text must be JSON whose top-level object
/// carries `schema_version` equal to [`SCHEMA_VERSION`].
pub fn check_document_header(text: &str) -> (r: Result<(), String>)
    ensures
        unit_result_view(r) == header_verdict(text@),
{
    match read_u64_member(text, "schema_version") {
        Err(detail) => Err(prefixed("ファイルの内容を読み取れませんでした: ", detail.as_str())),
        Ok(found) => check_schema_version(found),
    }
}

/// A saved work is accepted exactly when the version it carries is the current one.
pub proof fn law_only_current_version_accepted(found: Option<u64>)
    ensures
        version_verdict(found) is Ok <==> found == Some(SCHEMA_VERSION as u64),
{
}

} // verus!
