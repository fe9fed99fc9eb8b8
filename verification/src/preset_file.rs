//! Exporting a preset to a file: the file must be a `.vane` file and the
//! content a JSON object of at most 1 MiB.

use vstd::prelude::*;
use crate::text::{ascii_lower_seq, concat, contains_seq, str_eq};
use crate::diagnostics::ascii_lowercase;

verus! {

/// The largest preset export, in bytes.
pub const MAX_PRESET_EXPORT_BYTES: usize = 1048576;

/// What `serde_json::from_str::<serde_json::Value>` makes of a text:
/// whether the value is an object, or the parser's error message.
pub uninterp spec fn json_parse_verdict(text: Seq<char>) -> Result<bool, Seq<char>>;

/// `serde_json::from_str::<serde_json::Value>`, read as whether the
/// document is an object; the error's message is passed on as it is.
#[verifier::external_body]
fn parse_json_object(text: &str) -> (r: Result<bool, String>)
    ensures
        match (r, json_parse_verdict(text@)) {
            (Ok(a), Ok(b)) => a == b,
            (Err(a), Err(b)) => a@ == b,
            _ => false,
        },
{
    serde_json::from_str::<serde_json::Value>(text).map(|value| value.is_object()).map_err(|e| e.to_string())
}

/// `Path::extension` as text (`None` also when it is not valid UTF-8). How
/// a path splits into components depends on the platform, so only what
/// holds everywhere is stated: the extension is the text after a `.` in
/// the file name, which is part of the path, so a path without `.` has
/// none, and an extension stands in the path behind a `.`.
#[verifier::external_body]
fn path_extension(path: &str) -> (r: Option<String>)
    ensures
        path@.len() == 0 ==> r is None,
        !path@.contains('.') ==> r is None,
        r matches Some(e) ==> contains_seq(path@, seq!['.'] + e@),
{
    std::path::Path::new(path).extension().and_then(|e| e.to_str()).map(str::to_string)
}

pub open spec fn export_extension_text() -> Seq<char> {
    "Preset exports must use the .vane extension."@
}

/// The verdict on an export with this file extension and content: the
/// extension is checked first, then the size in bytes, then that the
/// content is a JSON object.
pub open spec fn preset_export_verdict(extension: Option<Seq<char>>, content: Seq<char>, content_bytes: nat) -> Result<(), Seq<char>> {
    if !(extension matches Some(e) && ascii_lower_seq(e) == "vane"@) {
        Err(export_extension_text())
    } else if content_bytes > MAX_PRESET_EXPORT_BYTES {
        Err("Preset export exceeds the 1 MiB safety limit."@)
    } else {
        match json_parse_verdict(content) {
            Err(e) => Err("Preset export is not valid JSON: "@ + e),
            Ok(false) => Err("Preset export must contain a JSON object."@),
            Ok(true) => Ok(()),
        }
    }
}

pub fn check_preset_export_content(extension: Option<&str>, content: &str) -> (r: Result<(), String>)
    ensures
        match (r, preset_export_verdict(match extension {
            Some(e) => Some(e@),
            None => None,
        }, content@, content.len() as nat)) {
            (Ok(()), Ok(())) => true,
            (Err(a), Err(b)) => a@ == b,
            _ => false,
        },
{
    let ext_ok = match extension {
        Some(e) => {
            let lower = ascii_lowercase(e);
            str_eq(lower.as_str(), "vane")
        },
        None => false,
    };
    if !ext_ok {
        return Err("Preset exports must use the .vane extension.".to_string());
    }
    if content.len() > MAX_PRESET_EXPORT_BYTES {
        return Err("Preset export exceeds the 1 MiB safety limit.".to_string());
    }
    match parse_json_object(content) {
        Err(e) => Err(concat("Preset export is not valid JSON: ", e.as_str())),
        Ok(false) => Err("Preset export must contain a JSON object.".to_string()),
        Ok(true) => Ok(()),
    }
}

/// Checks an export before it is written: the path's extension, then the
/// content. An export that passes has a `.vane` extension (in any case)
/// and is a JSON object of at most 1 MiB; a path without `.` is refused
/// for its extension.
pub fn check_preset_export(file_path: &str, content: &str) -> (r: Result<(), String>)
    ensures
        r is Ok ==> content.len() <= MAX_PRESET_EXPORT_BYTES && json_parse_verdict(content@) == Ok::<
            bool,
            Seq<char>,
        >(true),
        r is Ok ==> exists|e: Seq<char>| ascii_lower_seq(e) == "vane"@ && #[trigger] contains_seq(
            file_path@,
            seq!['.'] + e,
        ),
        !file_path@.contains('.') ==> (r matches Err(m) && m@ == export_extension_text()),
{
    let extension = path_extension(file_path);
    match &extension {
        Some(e) => check_preset_export_content(Some(e.as_str()), content),
        None => check_preset_export_content(None, content),
    }
}

} // verus!
