//! A record as a JSON object.
//!
//! The object's frame is written here; the string literals inside it are
//! `serde_json`'s.

use vstd::prelude::*;
use vstd::string::StringExecFns;
use crate::record::{CompileRecord, RecordView};

verus! {

/// The JSON string literal that `serde_json::to_string` writes for a string:
/// the quotes around it and the escapes inside it.
pub uninterp spec fn json_string_literal(text: Seq<char>) -> Seq<char>;

/// Calls `serde_json::to_string` on a string. The contract claims that the
/// call succeeds and that its result is the literal named by
/// [`json_string_literal`], which depends on the string alone. `serde_json`
/// documents two causes of failure, a `Serialize` implementation that fails and a
/// map whose keys are not strings; neither can arise for a `str`.
#[verifier::external_body]
pub(crate) fn json_quote(text: &str) -> (literal: String)
    ensures
        literal@ == json_string_literal(text@),
{
    serde_json::to_string(text).unwrap_or_default()
}

/// An object of three members, `directory`, `command` and `file` in this
/// order, around three values that are already JSON: one member on each line,
/// indented by two spaces.
pub open spec fn object_frame(directory: Seq<char>, command: Seq<char>, file: Seq<char>) -> Seq<
    char,
> {
    "{\n  \"directory\": "@ + directory + ",\n  \"command\": "@ + command + ",\n  \"file\": "@
        + file + "\n}"@
}

/// The JSON object that stands for a record.
pub open spec fn object_text(record: RecordView) -> Seq<char> {
    object_frame(
        json_string_literal(record.directory),
        json_string_literal(record.command),
        json_string_literal(record.file),
    )
}

/// Writes the object's frame around three values that are already JSON.
pub fn frame_object(directory: &str, command: &str, file: &str) -> (object: String)
    ensures
        object@ == object_frame(directory@, command@, file@),
{
    let mut object = String::from_str("{\n  \"directory\": ");
    object.append(directory);
    object.append(",\n  \"command\": ");
    object.append(command);
    object.append(",\n  \"file\": ");
    object.append(file);
    object.append("\n}");
    object
}

/// Writes a record as a JSON object. Every character of the three fields is
/// kept: what JSON cannot hold as it is goes into an escape.
pub fn render_record(record: &CompileRecord) -> (object: String)
    ensures
        object@ == object_text(record@),
{
    let directory = json_quote(record.directory.as_str());
    let command = json_quote(record.command.as_str());
    let file = json_quote(record.file.as_str());
    frame_object(directory.as_str(), command.as_str(), file.as_str())
}

} // verus!
