//! Known tool payload shapes, and the explicit decoding of a raw payload
//! into one of them.

use crate::error::{DecodeError, EditFileField};
use crate::thread::ToolUseRecord;
use crate::value::{text_is, StructuredValue};
use vstd::prelude::*;

verus! {

/// The name under which the agent invokes the file-editing tool.
pub const EDIT_FILE_TOOL: &'static str = "edit_file";

/// How the file-editing tool treats the file it is pointed at.
#[derive(Clone, Copy, Debug, PartialEq, Eq, Structural)]
pub enum EditFileMode {
    /// Change an existing file in place.
    Edit,
    /// Create a file that does not exist yet.
    Create,
    /// Replace the whole content of an existing file.
    Overwrite,
}

/// The input of the file-editing tool.
#[derive(Clone, Debug, PartialEq, Eq)]
pub struct EditFileToolInput {
    pub display_description: String,
    pub path: String,
    pub mode: EditFileMode,
}

/// A tool payload after decoding: one of the known shapes, or the raw
/// payload of a tool that has no known shape.
#[derive(Clone, Debug, PartialEq, Eq)]
pub enum ToolInput<'a> {
    EditFile(EditFileToolInput),
    Opaque(&'a StructuredValue),
}

/// The mode that `text` names, if it names one.
pub open spec fn mode_named(text: Seq<char>) -> Option<EditFileMode> {
    if text == "edit"@ {
        Some(EditFileMode::Edit)
    } else if text == "create"@ {
        Some(EditFileMode::Create)
    } else if text == "overwrite"@ {
        Some(EditFileMode::Overwrite)
    } else {
        None
    }
}

/// The text of the field `key` of `input`, or the reason why it has none.
pub open spec fn text_field(input: StructuredValue, key: Seq<char>, field: EditFileField) -> Result<
    String,
    DecodeError,
> {
    match input.spec_field(key) {
        None => Err(DecodeError::MissingField(field)),
        Some(value) => match value.spec_text() {
            None => Err(DecodeError::NotText(field)),
            Some(text) => Ok(text),
        },
    }
}

/// What decoding `input` as an edit-file payload gives.
///
/// The payload must be a record whose fields `display_description`, `path`
/// and `mode` hold text, `mode` being one of `edit`, `create`, `overwrite`.
/// Other fields are ignored. The fields are examined in that order and the
/// first fault is the one reported.
pub open spec fn decoded_edit_file(input: StructuredValue) -> Result<
    EditFileToolInput,
    DecodeError,
> {
    if !(input is Record) {
        Err(DecodeError::NotARecord)
    } else {
        match text_field(input, "display_description"@, EditFileField::DisplayDescription) {
            Err(e) => Err(e),
            Ok(display_description) => match text_field(input, "path"@, EditFileField::Path) {
                Err(e) => Err(e),
                Ok(path) => match text_field(input, "mode"@, EditFileField::Mode) {
                    Err(e) => Err(e),
                    Ok(mode_text) => match mode_named(mode_text@) {
                        None => Err(DecodeError::UnknownMode(mode_text)),
                        Some(mode) => Ok(EditFileToolInput { display_description, path, mode }),
                    },
                },
            },
        }
    }
}

/// What decoding the payload of a tool called `name` gives: the edit-file
/// shape for the file-editing tool, the raw payload for every other tool.
pub open spec fn decoded_tool_input(name: Seq<char>, input: &StructuredValue) -> Result<
    ToolInput<'static>,
    DecodeError,
> {
    if name == EDIT_FILE_TOOL@ {
        match decoded_edit_file(*input) {
            Ok(decoded) => Ok(ToolInput::EditFile(decoded)),
            Err(e) => Err(e),
        }
    } else {
        Ok(ToolInput::Opaque(input))
    }
}

/// Reads the text field `key` out of a record.
fn read_text_field(input: &StructuredValue, key: &str, field: EditFileField) -> (text: Result<
    String,
    DecodeError,
>)
    ensures
        text == text_field(*input, key@, field),
{
    match input.field(key) {
        None => Err(DecodeError::MissingField(field)),
        Some(value) => match value.as_text() {
            None => Err(DecodeError::NotText(field)),
            Some(text) => Ok(text.clone()),
        },
    }
}

impl EditFileMode {
    /// The mode that `text` names.
    pub fn parse(text: &String) -> (mode: Option<EditFileMode>)
        ensures
            mode == mode_named(text@),
    {
        if text_is(text, "edit") {
            Some(EditFileMode::Edit)
        } else if text_is(text, "create") {
            Some(EditFileMode::Create)
        } else if text_is(text, "overwrite") {
            Some(EditFileMode::Overwrite)
        } else {
            None
        }
    }

    /// Whether the mode leaves no file created or replaced.
    pub fn is_edit(&self) -> (in_place: bool)
        ensures
            in_place == (*self == EditFileMode::Edit),
    {
        match self {
            EditFileMode::Edit => true,
            _ => false,
        }
    }
}

impl EditFileToolInput {
    /// Decodes a raw payload as the input of the file-editing tool.
    pub fn decode(input: &StructuredValue) -> (decoded: Result<EditFileToolInput, DecodeError>)
        ensures
            decoded == decoded_edit_file(*input),
    {
        match input {
            StructuredValue::Record(_) => {},
            _ => {
                return Err(DecodeError::NotARecord);
            },
        }
        let display_description = match read_text_field(
            input,
            "display_description",
            EditFileField::DisplayDescription,
        ) {
            Ok(t) => t,
            Err(e) => {
                return Err(e);
            },
        };
        let path = match read_text_field(input, "path", EditFileField::Path) {
            Ok(t) => t,
            Err(e) => {
                return Err(e);
            },
        };
        let mode_text = match read_text_field(input, "mode", EditFileField::Mode) {
            Ok(t) => t,
            Err(e) => {
                return Err(e);
            },
        };
        match EditFileMode::parse(&mode_text) {
            None => Err(DecodeError::UnknownMode(mode_text)),
            Some(mode) => Ok(EditFileToolInput { display_description, path, mode }),
        }
    }
}

/// Decodes the payload of a tool-use record according to the tool's name.
/// A tool without a known shape is never an error: its payload is handed
/// back as it is.
pub fn decode_tool_input<'a>(record: &ToolUseRecord<'a>) -> (decoded: Result<
    ToolInput<'a>,
    DecodeError,
>)
    ensures
        decoded == decoded_tool_input(record.name@, record.input),
{
    if text_is(record.name, EDIT_FILE_TOOL) {
        match EditFileToolInput::decode(record.input) {
            Ok(decoded) => Ok(ToolInput::EditFile(decoded)),
            Err(e) => Err(e),
        }
    } else {
        Ok(ToolInput::Opaque(record.input))
    }
}

} // verus!
