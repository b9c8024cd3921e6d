//! The actions the interface emits, and the screen modes they move between.

use vstd::prelude::*;
use crate::model_picker::ModelsResponse;
use crate::text::{concat2, contains_str, seq_contains, str_is_empty, str_to_string};

verus! {

/// What a file-path prompt is for.
#[derive(Clone, Copy, Debug, PartialEq, Eq, Structural)]
pub enum FilePromptKind {
    Dump,
    SaveCodeBlock,
}

/// A file-path prompt and the text it would write.
pub struct FilePrompt {
    pub kind: FilePromptKind,
    pub content: Option<String>,
}

/// What the input area is doing.
pub enum UiMode {
    Typing,
    EditSelect { selected_index: usize },
    BlockSelect { block_index: usize },
    InPlaceEdit { index: usize },
    FilePrompt(FilePrompt),
}

/// The terminal size an action is handled for; zero when unknown.
#[derive(Clone, Copy, Debug, PartialEq, Eq, Structural)]
pub struct AppActionContext {
    pub term_width: u16,
    pub term_height: u16,
}

/// Actions emitted while a picker overlay is active.
pub enum PickerAction {
    PickerEscape,
    PickerMoveUp,
    PickerMoveDown,
    PickerMoveToStart,
    PickerMoveToEnd,
    PickerCycleSortMode,
    PickerApplySelection { persistent: bool },
    PickerUnsetDefault,
    PickerBackspace,
    PickerTypeChar { ch: char },
    PickerInspectSelection,
    PickerInspectScroll { lines: i32 },
    PickerInspectScrollToStart,
    PickerInspectScrollToEnd,
    ModelPickerLoaded {
        default_model_for_provider: Option<String>,
        models_response: ModelsResponse,
    },
    ModelPickerLoadFailed { error: String },
}

/// Actions for modal prompt flows (file and MCP argument prompts).
pub enum PromptAction {
    File(FilePromptAction),
    Mcp(McpPromptAction),
}

/// Completion actions for file-path prompts.
pub enum FilePromptAction {
    CompleteDump { filename: String, overwrite: bool },
    CompleteSaveBlock { filename: String, content: String, overwrite: bool },
}

/// Actions emitted by the MCP prompt-argument modal.
pub enum McpPromptAction {
    CompleteArg { value: String },
}

/// Actions of the input area.
pub enum InputAction {
    Compose(ComposeAction),
    Command(CommandAction),
    Inspect(InspectAction),
    Status(StatusAction),
}

/// Editing the input.
pub enum ComposeAction {
    ToggleComposeMode,
    CancelFilePrompt,
    CancelMcpPromptInput,
    CancelInPlaceEdit,
    ClearInput,
    InsertIntoInput { text: String },
}

/// Submitting the input.
pub enum CommandAction {
    ProcessCommand { input: String },
    CompleteInPlaceEdit { index: usize, new_text: String },
    CompleteAssistantEdit { content: String },
}

/// Keys of the tool-call inspect view.
pub enum InspectAction {
    Open,
    ToggleView,
    Step { delta: i32 },
    Copy,
    ToggleDecode,
}

/// The status line.
pub enum StatusAction {
    SetStatus { message: String },
    ClearStatus,
}

/// What the file prompt shows after a write was tried, and whether it
/// closes.
pub struct FilePromptResult {
    pub status: String,
    pub close_prompt: bool,
}

/// The result of dumping the conversation to `filename`: done, or refused
/// because the file exists and overwriting was not asked for, or another
/// error.
pub open spec fn dump_result_spec(filename: Seq<char>, overwrite: bool, result: Result<(), String>) -> (
    Seq<char>,
    bool,
) {
    match result {
        Ok(()) => ("Dumped: "@ + filename, true),
        Err(e) => if seq_contains(e@, "exists"@) && !overwrite {
            ("File exists (Alt+Enter to overwrite)"@, false)
        } else {
            ("Dump error: "@ + e@, false)
        },
    }
}

/// What the prompt shows after the conversation was dumped to `filename`
/// (nothing for an empty name, which writes nothing); `result` is the
/// outcome of the write.
pub fn file_prompt_dump_result(filename: &str, overwrite: bool, result: &Result<(), String>) -> (r:
    Option<FilePromptResult>)
    ensures
        filename@.len() == 0 ==> r is None,
        filename@.len() > 0 ==> (r matches Some(f) && (f.status@, f.close_prompt) == dump_result_spec(
            filename@,
            overwrite,
            *result,
        )),
{
    if str_is_empty(filename) {
        return None;
    }
    match result {
        Ok(()) => Some(FilePromptResult { status: concat2("Dumped: ", filename), close_prompt: true }),
        Err(e) => {
            if contains_str(e.as_str(), "exists") && !overwrite {
                Some(
                    FilePromptResult {
                        status: str_to_string("File exists (Alt+Enter to overwrite)"),
                        close_prompt: false,
                    },
                )
            } else {
                Some(FilePromptResult { status: concat2("Dump error: ", e.as_str()), close_prompt: false })
            }
        },
    }
}

/// Whether a code block may be written to a file: not when the file
/// exists and overwriting was not asked for, in which case this is the
/// status to show.
pub fn file_prompt_save_refusal(exists: bool, overwrite: bool) -> (r: Option<String>)
    ensures
        (exists && !overwrite) ==> (r matches Some(m) && m@ == "File already exists."@),
        !(exists && !overwrite) ==> r is None,
{
    if exists && !overwrite {
        Some(str_to_string("File already exists."))
    } else {
        None
    }
}

/// What the prompt shows after a code block was written to `filename`
/// (nothing for an empty name, which writes nothing); `result` is the
/// outcome of the write.
pub fn file_prompt_save_result(filename: &str, result: &Result<(), String>) -> (r: Option<
    FilePromptResult,
>)
    ensures
        filename@.len() == 0 ==> r is None,
        filename@.len() > 0 ==> (r matches Some(f) && match result {
            Ok(()) => f.status@ == "Saved to "@ + filename@ && f.close_prompt,
            Err(_) => f.status@ == "Error saving code block"@ && !f.close_prompt,
        }),
{
    if str_is_empty(filename) {
        return None;
    }
    match result {
        Ok(()) => Some(FilePromptResult { status: concat2("Saved to ", filename), close_prompt: true }),
        Err(_) => Some(
            FilePromptResult { status: str_to_string("Error saving code block"), close_prompt: false },
        ),
    }
}

} // verus!
