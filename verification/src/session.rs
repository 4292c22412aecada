//! The settings of the main window and the decisions it takes on them:
//! which model a chat line goes to, token limits, export names.

use vstd::prelude::*;
use vstd::string::{StrSliceExecFns, StringExecFns};
use crate::text::{is_blank, blank, concat};
use crate::chat::{ChatMessage, is_system_line, system_message};
use crate::ollama::OllamaStatus;

verus! {

/// Who converses in the chat panel.
#[derive(Clone, Copy, Debug, PartialEq, Eq, Structural)]
pub enum ChatUseMode {
    /// A person talks with a model: the input line is enabled.
    HumanAi,
    /// Agents talk among themselves: the input line is disabled.
    AiAi,
}

/// Whether the input line takes input in a mode.
pub fn input_enabled_in(mode: ChatUseMode) -> (b: bool)
    ensures
        b == (mode == ChatUseMode::HumanAi),
{
    match mode {
        ChatUseMode::HumanAi => true,
        ChatUseMode::AiAi => false,
    }
}

/// The token limit passed to the model: the chosen limit where it is
/// switched on.
pub fn token_limit(enabled: bool, limit: i32) -> (r: Option<i32>)
    ensures
        r == if enabled {
            Some(limit)
        } else {
            None
        },
{
    if enabled {
        Some(limit)
    } else {
        None
    }
}

/// What to do with a line the person sent.
#[derive(Clone, Copy, Debug, PartialEq, Eq, Structural)]
pub enum ChatPlan {
    /// No model is chosen: ask for one.
    SelectModel,
    /// Send it to the chosen model.
    Ask,
    /// The model server is not running: say so.
    NotRunning,
}

/// The plan for a sent line: a model must be chosen, and the server must be
/// running.
pub open spec fn chat_plan_of(model: Seq<char>, status: OllamaStatus) -> ChatPlan {
    if model.len() == 0 {
        ChatPlan::SelectModel
    } else if status == OllamaStatus::Running {
        ChatPlan::Ask
    } else {
        ChatPlan::NotRunning
    }
}

/// The plan for a line the person sent.
pub fn plan_chat_message(selected_model: &str, status: OllamaStatus) -> (p: ChatPlan)
    ensures
        p == chat_plan_of(selected_model@, status),
{
    if selected_model.unicode_len() == 0 {
        ChatPlan::SelectModel
    } else if status == OllamaStatus::Running {
        ChatPlan::Ask
    } else {
        ChatPlan::NotRunning
    }
}

/// The notice that asks for a model.
pub fn select_ollama_model_notice() -> (m: ChatMessage)
    ensures
        is_system_line(m, "Please select Ollama Model."@),
{
    system_message("Please select Ollama Model.")
}

/// The notice that the model server is not running.
pub fn not_running_notice() -> (m: ChatMessage)
    ensures
        is_system_line(m, "Ollama is not running. Please check Ollama status."@),
{
    system_message("Ollama is not running. Please check Ollama status.")
}

/// The notice shown when a test prompt is sent to the model server.
pub fn test_prompt_notice(prompt: &str) -> (m: ChatMessage)
    ensures
        is_system_line(m, "Testing Ollama API: "@ + prompt@),
{
    let text = concat("Testing Ollama API: ", prompt);
    system_message(text.as_str())
}

/// Whether a test prompt can be sent: the server runs, a model is chosen
/// and the prompt is not blank.
pub fn can_send_test_prompt(status: OllamaStatus, model: &str, prompt: &str) -> (b: bool)
    ensures
        b == (status == OllamaStatus::Running && model@.len() > 0 && !is_blank(prompt@)),
{
    status == OllamaStatus::Running && model.unicode_len() > 0 && !blank(prompt)
}

/// The text of a model selector: the chosen model, or a prompt to choose.
pub fn model_choice_label(model: &str) -> (s: String)
    ensures
        s@ == if model@.len() == 0 {
            "Select model"@
        } else {
            model@
        },
{
    if model.unicode_len() == 0 {
        String::from_str("Select model")
    } else {
        String::from_str(model)
    }
}

/// The status line of the model server.
pub fn status_label(status: OllamaStatus) -> (s: &'static str)
    ensures
        s@ == (match status {
            OllamaStatus::Running => "● Running"@,
            OllamaStatus::Stopped => "● Stopped"@,
            OllamaStatus::Checking => "● Checking"@,
        }),
{
    match status {
        OllamaStatus::Running => "● Running",
        OllamaStatus::Stopped => "● Stopped",
        OllamaStatus::Checking => "● Checking",
    }
}

/// What the test panel shows in place of the model selector; `None` where
/// the selector is shown (the server runs and lists models).
pub fn test_panel_note(status: OllamaStatus, has_models: bool) -> (r: Option<&'static str>)
    ensures
        status == OllamaStatus::Running && has_models ==> r is None,
        !(status == OllamaStatus::Running && has_models) ==> (r matches Some(s) && s@ == (
        match status {
            OllamaStatus::Stopped => "Not installed"@,
            OllamaStatus::Checking => "Checking..."@,
            OllamaStatus::Running => "No models available"@,
        })),
{
    if status == OllamaStatus::Running && has_models {
        None
    } else if status == OllamaStatus::Stopped {
        Some("Not installed")
    } else if status == OllamaStatus::Checking {
        Some("Checking...")
    } else {
        Some("No models available")
    }
}

/// Whether the HTTP API takes requests.
#[derive(Clone, Copy, Debug, PartialEq, Eq, Structural)]
pub enum ServerStatus {
    Running,
    Stopped,
}

/// Switches the HTTP API on or off: the new setting and the status shown.
pub fn toggle_server(enabled: bool) -> (r: (bool, ServerStatus))
    ensures
        r.0 == !enabled,
        r.1 == if r.0 {
            ServerStatus::Running
        } else {
            ServerStatus::Stopped
        },
{
    let now = !enabled;
    (now, if now {
        ServerStatus::Running
    } else {
        ServerStatus::Stopped
    })
}

/// The label of the button that switches the HTTP API: what it turns it to.
pub fn server_button_label(enabled: bool) -> (s: &'static str)
    ensures
        s@ == if enabled {
            "OFF"@
        } else {
            "ON"@
        },
{
    if enabled {
        "OFF"
    } else {
        "ON"
    }
}

/// The format of an export.
#[derive(Clone, Copy, Debug, PartialEq, Eq, Structural)]
pub enum DownloadFormat {
    Json,
    Csv,
}

/// What is exported.
#[derive(Clone, Copy, Debug, PartialEq, Eq, Structural)]
pub enum ExportKind {
    Chat,
    Keyboard,
}

/// The file name proposed for an export.
pub fn export_file_name(kind: ExportKind, format: DownloadFormat) -> (s: &'static str)
    ensures
        s@ == (match (kind, format) {
            (ExportKind::Chat, DownloadFormat::Json) => "chat-export.json"@,
            (ExportKind::Chat, DownloadFormat::Csv) => "chat-export.csv"@,
            (ExportKind::Keyboard, DownloadFormat::Json) => "keyboard-input-export.json"@,
            (ExportKind::Keyboard, DownloadFormat::Csv) => "keyboard-input-export.csv"@,
        }),
{
    match (kind, format) {
        (ExportKind::Chat, DownloadFormat::Json) => "chat-export.json",
        (ExportKind::Chat, DownloadFormat::Csv) => "chat-export.csv",
        (ExportKind::Keyboard, DownloadFormat::Json) => "keyboard-input-export.json",
        (ExportKind::Keyboard, DownloadFormat::Csv) => "keyboard-input-export.csv",
    }
}

/// The name of a format in the format selector.
pub fn format_label(format: DownloadFormat) -> (s: &'static str)
    ensures
        s@ == (match format {
            DownloadFormat::Json => "JSON"@,
            DownloadFormat::Csv => "CSV"@,
        }),
{
    match format {
        DownloadFormat::Json => "JSON",
        DownloadFormat::Csv => "CSV",
    }
}

/// The settings of the panels when a session starts.
pub struct PanelSettings {
    pub server_status: ServerStatus,
    pub server_enabled: bool,
    pub ollama_token_limit: i32,
    pub ollama_token_limit_enabled: bool,
    pub chat_token_limit: i32,
    pub chat_token_limit_enabled: bool,
    pub chat_use_mode: ChatUseMode,
    pub download_chat_format: DownloadFormat,
    pub download_keyboard_format: DownloadFormat,
}

/// The limit offered for the model's answer, in tokens, before it is changed.
pub const DEFAULT_TOKEN_LIMIT: i32 = 70;

impl PanelSettings {
    /// The start: the server runs (it starts before the window) and takes
    /// posts; both token limits are 70 and off; the chat is between a
    /// person and the model; both exports are JSON.
    pub fn initial() -> (s: Self)
        ensures
            s.server_status == ServerStatus::Running,
            s.server_enabled,
            s.ollama_token_limit == DEFAULT_TOKEN_LIMIT,
            !s.ollama_token_limit_enabled,
            s.chat_token_limit == DEFAULT_TOKEN_LIMIT,
            !s.chat_token_limit_enabled,
            s.chat_use_mode == ChatUseMode::HumanAi,
            s.download_chat_format == DownloadFormat::Json,
            s.download_keyboard_format == DownloadFormat::Json,
    {
        PanelSettings {
            server_status: ServerStatus::Running,
            server_enabled: true,
            ollama_token_limit: DEFAULT_TOKEN_LIMIT,
            ollama_token_limit_enabled: false,
            chat_token_limit: DEFAULT_TOKEN_LIMIT,
            chat_token_limit_enabled: false,
            chat_use_mode: ChatUseMode::HumanAi,
            download_chat_format: DownloadFormat::Json,
            download_keyboard_format: DownloadFormat::Json,
        }
    }
}

} // verus!
