use openchat::audit_line::LogValue;
use openchat::export::{
    chat_csv, chat_json_items, key_chord, keys_csv, keys_json_items, push_csv_field, KeyboardRecorder,
};
use openchat::ollama::OllamaStatus;
use openchat::session::{
    can_send_test_prompt, export_file_name, format_label, input_enabled_in, model_choice_label,
    not_running_notice, plan_chat_message, select_ollama_model_notice, server_button_label,
    status_label, test_panel_note, test_prompt_notice, toggle_server, token_limit, ChatPlan,
    ChatUseMode, DownloadFormat, ExportKind, PanelSettings, ServerStatus, DEFAULT_TOKEN_LIMIT,
};

fn unquote(field: &str) -> String {
    field[1..field.len() - 1].replace("\"\"", "\"")
}

#[test]
fn csv_fields_double_quotes() {
    let mut out = String::new();
    push_csv_field(&mut out, "say \"hi\"");
    assert_eq!(out, "\"say \"\"hi\"\"\"");
    let mut out = String::new();
    push_csv_field(&mut out, "");
    assert_eq!(out, "\"\"");
}

#[test]
fn csv_field_reads_back() {
    for s in ["", "a,b", "\"", "x\"\"y", "multi\nline"] {
        let mut out = String::new();
        push_csv_field(&mut out, s);
        assert_eq!(unquote(&out), s);
    }
}

#[test]
fn chat_csv_export() {
    let rows = vec![
        ("10:00:00".to_string(), "Human".to_string(), "hi, \"you\"".to_string()),
        ("--:--:--".to_string(), "Unknown".to_string(), "x".to_string()),
    ];
    assert_eq!(
        chat_csv(&rows),
        "timestamp,from,content\n\"10:00:00\",\"Human\",\"hi, \"\"you\"\"\"\n\"--:--:--\",\"Unknown\",\"x\"\n"
    );
    assert_eq!(chat_csv(&vec![]), "timestamp,from,content\n");
}

#[test]
fn keyboard_csv_export() {
    let rows = vec![("01:02:03".to_string(), "Ctrl+A".to_string())];
    assert_eq!(keys_csv(&rows), "timestamp,stroke\n\"01:02:03\",\"Ctrl+A\"\n");
}

#[test]
fn key_chords() {
    assert_eq!(key_chord(false, false, false, false, false, "A"), "A");
    assert_eq!(key_chord(true, true, true, false, true, "Enter"), "Ctrl+Alt+Shift+Cmd+Enter");
    assert_eq!(key_chord(false, false, true, true, false, "Tab"), "Shift+Cmd+Tab");
}

#[test]
fn keyboard_recorder() {
    let mut k = KeyboardRecorder::new();
    assert!(!k.is_recording());
    assert_eq!(k.button_label(), "Record Keyboard");
    k.record_text("ignored".to_string());
    assert!(k.entries().is_empty());
    k.toggle();
    assert!(k.is_recording());
    assert_eq!(k.button_label(), "Stop Recording");
    k.record_text("a".to_string());
    k.record_text(String::new());
    k.record_key(true, false, false, false, false, "C");
    assert_eq!(k.entries().len(), 2);
    assert_eq!(k.entries()[0].1, "a");
    assert_eq!(k.entries()[1].1, "Ctrl+C");
    assert_eq!(k.entries()[1].0.len(), 8);
    k.toggle();
    assert_eq!(k.entries().len(), 2);
    assert!(k.to_csv().starts_with("timestamp,stroke\n"));
    k.toggle();
    assert!(k.entries().is_empty());
}

#[test]
fn chat_plans() {
    assert_eq!(plan_chat_message("", OllamaStatus::Running), ChatPlan::SelectModel);
    assert_eq!(plan_chat_message("llama3", OllamaStatus::Running), ChatPlan::Ask);
    assert_eq!(plan_chat_message("llama3", OllamaStatus::Stopped), ChatPlan::NotRunning);
    assert_eq!(plan_chat_message("llama3", OllamaStatus::Checking), ChatPlan::NotRunning);
    assert_eq!(select_ollama_model_notice().content, "Please select Ollama Model.");
    assert_eq!(not_running_notice().content, "Ollama is not running. Please check Ollama status.");
    assert_eq!(test_prompt_notice("ping").content, "Testing Ollama API: ping");
}

#[test]
fn settings_helpers() {
    assert_eq!(token_limit(true, 70), Some(70));
    assert_eq!(token_limit(false, 70), None);
    assert!(input_enabled_in(ChatUseMode::HumanAi));
    assert!(!input_enabled_in(ChatUseMode::AiAi));
    assert!(can_send_test_prompt(OllamaStatus::Running, "m", " hi "));
    assert!(!can_send_test_prompt(OllamaStatus::Running, "m", "  "));
    assert!(!can_send_test_prompt(OllamaStatus::Running, "", "hi"));
    assert!(!can_send_test_prompt(OllamaStatus::Stopped, "m", "hi"));
    assert_eq!(model_choice_label(""), "Select model");
    assert_eq!(model_choice_label("llama3"), "llama3");
    assert_eq!(status_label(OllamaStatus::Checking), "● Checking");
    assert_eq!(test_panel_note(OllamaStatus::Running, true), None);
    assert_eq!(test_panel_note(OllamaStatus::Running, false), Some("No models available"));
    assert_eq!(test_panel_note(OllamaStatus::Stopped, true), Some("Not installed"));
    assert_eq!(test_panel_note(OllamaStatus::Checking, false), Some("Checking..."));
    assert_eq!(toggle_server(true), (false, ServerStatus::Stopped));
    assert_eq!(toggle_server(false), (true, ServerStatus::Running));
    assert_eq!(server_button_label(true), "OFF");
    assert_eq!(server_button_label(false), "ON");
    assert_eq!(export_file_name(ExportKind::Chat, DownloadFormat::Csv), "chat-export.csv");
    assert_eq!(export_file_name(ExportKind::Keyboard, DownloadFormat::Json), "keyboard-input-export.json");
    assert_eq!(format_label(DownloadFormat::Json), "JSON");
}

fn text_fields(fields: &[(&'static str, LogValue)]) -> Vec<(String, String)> {
    fields
        .iter()
        .map(|(k, v)| match v {
            LogValue::Text(t) => (k.to_string(), t.clone()),
            _ => panic!("not a text field"),
        })
        .collect()
}

#[test]
fn chat_json_export_items() {
    let rows = vec![
        ("10:00:00".to_string(), "Human".to_string(), "hi".to_string()),
        ("2024-01-02T03:04:05Z".to_string(), "Agent 1".to_string(), "yo".to_string()),
    ];
    let items = chat_json_items(&rows);
    assert_eq!(items.len(), 2);
    assert_eq!(
        text_fields(&items[0]),
        vec![
            ("content".to_string(), "hi".to_string()),
            ("from".to_string(), "Human".to_string()),
            ("timestamp".to_string(), "10:00:00".to_string()),
        ]
    );
    assert_eq!(text_fields(&items[1])[2].1, "2024-01-02T03:04:05Z");
    assert!(chat_json_items(&Vec::new()).is_empty());
}

#[test]
fn keyboard_json_export_items() {
    let entries = vec![("10:00:01".to_string(), "Ctrl+A".to_string())];
    let items = keys_json_items(&entries);
    assert_eq!(items.len(), 1);
    assert_eq!(
        text_fields(&items[0]),
        vec![
            ("stroke".to_string(), "Ctrl+A".to_string()),
            ("timestamp".to_string(), "10:00:01".to_string()),
        ]
    );
}

#[test]
fn panels_start_with_the_initial_settings() {
    let s = PanelSettings::initial();
    assert_eq!(s.server_status, ServerStatus::Running);
    assert!(s.server_enabled);
    assert_eq!(DEFAULT_TOKEN_LIMIT, 70);
    assert_eq!(s.ollama_token_limit, 70);
    assert!(!s.ollama_token_limit_enabled);
    assert_eq!(s.chat_token_limit, 70);
    assert!(!s.chat_token_limit_enabled);
    assert_eq!(s.chat_use_mode, ChatUseMode::HumanAi);
    assert_eq!(s.download_chat_format, DownloadFormat::Json);
    assert_eq!(s.download_keyboard_format, DownloadFormat::Json);
}
