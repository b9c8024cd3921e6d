use chabeau::actions::{FilePromptKind, UiMode};
use chabeau::conversation::{Message, ScrollTarget, TranscriptRole, UiState};

fn ui() -> UiState {
    UiState {
        messages: Vec::new(),
        current_response: String::new(),
        status: None,
        auto_scroll: true,
        scroll_target: ScrollTarget::Keep,
        scroll_offset: 0,
        mode: UiMode::Typing,
        compose_mode: false,
        input: String::new(),
        input_cursor_position: 0,
        input_scroll_offset: 0,
    }
}

#[test]
fn test_set_input_text_places_cursor_at_end() {
    let mut app = ui();
    let text = String::from("line1\nline2");
    let area = app.set_input_text(text.clone());
    // Linear cursor at end
    assert_eq!(app.input_cursor_position, text.chars().count());
    // Text area cursor at end (last row/col)
    let (row, col) = (area.cursor_row, area.cursor_col);
    let lines = &area.lines;
    assert_eq!(row, lines.len() - 1);
    assert_eq!(col, lines.last().unwrap().chars().count());
}

#[test]
fn test_sync_cursor_mapping_single_and_multi_line() {
    let mut app = ui();

    // Single line: cursor at the end
    let area = app.set_input_text("hello world".to_string());
    app.sync_input_from_textarea(&area.lines, 0, 11);
    assert_eq!(app.get_input_text(), "hello world");
    assert_eq!(app.input_cursor_position, 11);

    // Multi-line: (row=1, col=3) => after "wor" on second line
    let area = app.set_input_text("hello\nworld".to_string());
    app.sync_input_from_textarea(&area.lines, 1, 3);
    // 5 (hello) + 1 (\n) + 3 = 9
    assert_eq!(app.input_cursor_position, 9);
}

#[test]
fn sync_clamps_column_and_row() {
    let mut app = ui();
    let lines = vec!["asdf".to_string(), String::new(), "asdf".to_string()];
    app.sync_input_from_textarea(&lines, 1, 7);
    assert_eq!(app.get_input_text(), "asdf\n\nasdf");
    assert_eq!(app.input_cursor_position, 5);
    app.sync_input_from_textarea(&lines, 9, 0);
    assert_eq!(app.input_cursor_position, 10);
}

#[test]
fn empty_text_gives_no_lines() {
    let mut app = ui();
    app.set_input_text("abc".to_string());
    let area = app.clear_input();
    assert!(area.lines.is_empty());
    assert_eq!((area.cursor_row, area.cursor_col), (0, 0));
    assert_eq!(app.get_input_text(), "");
    assert_eq!(app.input_cursor_position, 0);
}

#[test]
fn trailing_newline_gives_empty_last_line() {
    let mut app = ui();
    let area = app.set_input_text("ab\n".to_string());
    assert_eq!(area.lines, vec!["ab".to_string(), String::new()]);
    assert_eq!((area.cursor_row, area.cursor_col), (1, 0));
    assert_eq!(app.input_cursor_position, 3);
}

#[test]
fn edit_select_picks_last_user_message() {
    let mut app = ui();
    app.enter_edit_select_mode();
    assert!(matches!(app.mode, UiMode::Typing));
    app.messages.push(Message::new(TranscriptRole::User, "one".to_string()));
    app.messages.push(Message::new(TranscriptRole::User, "two".to_string()));
    app.messages.push(Message::new(TranscriptRole::Assistant, "reply".to_string()));
    app.enter_edit_select_mode();
    assert!(app.in_edit_select_mode());
    assert!(!app.is_input_active());
    assert_eq!(app.selected_user_message_index(), Some(1));
    app.set_selected_user_message_index(0);
    assert_eq!(app.selected_user_message_index(), Some(0));
    app.exit_edit_select_mode();
    assert!(app.is_input_active());
    assert_eq!(app.selected_user_message_index(), None);
}

#[test]
fn block_select_round_trip() {
    let mut app = ui();
    app.set_selected_block_index(4);
    assert_eq!(app.selected_block_index(), None);
    app.enter_block_select_mode(2);
    assert!(app.in_block_select_mode());
    app.set_selected_block_index(4);
    assert_eq!(app.selected_block_index(), Some(4));
    app.exit_block_select_mode();
    assert!(!app.in_block_select_mode());
    assert!(matches!(app.mode, UiMode::Typing));
}

#[test]
fn file_prompts_set_text_and_cancel_clears_it() {
    let mut app = ui();
    app.start_file_prompt_save_block("snippet.rs".to_string(), "fn main() {}".to_string());
    let prompt = app.file_prompt().expect("prompt open");
    assert_eq!(prompt.kind, FilePromptKind::SaveCodeBlock);
    assert_eq!(prompt.content.as_deref(), Some("fn main() {}"));
    assert_eq!(app.get_input_text(), "snippet.rs");
    assert_eq!(app.input_cursor_position, 10);
    assert!(app.is_input_active());
    app.cancel_file_prompt();
    assert!(app.file_prompt().is_none());
    assert_eq!(app.get_input_text(), "");

    app.start_file_prompt_dump("dump.txt".to_string());
    assert_eq!(app.file_prompt().map(|p| p.kind), Some(FilePromptKind::Dump));
}

#[test]
fn take_in_place_edit_index_returns_to_typing() {
    let mut app = ui();
    assert_eq!(app.take_in_place_edit_index(), None);
    app.start_in_place_edit(3);
    assert_eq!(app.in_place_edit_index(), Some(3));
    assert_eq!(app.take_in_place_edit_index(), Some(3));
    assert!(matches!(app.mode, UiMode::Typing));
    app.start_in_place_edit(1);
    app.cancel_in_place_edit();
    assert_eq!(app.in_place_edit_index(), None);
}

#[test]
fn compose_mode_toggles() {
    let mut app = ui();
    app.toggle_compose_mode();
    assert!(app.compose_mode);
    app.toggle_compose_mode();
    assert!(!app.compose_mode);
}
