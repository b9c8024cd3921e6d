use chabeau::actions::UiMode;
use chabeau::conversation::{ConversationController, PromptTexts, ScrollTarget, UiState};
use chabeau::layout::{calculate_input_area_height, calculate_max_scroll_offset, update_input_scroll};
use chabeau::session::SessionContext;

fn view() -> UiState {
    UiState {
        messages: Vec::new(),
        current_response: String::new(),
        status: None,
        auto_scroll: true,
        scroll_target: ScrollTarget::Keep,
        scroll_offset: 0,
        mode: UiMode::Typing,
        compose_mode: false,
        input: String::new(),
        input_cursor_position: 0,
        input_scroll_offset: 0,
    }
}

#[test]
fn test_page_up_down_and_home_end_behavior() {
    let mut ui = view();
    let c = ConversationController::new(
        SessionContext::uninitialized(String::new(), String::new()),
        view(),
        PromptTexts { system_prompt: String::new(), post_history: None, greeting: None },
    );
    // Fifty one-line messages with a blank line after each, as rendered.
    let total_lines: u16 = 100;
    let available_height = c.calculate_available_height(24, 3);

    let max_scroll = calculate_max_scroll_offset(total_lines, available_height);
    assert!(max_scroll > 0);

    let step = available_height.saturating_sub(1);
    ui.scroll_offset = (step * 2).min(max_scroll);

    let before = ui.scroll_offset;
    ui.page_up(available_height);
    let after_up = ui.scroll_offset;
    assert_eq!(after_up, before.saturating_sub(step));
    assert!(!ui.auto_scroll);

    ui.page_down(available_height, total_lines);
    let after_down = ui.scroll_offset;
    assert!(after_down >= after_up);
    assert!(after_down <= max_scroll);
    assert!(!ui.auto_scroll);

    ui.scroll_to_top();
    assert_eq!(ui.scroll_offset, 0);
    assert!(!ui.auto_scroll);

    ui.scroll_to_bottom_view(available_height, total_lines);
    assert_eq!(ui.scroll_offset, max_scroll);
    assert!(ui.auto_scroll);
}

#[test]
fn test_update_input_scroll_keeps_cursor_visible() {
    // The long line wraps into ten lines; only two are visible and the
    // cursor is on the last.
    let offset = update_input_scroll(0, 2, 10, 9);
    assert!(offset > 0);
    assert_eq!(offset, 8);
}

#[test]
fn test_recompute_input_layout_after_edit_updates_scroll() {
    let height = calculate_input_area_height(false, 12, false);
    assert_eq!(height, 6);
    let offset = update_input_scroll(0, height, 12, 11);
    assert!(offset > 0);
    let offset = update_input_scroll(offset, height, 12, 0);
    assert_eq!(offset, 0);
}

#[test]
fn available_height_leaves_room_for_input_borders_and_title() {
    let c = ConversationController::new(
        SessionContext::uninitialized(String::new(), String::new()),
        view(),
        PromptTexts { system_prompt: String::new(), post_history: None, greeting: None },
    );
    assert_eq!(c.calculate_available_height(24, 3), 18);
    assert_eq!(c.calculate_available_height(4, 3), 0);
}

#[test]
fn input_area_grows_from_one_to_six_rows() {
    assert_eq!(calculate_input_area_height(true, 0, false), 1);
    assert_eq!(calculate_input_area_height(false, 1, false), 1);
    assert_eq!(calculate_input_area_height(false, 1, true), 2);
    assert_eq!(calculate_input_area_height(false, 4, false), 4);
    assert_eq!(calculate_input_area_height(false, 40, false), 6);
}

#[test]
fn following_output_keeps_the_last_line_in_view() {
    let mut ui = view();
    ui.update_scroll_position(10, 25);
    assert_eq!(ui.scroll_offset, 15);
    ui.update_scroll_position(10, 5);
    assert_eq!(ui.scroll_offset, 0);
    ui.scroll_to_top();
    ui.update_scroll_position(10, 25);
    assert_eq!(ui.scroll_offset, 0);
}
