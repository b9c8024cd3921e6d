use chabeau::actions::{file_prompt_dump_result, file_prompt_save_refusal, file_prompt_save_result};

#[test]
fn dump_success_sets_status_and_closes_prompt() {
    let r = file_prompt_dump_result("chat.md", false, &Ok(())).expect("a result");
    assert_eq!(r.status, "Dumped: chat.md");
    assert!(r.close_prompt);
}

#[test]
fn dump_of_existing_file_without_overwrite_asks_for_it() {
    let r = file_prompt_dump_result("chat.md", false, &Err("File chat.md already exists".to_string()))
        .expect("a result");
    assert_eq!(r.status, "File exists (Alt+Enter to overwrite)");
    assert!(!r.close_prompt);
}

#[test]
fn dump_error_is_reported_when_overwriting() {
    let r = file_prompt_dump_result("chat.md", true, &Err("File chat.md already exists".to_string()))
        .expect("a result");
    assert_eq!(r.status, "Dump error: File chat.md already exists");
    assert!(!r.close_prompt);
}

#[test]
fn empty_file_name_does_nothing() {
    assert!(file_prompt_dump_result("", false, &Ok(())).is_none());
    assert!(file_prompt_save_result("", &Ok(())).is_none());
}

#[test]
fn save_block_refuses_existing_file_unless_overwriting() {
    assert_eq!(file_prompt_save_refusal(true, false).as_deref(), Some("File already exists."));
    assert!(file_prompt_save_refusal(true, true).is_none());
    assert!(file_prompt_save_refusal(false, false).is_none());
}

#[test]
fn save_block_reports_outcome() {
    let ok = file_prompt_save_result("snippet.rs", &Ok(())).expect("a result");
    assert_eq!(ok.status, "Saved to snippet.rs");
    assert!(ok.close_prompt);
    let err = file_prompt_save_result("snippet.rs", &Err("denied".to_string())).expect("a result");
    assert_eq!(err.status, "Error saving code block");
    assert!(!err.close_prompt);
}
