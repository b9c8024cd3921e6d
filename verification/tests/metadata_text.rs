use chabeau::text::{sanitize_picker_metadata, sanitize_picker_metadata_for_inspect};

#[test]
fn test_sanitize_picker_metadata_removes_newlines() {
    let input = "Line 1\nLine 2\nLine 3";
    let result = sanitize_picker_metadata(input);
    assert_eq!(result, "Line 1 Line 2 Line 3");
    let inspect = sanitize_picker_metadata_for_inspect(input);
    assert_eq!(inspect, "Line 1\nLine 2\nLine 3");
}

#[test]
fn test_sanitize_picker_metadata_removes_carriage_returns() {
    let input = "Line 1\r\nLine 2\r\nLine 3";
    let result = sanitize_picker_metadata(input);
    assert_eq!(result, "Line 1 Line 2 Line 3");
    let inspect = sanitize_picker_metadata_for_inspect(input);
    assert_eq!(inspect, "Line 1\nLine 2\nLine 3");
}

#[test]
fn test_sanitize_picker_metadata_collapses_whitespace() {
    let input = "Too    many     spaces";
    let result = sanitize_picker_metadata(input);
    assert_eq!(result, "Too many spaces");
    let inspect = sanitize_picker_metadata_for_inspect(input);
    assert_eq!(inspect, "Too    many     spaces");
}

#[test]
fn test_sanitize_picker_metadata_removes_control_chars() {
    let input = "Text\twith\ttabs\x00and\x01control\x02chars";
    let result = sanitize_picker_metadata(input);
    assert_eq!(result, "Text with tabs and control chars");
    let inspect = sanitize_picker_metadata_for_inspect(input);
    assert_eq!(inspect, "Textwithtabsandcontrolchars");
}

#[test]
fn test_sanitize_picker_metadata_handles_mixed_whitespace() {
    let input = "Mixed\n\r\t  whitespace\n\n\nhere";
    let result = sanitize_picker_metadata(input);
    assert_eq!(result, "Mixed whitespace here");
    let inspect = sanitize_picker_metadata_for_inspect(input);
    assert_eq!(inspect, "Mixed\n  whitespace\n\n\nhere");
}

#[test]
fn test_sanitize_picker_metadata_preserves_normal_text() {
    let input = "Normal text with spaces";
    let result = sanitize_picker_metadata(input);
    assert_eq!(result, "Normal text with spaces");
    let inspect = sanitize_picker_metadata_for_inspect(input);
    assert_eq!(inspect, "Normal text with spaces");
}

#[test]
fn test_sanitize_picker_metadata_handles_empty_string() {
    let input = "";
    let result = sanitize_picker_metadata(input);
    assert_eq!(result, "");
    let inspect = sanitize_picker_metadata_for_inspect(input);
    assert_eq!(inspect, "");
}

#[test]
fn test_sanitize_picker_metadata_handles_only_whitespace() {
    let input = "\n\r\t   \n";
    let result = sanitize_picker_metadata(input);
    assert_eq!(result, "");
    let inspect = sanitize_picker_metadata_for_inspect(input);
    assert_eq!(inspect, "");
}
