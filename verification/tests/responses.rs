use gcop_rs::error::GcopError;
use gcop_rs::response::{
    clean_json_response, extract_message_text, first_choice_content, fold_stream_chunks,
    parse_severity, truncate_for_preview, ContentBlock, IssueSeverity,
};

#[test]
fn test_clean_json_bare_object() {
    assert_eq!(clean_json_response("{\"a\": 1}"), "{\"a\": 1}");
}

#[test]
fn test_clean_json_fenced_object() {
    let wrapped = "```json\n{\"summary\": \"ok\"}\n```";
    assert_eq!(clean_json_response(wrapped), "{\"summary\": \"ok\"}");
}

#[test]
fn test_clean_json_leading_prose() {
    let wrapped = "Here is the review you asked for:\n{\"summary\": \"ok\"}";
    assert_eq!(clean_json_response(wrapped), "{\"summary\": \"ok\"}");
}

#[test]
fn test_clean_json_prose_and_bare_agree() {
    let body = "{\"summary\": \"fine\", \"issues\": []}";
    let wrapped = format!("Sure! Here it is:\n{}\nHope that helps.", body);
    assert_eq!(clean_json_response(&wrapped), clean_json_response(body));
}

#[test]
fn test_clean_json_fence_without_language_tag() {
    let wrapped = "```\nplain text\n```";
    assert_eq!(clean_json_response(wrapped), "plain text");
}

#[test]
fn test_clean_json_trims_whitespace() {
    assert_eq!(clean_json_response("   \n{\"k\":2}\t \n"), "{\"k\":2}");
}

#[test]
fn test_truncate_for_preview_short_input() {
    assert_eq!(truncate_for_preview("short"), "short");
}

#[test]
fn test_truncate_for_preview_long_input() {
    let long = "x".repeat(600);
    let preview = truncate_for_preview(&long);
    assert_eq!(preview.len(), 503);
    assert!(preview.ends_with("..."));
    assert_eq!(&preview[..500], &long[..500]);
}

#[test]
fn test_parse_severity_values() {
    assert!(matches!(parse_severity("critical"), Some(IssueSeverity::Critical)));
    assert!(matches!(parse_severity("warning"), Some(IssueSeverity::Warning)));
    assert!(matches!(parse_severity("info"), Some(IssueSeverity::Info)));
    assert!(parse_severity("fatal").is_none());
    assert!(parse_severity("Critical").is_none());
}

#[test]
fn test_extract_message_text_joins_text_blocks() {
    let blocks = vec![
        ContentBlock { content_type: "text".to_string(), text: "first".to_string() },
        ContentBlock { content_type: "tool_use".to_string(), text: "skipped".to_string() },
        ContentBlock { content_type: "text".to_string(), text: "second".to_string() },
    ];
    assert_eq!(extract_message_text(&blocks), "first\nsecond");
}

#[test]
fn test_extract_message_text_empty() {
    let blocks: Vec<ContentBlock> = vec![];
    assert_eq!(extract_message_text(&blocks), "");
}

#[test]
fn test_first_choice_content_takes_first() {
    let choices = vec!["one".to_string(), "two".to_string()];
    assert_eq!(first_choice_content(choices).unwrap(), "one");
}

#[test]
fn test_first_choice_content_empty_is_distinct_error() {
    let result = first_choice_content(vec![]);
    assert!(matches!(result, Err(GcopError::Llm(msg))
        if msg == "OpenAI response contains no choices"));
}

#[test]
fn test_fold_stream_chunks() {
    let chunks = vec!["feat: ".to_string(), "add ".to_string(), "login".to_string()];
    assert_eq!(fold_stream_chunks(&chunks), "feat: add login");
}
