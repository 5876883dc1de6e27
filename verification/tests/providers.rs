use gcop_rs::error::GcopError;
use gcop_rs::provider::{
    api_status_error, classify_network_error, default_max_tokens, extract_api_key,
    response_parse_error, select_api_style, status_is_success, validate_api_key, ProviderKind,
};

#[test]
fn test_select_api_style_by_name() {
    assert_eq!(select_api_style(None, "anthropic").unwrap(), ProviderKind::Anthropic);
    assert_eq!(select_api_style(None, "openai").unwrap(), ProviderKind::OpenAI);
    assert_eq!(select_api_style(None, "ollama").unwrap(), ProviderKind::Ollama);
}

#[test]
fn test_select_api_style_explicit_overrides_name() {
    let style = "openai".to_string();
    assert_eq!(select_api_style(Some(&style), "deepseek").unwrap(), ProviderKind::OpenAI);
}

#[test]
fn test_select_api_style_unknown_is_config_error() {
    let result = select_api_style(None, "mystery");
    assert!(matches!(result, Err(GcopError::Config(msg))
        if msg == "Unsupported api_style: 'mystery' for provider 'mystery'"));
}

#[test]
fn test_extract_api_key_explicit_wins() {
    let key = extract_api_key(
        Some("from-config".to_string()),
        Some("from-provider-env".to_string()),
        Some("from-family-env".to_string()),
        "ANTHROPIC_API_KEY",
        "Anthropic",
    );
    assert_eq!(key.unwrap(), "from-config");
}

#[test]
fn test_extract_api_key_env_fallback_order() {
    let key = extract_api_key(
        None,
        Some("from-provider-env".to_string()),
        Some("from-family-env".to_string()),
        "ANTHROPIC_API_KEY",
        "Anthropic",
    );
    assert_eq!(key.unwrap(), "from-provider-env");

    let key = extract_api_key(
        None,
        None,
        Some("from-family-env".to_string()),
        "ANTHROPIC_API_KEY",
        "Anthropic",
    );
    assert_eq!(key.unwrap(), "from-family-env");
}

#[test]
fn test_extract_api_key_missing_names_variable() {
    let result = extract_api_key(None, None, None, "ANTHROPIC_API_KEY", "Anthropic");
    assert!(matches!(result, Err(GcopError::Config(msg))
        if msg == "Anthropic API key not found. Set api_key in config.toml or ANTHROPIC_API_KEY environment variable"));
}

#[test]
fn test_validate_api_key() {
    assert!(validate_api_key("sk-something").is_ok());
    assert!(matches!(validate_api_key(""), Err(GcopError::Config(msg))
        if msg == "API key is empty"));
}

#[test]
fn test_classify_network_error_timeout() {
    let err = classify_network_error("Anthropic", true, false, "deadline exceeded");
    assert!(matches!(err, GcopError::Llm(msg)
        if msg == "Anthropic API request timeout: deadline exceeded. The request took too long to complete."));
}

#[test]
fn test_classify_network_error_connect() {
    let err = classify_network_error("OpenAI", false, true, "refused");
    assert!(matches!(err, GcopError::Llm(msg)
        if msg == "OpenAI API connection failed: refused. Check network connectivity or API endpoint."));
}

#[test]
fn test_classify_network_error_other_transport() {
    let err = classify_network_error("Ollama", false, false, "broken pipe");
    assert!(matches!(err, GcopError::Network(msg) if msg == "broken pipe"));
}

#[test]
fn test_status_is_success_range() {
    assert!(status_is_success(200));
    assert!(status_is_success(204));
    assert!(status_is_success(299));
    assert!(!status_is_success(199));
    assert!(!status_is_success(300));
    assert!(!status_is_success(404));
    assert!(!status_is_success(500));
}

#[test]
fn test_api_status_error_carries_status_and_body() {
    let err = api_status_error("Anthropic", "429 Too Many Requests", "slow down");
    assert!(matches!(err, GcopError::Llm(msg)
        if msg == "Anthropic API error (429 Too Many Requests): slow down"));
}

#[test]
fn test_response_parse_error_carries_raw_body() {
    let err = response_parse_error("OpenAI", "expected value", "<html>");
    assert!(matches!(err, GcopError::Llm(msg)
        if msg == "Failed to parse OpenAI response: expected value. Raw response: <html>"));
}

#[test]
fn test_default_max_tokens_value() {
    assert_eq!(default_max_tokens(), 2000);
}
