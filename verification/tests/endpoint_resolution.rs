use gcop_rs::endpoint::{build_endpoint, complete_endpoint, is_complete_api_path};

#[test]
fn test_complete_endpoint_basic() {
    assert_eq!(
        complete_endpoint("https://api.deepseek.com", "/v1/chat/completions"),
        "https://api.deepseek.com/v1/chat/completions"
    );
}

#[test]
fn test_complete_endpoint_with_trailing_slash() {
    assert_eq!(
        complete_endpoint("https://api.deepseek.com/", "/v1/chat/completions"),
        "https://api.deepseek.com/v1/chat/completions"
    );
}

#[test]
fn test_complete_endpoint_already_complete() {
    assert_eq!(
        complete_endpoint("https://api.deepseek.com/v1/chat/completions", "/v1/chat/completions"),
        "https://api.deepseek.com/v1/chat/completions"
    );
}

#[test]
fn test_complete_endpoint_with_version_only() {
    assert_eq!(
        complete_endpoint("https://api.deepseek.com/v1", "/v1/chat/completions"),
        "https://api.deepseek.com/v1/chat/completions"
    );
}

#[test]
fn test_complete_endpoint_custom_path() {
    assert_eq!(
        complete_endpoint("https://custom.com/my/custom/path", "/v1/chat/completions"),
        "https://custom.com/my/custom/path"
    );
}

#[test]
fn test_is_complete_api_path() {
    assert!(is_complete_api_path("https://api.com/v1/chat"));
    assert!(is_complete_api_path("http://localhost:11434/api/generate"));

    assert!(!is_complete_api_path("https://api.com"));
    assert!(!is_complete_api_path("https://api.com/"));
    assert!(!is_complete_api_path("https://api.com/v1"));
}

#[test]
fn test_ollama_localhost() {
    assert_eq!(
        complete_endpoint("http://localhost:11434", "/api/generate"),
        "http://localhost:11434/api/generate"
    );
}

#[test]
fn test_anthropic_endpoint() {
    assert_eq!(
        complete_endpoint("https://api.anthropic.com", "/v1/messages"),
        "https://api.anthropic.com/v1/messages"
    );

    assert_eq!(
        complete_endpoint("https://cc.autobits.cc", "/v1/messages"),
        "https://cc.autobits.cc/v1/messages"
    );
}

#[test]
fn test_suffix_variations() {
    assert_eq!(complete_endpoint("https://api.com", "/v1/test"), "https://api.com/v1/test");

    assert_eq!(complete_endpoint("https://api.com", "v1/test"), "https://api.com/v1/test");
}

#[test]
fn test_build_endpoint_default_base() {
    assert_eq!(
        build_endpoint(None, "https://api.openai.com", "/v1/chat/completions"),
        "https://api.openai.com/v1/chat/completions"
    );
}

#[test]
fn test_build_endpoint_override() {
    let configured = "https://proxy.example.com/".to_string();
    assert_eq!(
        build_endpoint(Some(&configured), "https://api.openai.com", "/v1/chat/completions"),
        "https://proxy.example.com/v1/chat/completions"
    );
}
