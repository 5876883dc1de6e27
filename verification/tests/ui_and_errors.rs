use gcop_rs::config::{
    CommitConfig, FileConfig, NetworkConfig, ReviewConfig, UIConfig, default_commit_max_retries,
    default_severity, default_true,
};
use gcop_rs::error::GcopError;
use gcop_rs::stats::{render_bar, AuthorStats};
use gcop_rs::ui::{action_from_selection, commit_menu_options, commit_menu_prompt,
    normalize_feedback, CommitAction};

#[test]
fn test_menu_options_with_edit() {
    let options = commit_menu_options(true);
    assert_eq!(options.len(), 5);
    assert!(options[1].contains("Edit"));
}

#[test]
fn test_menu_options_without_edit() {
    let options = commit_menu_options(false);
    assert_eq!(options.len(), 4);
    assert!(!options.iter().any(|o| o.contains("Edit -")));
}

#[test]
fn test_menu_prompt_changes_after_retry() {
    assert_eq!(commit_menu_prompt(0), "Choose next action (ESC to quit):");
    assert_eq!(commit_menu_prompt(3), "Not satisfied? Choose again (ESC to quit):");
}

#[test]
fn test_action_from_selection_with_edit() {
    assert_eq!(action_from_selection(true, Some(0)), CommitAction::Accept);
    assert_eq!(action_from_selection(true, Some(1)), CommitAction::Edit);
    assert_eq!(action_from_selection(true, Some(2)), CommitAction::Retry);
    assert_eq!(action_from_selection(true, Some(3)), CommitAction::RetryWithFeedback);
    assert_eq!(action_from_selection(true, Some(4)), CommitAction::Quit);
}

#[test]
fn test_action_from_selection_without_edit() {
    assert_eq!(action_from_selection(false, Some(0)), CommitAction::Accept);
    assert_eq!(action_from_selection(false, Some(1)), CommitAction::Retry);
    assert_eq!(action_from_selection(false, Some(2)), CommitAction::RetryWithFeedback);
    assert_eq!(action_from_selection(false, Some(3)), CommitAction::Quit);
}

#[test]
fn test_escape_quits() {
    assert_eq!(action_from_selection(true, None), CommitAction::Quit);
    assert_eq!(action_from_selection(false, None), CommitAction::Quit);
}

#[test]
fn test_normalize_feedback_trims() {
    let (fb, truncated) = normalize_feedback("  use Chinese  ");
    assert_eq!(fb.unwrap(), "use Chinese");
    assert!(!truncated);
}

#[test]
fn test_normalize_feedback_empty_is_none() {
    let (fb, truncated) = normalize_feedback("   \n\t ");
    assert!(fb.is_none());
    assert!(!truncated);
}

#[test]
fn test_normalize_feedback_truncates_to_limit() {
    let long = "a".repeat(250);
    let (fb, truncated) = normalize_feedback(&long);
    let fb = fb.unwrap();
    assert_eq!(fb.len(), 200);
    assert_eq!(fb, "a".repeat(200));
    assert!(truncated);
}

#[test]
fn test_config_defaults() {
    let commit = CommitConfig::default();
    assert!(commit.show_diff_preview && commit.allow_edit && commit.confirm_before_commit);
    assert!(commit.custom_prompt.is_none());
    assert_eq!(commit.max_retries, 10);

    let review = ReviewConfig::default();
    assert!(review.show_full_diff);
    assert_eq!(review.min_severity, "info");

    let ui = UIConfig::default();
    assert!(ui.colored && !ui.verbose);

    let network = NetworkConfig::default();
    assert_eq!(network.request_timeout, 120);
    assert_eq!(network.connect_timeout, 10);
    assert_eq!(network.max_retries, 3);
    assert_eq!(network.retry_delay_ms, 1000);

    let file = FileConfig::default();
    assert_eq!(file.max_size, 10 * 1024 * 1024);

    assert!(default_true());
    assert_eq!(default_severity(), "info");
    assert_eq!(default_commit_max_retries(), 10);
}

#[test]
fn test_render_bar_proportions() {
    assert_eq!(render_bar(5, 10, 20), "\u{2588}".repeat(10));
    assert_eq!(render_bar(10, 10, 20), "\u{2588}".repeat(20));
    assert_eq!(render_bar(0, 10, 20), "");
    assert_eq!(render_bar(3, 10, 0), "");
}

#[test]
fn test_render_bar_no_commits() {
    assert_eq!(render_bar(4, 0, 20), "");
}

#[test]
fn test_author_stats_fields() {
    let author = AuthorStats {
        name: "Ada".to_string(),
        email: "ada@example.com".to_string(),
        commits: 42,
    };
    assert_eq!(author.commits, 42);
    assert_eq!(author.name, "Ada");
}

#[test]
fn test_error_messages() {
    assert_eq!(
        GcopError::Config("bad".to_string()).message_string(),
        "Configuration error: bad"
    );
    assert_eq!(GcopError::NoStagedChanges.message_string(), "No staged changes found");
    assert_eq!(GcopError::UserCancelled.message_string(), "Operation cancelled by user");
    assert_eq!(GcopError::RetryLimitExceeded.message_string(), "Too many retries");
    assert_eq!(GcopError::Other("plain".to_string()).message_string(), "plain");
}

#[test]
fn test_error_suggestions() {
    assert_eq!(
        GcopError::NoStagedChanges.suggestion(),
        Some("Run 'git add <files>' to stage your changes first")
    );
    let e = GcopError::Config("Anthropic API key not found. Set it".to_string());
    assert_eq!(
        e.suggestion(),
        Some("Add 'api_key = \"sk-ant-...\"' to [llm.providers.anthropic] in ~/.config/gcop/config.toml, or set ANTHROPIC_API_KEY")
    );
    let e = GcopError::Llm("backend said 429".to_string());
    assert_eq!(
        e.suggestion(),
        Some("Rate limit exceeded. Wait a moment and try again, or upgrade your API plan")
    );
    let e = GcopError::Llm("Failed to parse review result: oops".to_string());
    assert_eq!(
        e.suggestion(),
        Some("Try using --verbose flag to see the full LLM response and debug the issue")
    );
    assert!(GcopError::UserCancelled.suggestion().is_none());
}

#[test]
fn test_message_constructors() {
    let m = gcop_rs::message::Message::user("hello".to_string());
    assert_eq!(m.role, "user");
    assert_eq!(m.content, "hello");
    let m = gcop_rs::message::Message::assistant("hi".to_string());
    assert_eq!(m.role, "assistant");
    assert_eq!(m.content, "hi");
}
